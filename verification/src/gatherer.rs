//! Gathering of the connections, values and functions of a flow and all its sub-flows into
//! tables.
use vstd::prelude::*;
use crate::generate::functions_model;
use crate::model::{Connection, Flow, FlowReference, Function, FunctionModel, FunctionReference, Value};

verus! {

broadcast use vstd::std_specs::vec::group_vec_axioms;

/// The connections a flow holds itself.
pub open spec fn own_connections(flow: Flow) -> Seq<Connection> {
    match flow.connections {
        Some(c) => c@,
        None => Seq::empty(),
    }
}

/// The values a flow holds itself.
pub open spec fn own_values(flow: Flow) -> Seq<Value> {
    match flow.values {
        Some(v) => v@,
        None => Seq::empty(),
    }
}

/// The functions a flow references itself.
pub open spec fn own_functions(flow: Flow) -> Seq<FunctionModel> {
    match flow.function_refs {
        Some(r) => r@.map_values(|fr: FunctionReference| fr.function@),
        None => Seq::empty(),
    }
}

/// The sub-flows a flow references.
pub open spec fn sub_flows(flow: Flow) -> Seq<FlowReference> {
    match flow.flow_refs {
        Some(r) => r@,
        None => Seq::empty(),
    }
}

/// The connections of a flow and of all its sub-flows: its own, then those of each sub-flow
/// in turn.
pub open spec fn gathered_connections(flow: Flow) -> Seq<Connection>
    decreases flow, 1int,
{
    own_connections(flow) + match flow.flow_refs {
        Some(r) => refs_connections(r@),
        None => Seq::empty(),
    }
}

/// The connections of a list of sub-flows, in order.
pub open spec fn refs_connections(refs: Seq<FlowReference>) -> Seq<Connection>
    decreases refs, 0int,
{
    if refs.len() == 0 {
        Seq::empty()
    } else {
        refs_connections(refs.subrange(0, refs.len() - 1)) + gathered_connections(
            refs[refs.len() - 1].flow,
        )
    }
}

/// The values of a flow and of all its sub-flows.
pub open spec fn gathered_values(flow: Flow) -> Seq<Value>
    decreases flow, 1int,
{
    own_values(flow) + match flow.flow_refs {
        Some(r) => refs_values(r@),
        None => Seq::empty(),
    }
}

/// The values of a list of sub-flows, in order.
pub open spec fn refs_values(refs: Seq<FlowReference>) -> Seq<Value>
    decreases refs, 0int,
{
    if refs.len() == 0 {
        Seq::empty()
    } else {
        refs_values(refs.subrange(0, refs.len() - 1)) + gathered_values(refs[refs.len() - 1].flow)
    }
}

/// The functions of a flow and of all its sub-flows.
pub open spec fn gathered_functions(flow: Flow) -> Seq<FunctionModel>
    decreases flow, 1int,
{
    own_functions(flow) + match flow.flow_refs {
        Some(r) => refs_functions(r@),
        None => Seq::empty(),
    }
}

/// The functions of a list of sub-flows, in order.
pub open spec fn refs_functions(refs: Seq<FlowReference>) -> Seq<FunctionModel>
    decreases refs, 0int,
{
    if refs.len() == 0 {
        Seq::empty()
    } else {
        refs_functions(refs.subrange(0, refs.len() - 1)) + gathered_functions(
            refs[refs.len() - 1].flow,
        )
    }
}

/// An optional list after its elements are moved out: still present when it was, and empty.
pub open spec fn opt_emptied<T>(before: Option<Vec<T>>, after: Option<Vec<T>>) -> bool {
    match before {
        Some(_) => after matches Some(v) && v@.len() == 0,
        None => after is None,
    }
}

/// `after` is `before` with the connections and values of it and of all its sub-flows moved
/// out, and everything else as it was.
pub open spec fn drained(before: Flow, after: Flow) -> bool
    decreases before, 1int,
{
    &&& after.name == before.name
    &&& after.description == before.description
    &&& after.version == before.version
    &&& after.author_name == before.author_name
    &&& after.author_email == before.author_email
    &&& opt_emptied(before.connections, after.connections)
    &&& opt_emptied(before.values, after.values)
    &&& after.function_refs == before.function_refs
    &&& match before.flow_refs {
        Some(b) => after.flow_refs matches Some(a) && refs_drained(b@, a@),
        None => after.flow_refs is None,
    }
}

/// Each sub-flow of `after` is the one of `before` drained, with the same alias and source.
pub open spec fn refs_drained(before: Seq<FlowReference>, after: Seq<FlowReference>) -> bool
    decreases before, 0int,
{
    if before.len() == 0 {
        after.len() == 0
    } else {
        &&& after.len() == before.len()
        &&& refs_drained(before.subrange(0, before.len() - 1), after.subrange(0, after.len() - 1))
        &&& after[after.len() - 1].alias == before[before.len() - 1].alias
        &&& after[after.len() - 1].source == before[before.len() - 1].source
        &&& drained(before[before.len() - 1].flow, after[after.len() - 1].flow)
    }
}

/// Adds the connections, values and functions of `flow` and of all the sub-flows it
/// references, recursively, to the tables: the connections and values are moved out of the
/// flows, the functions are copied. The library tables are left as they are.
pub fn add_entries(
    connection_table: &mut Vec<Connection>,
    value_table: &mut Vec<Value>,
    function_table: &mut Vec<Function>,
    lib_table: &mut Vec<String>,
    lib_reference_table: &mut Vec<String>,
    flow: &mut Flow,
)
    ensures
        final(connection_table)@ == old(connection_table)@ + gathered_connections(*old(flow)),
        final(value_table)@ == old(value_table)@ + gathered_values(*old(flow)),
        functions_model(final(function_table)@) == functions_model(old(function_table)@)
            + gathered_functions(*old(flow)),
        *final(lib_table) == *old(lib_table),
        *final(lib_reference_table) == *old(lib_reference_table),
        drained(*old(flow), *final(flow)),
    decreases *old(flow),
{
    let ghost old_flow = *flow;
    let ghost ct0 = connection_table@;
    let ghost vt0 = value_table@;
    let ghost ft0 = functions_model(function_table@);

    // Add Connections from this flow to the table
    let mut connections = None;
    std::mem::swap(&mut connections, &mut flow.connections);
    match connections {
        Some(mut c) => {
            connection_table.append(&mut c);
            flow.connections = Some(c);
        },
        None => {},
    }

    // Add Values from this flow to the table
    let mut values = None;
    std::mem::swap(&mut values, &mut flow.values);
    match values {
        Some(mut v) => {
            value_table.append(&mut v);
            flow.values = Some(v);
        },
        None => {},
    }

    // Add Functions referenced from this flow to the table
    match &flow.function_refs {
        Some(function_refs) => {
            let mut i: usize = 0;
            while i < function_refs.len()
                invariant
                    i <= function_refs.len(),
                    Some(*function_refs) == old_flow.function_refs,
                    functions_model(function_table@) == ft0 + function_refs@.take(i as int).map_values(
                        |fr: FunctionReference| fr.function@,
                    ),
                decreases function_refs.len() - i,
            {
                let ghost before = function_table@;
                function_table.push(function_refs[i].function.copy());
                proof {
                    assert(function_refs@.take(i + 1) =~= function_refs@.take(i as int).push(
                        function_refs@[i as int],
                    ));
                    assert(functions_model(function_table@) =~= functions_model(before).push(
                        function_refs@[i as int].function@,
                    ));
                    assert(function_refs@.take(i + 1).map_values(
                        |fr: FunctionReference| fr.function@,
                    ) =~= function_refs@.take(i as int).map_values(
                        |fr: FunctionReference| fr.function@,
                    ).push(function_refs@[i as int].function@));
                }
                i = i + 1;
            }
            proof {
                assert(function_refs@.take(function_refs.len() as int) =~= function_refs@);
            }
        },
        None => {
            proof {
                assert(ft0 + Seq::<FunctionModel>::empty() =~= ft0);
            }
        },
    }

    let ghost ct1 = connection_table@;
    let ghost vt1 = value_table@;
    let ghost ft1 = functions_model(function_table@);

    // Do the same for all subflows referenced from this one
    let mut flow_refs = None;
    std::mem::swap(&mut flow_refs, &mut flow.flow_refs);
    match flow_refs {
        Some(mut refs) => {
            let ghost refs0 = refs@;
            proof {
                assert(decreases_to!(old_flow => old_flow.flow_refs));
            }
            let mut i: usize = 0;
            while i < refs.len()
                invariant
                    old_flow == *old(flow),
                    Some(refs0) == (match old_flow.flow_refs {
                        Some(r) => Some(r@),
                        None => None,
                    }),
                    i <= refs.len(),
                    refs@.len() == refs0.len(),
                    forall|j: int| i <= j < refs0.len() ==> #[trigger] refs@[j] == refs0[j],
                    refs_drained(refs0.take(i as int), refs@.take(i as int)),
                    connection_table@ == ct1 + refs_connections(refs0.take(i as int)),
                    value_table@ == vt1 + refs_values(refs0.take(i as int)),
                    functions_model(function_table@) == ft1 + refs_functions(refs0.take(i as int)),
                    *lib_table == *old(lib_table),
                    *lib_reference_table == *old(lib_reference_table),
                decreases refs.len() - i,
            {
                proof {
                    let r = old_flow.flow_refs->Some_0;
                    vstd::std_specs::vec::axiom_vec_index_decreases(r, i as int);
                    assert(decreases_to!(old_flow => refs0[i as int].flow));
                }
                let ghost before_refs = refs@;
                let ghost sub = refs0[i as int].flow;
                let fr = &mut refs[i];
                assert(fr.flow == sub);
                assert(decreases_to!(*old(flow) => fr.flow));
                add_entries(
                    connection_table,
                    value_table,
                    function_table,
                    lib_table,
                    lib_reference_table,
                    &mut fr.flow,
                );
                proof {
                    let t = refs0.take(i + 1);
                    assert(t.subrange(0, t.len() - 1) =~= refs0.take(i as int));
                    assert(t[t.len() - 1] == refs0[i as int]);
                    let a = refs@.take(i + 1);
                    assert(a.subrange(0, a.len() - 1) =~= refs@.take(i as int));
                    assert(refs@.take(i as int) =~= before_refs.take(i as int));
                }
                i = i + 1;
            }
            proof {
                assert(refs0.take(refs0.len() as int) =~= refs0);
                assert(refs@.take(refs@.len() as int) =~= refs@);
            }
            flow.flow_refs = Some(refs);
        },
        None => {
            proof {
                assert(ct1 + Seq::<Connection>::empty() =~= ct1);
                assert(vt1 + Seq::<Value>::empty() =~= vt1);
                assert(ft1 + Seq::<FunctionModel>::empty() =~= ft1);
            }
        },
    }
    proof {
        assert(connection_table@ =~= ct0 + gathered_connections(old_flow));
        assert(value_table@ =~= vt0 + gathered_values(old_flow));
        assert(functions_model(function_table@) =~= ft0 + gathered_functions(old_flow));
    }
}

/// Once a flow has been gathered, gathering it again adds no connections and no values, and
/// the same functions as the first time.
pub proof fn law_gather_again_adds_nothing_new(before: Flow, after: Flow)
    requires
        drained(before, after),
    ensures
        gathered_connections(after).len() == 0,
        gathered_values(after).len() == 0,
        gathered_functions(after) == gathered_functions(before),
    decreases before, 1int,
{
    match before.flow_refs {
        Some(b) => {
            let a = after.flow_refs->Some_0;
            lemma_refs_gather_again(b@, a@);
        },
        None => {},
    }
}

proof fn lemma_refs_gather_again(before: Seq<FlowReference>, after: Seq<FlowReference>)
    requires
        refs_drained(before, after),
    ensures
        refs_connections(after).len() == 0,
        refs_values(after).len() == 0,
        refs_functions(after) == refs_functions(before),
    decreases before, 0int,
{
    if before.len() > 0 {
        lemma_refs_gather_again(
            before.subrange(0, before.len() - 1),
            after.subrange(0, after.len() - 1),
        );
        law_gather_again_adds_nothing_new(before[before.len() - 1].flow, after[after.len() - 1].flow);
    }
}

/// Every function a flow references is among its own functions, each in its place: one
/// function for each function reference, in the order of the references.
pub proof fn law_every_referenced_function_gathered(flow: Flow)
    ensures
        own_functions(flow).len() == (match flow.function_refs {
            Some(r) => r@.len(),
            None => 0,
        }),
        forall|i: int|
            0 <= i < own_functions(flow).len() ==> #[trigger] own_functions(flow)[i]
                == flow.function_refs->0@[i].function@,
        sub_flows(flow).len() == 0 ==> gathered_functions(flow).len() == own_functions(flow).len(),
        sub_flows(flow).len() == 0 ==> forall|i: int|
            0 <= i < gathered_functions(flow).len() ==> #[trigger] gathered_functions(flow)[i]
                == flow.function_refs->0@[i].function@,
{
    if sub_flows(flow).len() == 0 {
        match flow.flow_refs {
            Some(r) => {
                assert(refs_functions(r@) =~= Seq::<FunctionModel>::empty());
            },
            None => {},
        }
        assert(gathered_functions(flow) =~= own_functions(flow));
    }
}

} // verus!
