//! The decisions of the flow runner: in which mode to run, how many threads execute jobs,
//! how many jobs may run in parallel, and the arguments handed to the flow.
use vstd::prelude::*;
use crate::text::{all_digits, digits_value};

verus! {

/// The integer a text writes, as `str::parse::<i32>` reads it: an optional `+` or `-` sign
/// followed by at least one decimal digit and nothing else, of a value that fits in an `i32`.
pub open spec fn parse_i32(text: Seq<char>) -> Option<i32> {
    let signed = text.len() > 0 && (text[0] == '-' || text[0] == '+');
    let body = if signed {
        text.subrange(1, text.len() as int)
    } else {
        text
    };
    let v = if signed && text[0] == '-' {
        -digits_value(body)
    } else {
        digits_value(body)
    };
    if body.len() > 0 && all_digits(body) && i32::MIN <= v <= i32::MAX {
        Some(v as i32)
    } else {
        None
    }
}

/// A bound above every `i32` magnitude, at which the reading of digits stops growing.
pub open spec fn digits_cap() -> int {
    0x1_0000_0000
}

/// Reads a text as `str::parse::<i32>` does.
fn parse_i32_text(text: &str) -> (r: Option<i32>)
    ensures
        r == parse_i32(text@),
{
    let n = text.unicode_len();
    let mut start: usize = 0;
    let mut negative = false;
    if n > 0 {
        let c = text.get_char(0);
        if c == '-' || c == '+' {
            start = 1;
            negative = c == '-';
        }
    }
    let ghost body = text@.subrange(start as int, n as int);
    proof {
        if start == 0 {
            assert(body =~= text@);
        }
        assert(body == (if text@.len() > 0 && (text@[0] == '-' || text@[0] == '+') {
            text@.subrange(1, text@.len() as int)
        } else {
            text@
        }));
        assert(negative == (text@.len() > 0 && (text@[0] == '-' || text@[0] == '+') && text@[0]
            == '-'));
    }
    if start >= n {
        return None;
    }
    let mut i: usize = start;
    let mut acc: u64 = 0;
    while i < n
        invariant
            start <= i <= n,
            n == text@.len(),
            body == text@.subrange(start as int, n as int),
            !all_digits(body) ==> parse_i32(text@) is None,
            all_digits(text@.subrange(start as int, i as int)),
            acc as int == if digits_value(text@.subrange(start as int, i as int)) < digits_cap() {
                digits_value(text@.subrange(start as int, i as int))
            } else {
                digits_cap()
            },
        decreases n - i,
    {
        let c = text.get_char(i);
        if c < '0' || c > '9' {
            proof {
                assert(body[i - start] == c);
                assert(!('0' <= body[i - start] <= '9'));
                assert(!all_digits(body));
            }
            return None;
        }
        let d: u64 = (c as u32 - '0' as u32) as u64;
        proof {
            let prefix = text@.subrange(start as int, i as int + 1);
            assert(prefix.drop_last() =~= text@.subrange(start as int, i as int));
            assert(prefix.last() == c);
        }
        let next = acc * 10 + d;
        acc = if next < 0x1_0000_0000 { next } else { 0x1_0000_0000 };
        i = i + 1;
        assert(all_digits(text@.subrange(start as int, i as int)));
    }
    assert(text@.subrange(start as int, n as int) =~= body);
    proof {
        if start == 0 {
            assert(body =~= text@);
        }
    }
    if negative {
        if acc <= 0x8000_0000 {
            Some((0 - (acc as i64)) as i32)
        } else {
            None
        }
    } else {
        if acc <= 0x7fff_ffff {
            Some(acc as i32)
        } else {
            None
        }
    }
}

/// Calls `num_cpus::get`, the number of CPUs available to this process, which its
/// documentation says is always at least one. What the number is depends on the machine.
#[verifier::external_body]
fn available_cpus() -> (n: usize)
    ensures
        n >= 1,
{
    num_cpus::get()
}

/// A count given on the command line, raised to one if it is less.
pub open spec fn at_least_one(v: i32) -> usize {
    if v < 1 { 1 } else { v as usize }
}

/// The number of threads that execute jobs: the number given, raised to one if less;
/// otherwise, when none is given or it does not parse (`Some(None)`), one with the debugger
/// and the number of CPUs without.
pub open spec fn threads_spec(debugger: bool, threads: Option<Option<i32>>, cpus: usize) -> usize {
    match threads {
        Some(Some(t)) => at_least_one(t),
        _ => if debugger { 1 } else { cpus },
    }
}

/// The number of jobs that may run in parallel: the number given, raised to one if less;
/// twice the number of CPUs when it does not parse; when none is given, one with the debugger
/// and twice the number of CPUs without.
pub open spec fn parallel_jobs_spec(debugger: bool, jobs: Option<Option<i32>>, cpus: usize) -> int {
    match jobs {
        Some(Some(j)) => at_least_one(j) as int,
        Some(None) => 2 * cpus,
        None => if debugger { 1 } else { 2 * cpus },
    }
}

/// The number of threads that execute jobs, from the debugger option, the parsed thread
/// option (`Some(None)` when given but not a number) and the number of CPUs.
pub fn threads_from(debugger: bool, threads: Option<Option<i32>>, cpus: usize) -> (n: usize)
    ensures
        n == threads_spec(debugger, threads, cpus),
{
    match threads {
        Some(Some(t)) => if t < 1 { 1 } else { t as usize },
        _ => if debugger { 1 } else { cpus },
    }
}

/// An option as read: `None` when not given, `Some(None)` when given but not an `i32`.
pub open spec fn parsed_option(arg: Option<&str>) -> Option<Option<i32>> {
    match arg {
        Some(s) => Some(parse_i32(s@)),
        None => None,
    }
}

/// The number of threads that execute jobs, from the value of the `threads` option, if any:
/// the number given overrides the default, which is one with the debugger and the number of
/// cores of the device without.
pub fn num_threads(threads_arg: Option<&str>, debugger: bool) -> (n: usize)
    ensures
        n >= 1,
        threads_arg is Some && parse_i32(threads_arg->0@) is Some ==> n == at_least_one(
            parse_i32(threads_arg->0@)->0,
        ),
        debugger && (threads_arg is None || parse_i32(threads_arg->0@) is None) ==> n == 1,
        exists|cpus: usize| cpus >= 1 && n == threads_spec(debugger, parsed_option(threads_arg), cpus),
{
    let parsed = match threads_arg {
        Some(value) => Some(parse_i32_text(value)),
        None => None,
    };
    match parsed {
        Some(Some(_)) => {
            let n = threads_from(debugger, parsed, 1);
            assert(n == threads_spec(debugger, parsed, 1usize));
            n
        },
        _ => if debugger {
            let n = threads_from(debugger, parsed, 1);
            assert(n == threads_spec(debugger, parsed, 1usize));
            n
        } else {
            let cpus = available_cpus();
            threads_from(debugger, parsed, cpus)
        },
    }
}

/// The number of jobs that may run in parallel, from the debugger option, the parsed jobs
/// option (`Some(None)` when given but not a number) and the number of CPUs.
pub fn parallel_jobs_from(debugger: bool, jobs: Option<Option<i32>>, cpus: usize) -> (n: usize)
    requires
        2 * cpus <= usize::MAX,
    ensures
        n as int == parallel_jobs_spec(debugger, jobs, cpus),
{
    match jobs {
        Some(Some(j)) => if j < 1 { 1 } else { j as usize },
        Some(None) => 2 * cpus,
        None => if debugger { 1 } else { 2 * cpus },
    }
}

/// The number of jobs that may run in parallel, from the value of the `jobs` option, if any:
/// by default twice the number of cores, or any override from the command line. `None` only
/// when twice the number of CPUs of the machine would not fit in a `usize`.
pub fn num_parallel_jobs(jobs_arg: Option<&str>, debugger: bool) -> (n: Option<usize>)
    ensures
        n matches Some(j) ==> j >= 1,
        jobs_arg is Some && parse_i32(jobs_arg->0@) is Some ==> n == Some(
            at_least_one(parse_i32(jobs_arg->0@)->0),
        ),
        jobs_arg is None && debugger ==> n == Some(1usize),
        n matches Some(j) ==> exists|cpus: usize|
            cpus >= 1 && j as int == parallel_jobs_spec(debugger, parsed_option(jobs_arg), cpus),
{
    let parsed = match jobs_arg {
        Some(value) => Some(parse_i32_text(value)),
        None => None,
    };
    match parsed {
        Some(Some(_)) => {
            let j = parallel_jobs_from(debugger, parsed, 0);
            assert(j as int == parallel_jobs_spec(debugger, parsed, 1usize));
            Some(j)
        },
        None if debugger => {
            let j = parallel_jobs_from(debugger, parsed, 0);
            assert(j as int == parallel_jobs_spec(debugger, parsed, 1usize));
            Some(j)
        },
        _ => {
            let cpus = available_cpus();
            if cpus > usize::MAX / 2 {
                None
            } else {
                Some(parallel_jobs_from(debugger, parsed, cpus))
            }
        },
    }
}

/// The mode the runner runs in.
#[derive(Debug, PartialEq, Eq, Clone, Copy)]
pub enum Mode {
    /// Run only the client, which submits the flow to a server elsewhere.
    ClientOnly,
    /// Run only the server, which executes flows submitted to it.
    ServerOnly,
    /// Run both, in this process.
    ClientAndServer,
}

impl Mode {
    /// Does the runner start a server in this mode?
    pub fn runs_server(&self) -> (b: bool)
        ensures
            b == !(*self is ClientOnly),
    {
        match self {
            Mode::ClientOnly => false,
            _ => true,
        }
    }

    /// Does the runner start a client in this mode?
    pub fn runs_client(&self) -> (b: bool)
        ensures
            b == !(*self is ServerOnly),
    {
        match self {
            Mode::ServerOnly => false,
            _ => true,
        }
    }
}

/// Why the runner cannot start.
#[derive(Debug, PartialEq)]
pub enum RunnerError {
    /// As a client only, no server address was given and no server could be discovered.
    NoServerAddress,
}

/// Starts announcing the server, so clients can discover it. Announcing is not offered in
/// this version, so it always succeeds.
pub fn enable_server_discovery() -> (r: Result<(), RunnerError>)
    ensures
        r is Ok,
{
    Ok(())
}

/// Tries to discover a server that a client can send a submission to. Discovery is not
/// offered in this version, so none is found.
pub fn discover_server() -> (r: Option<String>)
    ensures
        r is None,
{
    None
}

/// The mode and the server address, from the `client` and `server` options and the
/// `address` option: as a client only, the address given, else one discovered, else an
/// error; as a server only, no address; otherwise client and server, with no address.
pub fn select_mode(client: bool, server: bool, address: Option<String>) -> (r: Result<(Mode, Option<String>), RunnerError>)
    ensures
        client ==> (match address {
            Some(a) => r == Ok::<(Mode, Option<String>), RunnerError>((Mode::ClientOnly, Some(a))),
            None => r == Err::<(Mode, Option<String>), RunnerError>(RunnerError::NoServerAddress),
        }),
        !client && server ==> r == Ok::<(Mode, Option<String>), RunnerError>((Mode::ServerOnly, None)),
        !client && !server ==> r == Ok::<(Mode, Option<String>), RunnerError>((Mode::ClientAndServer, None)),
{
    if client {
        let s_address = match address {
            Some(a) => Some(a),
            None => discover_server(),
        };
        match s_address {
            None => Err(RunnerError::NoServerAddress),
            Some(a) => Ok((Mode::ClientOnly, Some(a))),
        }
    } else if server {
        match enable_server_discovery() {
            Ok(()) => Ok((Mode::ServerOnly, None)),
            Err(e) => Err(e),
        }
    } else {
        Ok((Mode::ClientAndServer, None))
    }
}

/// The arguments handed to the flow: the url of its manifest first, then the arguments given
/// for it on the command line.
pub fn get_flow_args(flow_manifest_url: &str, flow_arguments: &Vec<String>) -> (args: Vec<String>)
    ensures
        args@.len() == flow_arguments@.len() + 1,
        args@[0]@ == flow_manifest_url@,
        forall|i: int| 0 <= i < flow_arguments@.len() ==> #[trigger] args@[i + 1] == flow_arguments@[i],
{
    let mut flow_args: Vec<String> = Vec::new();
    flow_args.push(String::from_str(flow_manifest_url));
    let mut i: usize = 0;
    while i < flow_arguments.len()
        invariant
            i <= flow_arguments.len(),
            flow_args@.len() == i + 1,
            flow_args@[0]@ == flow_manifest_url@,
            forall|k: int| 0 <= k < i ==> #[trigger] flow_args@[k + 1] == flow_arguments@[k],
        decreases flow_arguments.len() - i,
    {
        flow_args.push(flow_arguments[i].clone());
        i = i + 1;
    }
    flow_args
}

/// However the options are given, at least one thread executes jobs, and at least one job may
/// run at a time.
pub proof fn law_counts_at_least_one(debugger: bool, opt: Option<Option<i32>>, cpus: usize)
    requires
        cpus >= 1,
    ensures
        threads_spec(debugger, opt, cpus) >= 1,
        parallel_jobs_spec(debugger, opt, cpus) >= 1,
{
}

/// A number of threads given as an option overrides the default, with or without the
/// debugger and whatever the number of CPUs.
pub proof fn law_threads_option_overrides_default(t: i32, d1: bool, d2: bool, c1: usize, c2: usize)
    ensures
        threads_spec(d1, Some(Some(t)), c1) == threads_spec(d2, Some(Some(t)), c2),
{
}

/// Without an option that reads as a number and without the debugger, as many threads run as
/// there are CPUs, and twice as many jobs may run in parallel, whatever the number of CPUs.
pub proof fn law_defaults_follow_cpus(opt: Option<Option<i32>>, cpus: usize)
    requires
        opt is None || opt == Some(None::<i32>),
    ensures
        threads_spec(false, opt, cpus) == cpus,
        parallel_jobs_spec(false, opt, cpus) == 2 * cpus,
        opt == Some(None::<i32>) ==> parallel_jobs_spec(true, opt, cpus) == 2 * cpus,
{
}

} // verus!
