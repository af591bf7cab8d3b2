//! Building a library: where the definitions of its functions are searched for.
use vstd::prelude::*;
use crate::text::{concat, ends_with_char};

verus! {

/// The text `**/*.toml`.
pub open spec fn toml_pattern() -> Seq<char> {
    seq!['*', '*', '/', '*', '.', 't', 'o', 'm', 'l']
}

/// The glob pattern that finds every definition file under `base_dir`: `**/*.toml` under it,
/// with a `/` between them unless `base_dir` already ends with one.
pub fn search_pattern(base_dir: &str) -> (p: String)
    ensures
        p@ == if base_dir@.len() > 0 && base_dir@.last() == '/' {
            base_dir@ + toml_pattern()
        } else {
            base_dir@ + seq!['/'] + toml_pattern()
        },
{
    proof {
        reveal_strlit("**/*.toml");
        reveal_strlit("/**/*.toml");
    }
    let r = if ends_with_char(base_dir, '/') {
        concat(base_dir, "**/*.toml")
    } else {
        concat(base_dir, "/**/*.toml")
    };
    assert(seq!['/'] + toml_pattern() =~= "/**/*.toml"@);
    r
}

} // verus!
