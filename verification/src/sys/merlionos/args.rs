//! Command-line arguments.
use vstd::prelude::*;

verus! {

/// The arguments: only the program name is known.
pub fn args() -> (r: Vec<String>)
    ensures
        r@.len() == 1,
        r@[0]@ == "merlionos-program"@,
{
    let name = "merlionos-program";
    proof {
        reveal_strlit("merlionos-program");
    }
    let mut v: Vec<String> = Vec::new();
    v.push(name.to_owned());
    v
}

} // verus!
