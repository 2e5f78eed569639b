//! The command line of the wizard.
use vstd::prelude::*;
use crate::text::same_text;

verus! {

/// Whether an argument asks for help.
pub open spec fn is_help_flag(a: Seq<char>) -> bool {
    a == "--help"@ || a == "-h"@
}

/// Whether any of the arguments asks for help, in which case the wizard prints its help
/// and ends instead of starting.
pub fn wants_help(args: &Vec<String>) -> (r: bool)
    ensures
        r == exists|i: int| 0 <= i < args@.len() && is_help_flag(#[trigger] args@[i]@),
{
    let n = args.len();
    for i in 0..n
        invariant
            n == args@.len(),
            forall|j: int| 0 <= j < i ==> !is_help_flag(#[trigger] args@[j]@),
    {
        let a = args[i].as_str();
        if same_text(a, "--help") || same_text(a, "-h") {
            return true;
        }
    }
    false
}

} // verus!
