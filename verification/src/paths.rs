//! Path strings and how components are appended to them.

use vstd::prelude::*;

verus! {

/// The path obtained by appending `name` beneath `base` with a separator.
pub open spec fn join_seq(base: Seq<char>, name: Seq<char>) -> Seq<char> {
    base + "/"@ + name
}

/// Appends `name` beneath `base` with a separator, as a path join of a
/// relative component does.
pub fn join(base: &str, name: &str) -> (r: String)
    ensures
        r@ == join_seq(base@, name@),
{
    String::from_str(base).concat("/").concat(name)
}

} // verus!
