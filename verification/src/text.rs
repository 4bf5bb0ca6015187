//! Small helpers for building and comparing text.

use vstd::prelude::*;
use vstd::string::*;

verus! {

/// Appends `c` to `text` with `String::push`, which adds the given character
/// to the end of the string and leaves the rest as it was.
#[verifier::external_body]
pub(crate) fn push_char(text: &mut String, c: char)
    ensures
        final(text)@ == old(text)@.push(c),
{
    text.push(c);
}

/// Whether `left` and `right` hold the same characters.
pub(crate) fn same_text(left: &str, right: &str) -> (same: bool)
    ensures
        same == (left@ == right@),
{
    String::from_str(left) == String::from_str(right)
}

/// A copy of `text`.
pub(crate) fn copy_of(text: &String) -> (copy: String)
    ensures
        copy@ == text@,
{
    text.clone()
}

/// Appends `text` to `out` where `condition` holds.
pub(crate) fn append_if(out: &mut String, condition: bool, text: &str)
    ensures
        final(out)@ == old(out)@ + (if condition {
            text@
        } else {
            Seq::empty()
        }),
{
    if condition {
        out.append(text);
    } else {
        assert(out@ + Seq::<char>::empty() =~= out@);
    }
}

} // verus!
