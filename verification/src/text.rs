//! Text that the standard library makes, and the names under which the
//! contracts of this library speak of it.

use vstd::prelude::*;

verus! {

/// `text` in upper case, as `str::to_uppercase` gives it.
pub uninterp spec fn uppercase(text: Seq<char>) -> Seq<char>;

/// `text` between double quotes with its special characters escaped, as
/// the `{:?}` format gives a string.
pub uninterp spec fn quoted(text: Seq<char>) -> Seq<char>;

/// `str::to_uppercase`: the upper-case form of `text`.
#[verifier::external_body]
pub(crate) fn to_uppercase(text: &str) -> (upper: String)
    ensures
        upper@ == uppercase(text@),
{
    text.to_uppercase()
}

/// The `{:?}` format of a string: `text` quoted and escaped.
#[verifier::external_body]
pub(crate) fn to_quoted(text: &str) -> (shown: String)
    ensures
        shown@ == quoted(text@),
{
    format!("{:?}", text)
}

/// `String::push`: `letter` is appended to `target`.
#[verifier::external_body]
pub(crate) fn push_char(target: &mut String, letter: char)
    ensures
        final(target)@ == old(target)@.push(letter),
{
    target.push(letter)
}

/// The characters whose codes are the bytes of `bytes`.
pub open spec fn ascii_chars(bytes: Seq<u8>) -> Seq<char> {
    Seq::new(bytes.len(), |i: int| bytes[i] as char)
}

/// Append to `target` the characters whose codes are the bytes of `bytes`,
/// all of which are ASCII.
pub fn push_ascii(target: &mut String, bytes: &[u8])
    requires
        forall|i: int| 0 <= i < bytes@.len() ==> bytes@[i] < 0x80,
    ensures
        final(target)@ == old(target)@ + ascii_chars(bytes@),
{
    let mut index: usize = 0;
    while index < bytes.len()
        invariant
            index <= bytes@.len(),
            forall|i: int| 0 <= i < bytes@.len() ==> bytes@[i] < 0x80,
            target@ == old(target)@ + ascii_chars(bytes@.take(index as int)),
        decreases bytes@.len() - index,
    {
        push_char(target, bytes[index] as char);
        index = index + 1;
    }
}

} // verus!
