//! Text building with exact contracts over character sequences.

use vstd::prelude::*;

verus! {

/// `needle` occurs in `hay` as a contiguous run of characters.
pub open spec fn contains(hay: Seq<char>, needle: Seq<char>) -> bool {
    exists|i: int|
        0 <= i && i + needle.len() <= hay.len() && #[trigger] hay.subrange(
            i,
            i + needle.len(),
        ) == needle
}

/// The text `before`, then `middle`, then `after`.
pub open spec fn framed(before: Seq<char>, middle: Seq<char>, after: Seq<char>) -> Seq<char> {
    before + middle + after
}

/// A text that frames another contains it.
pub proof fn lemma_framed_contains(before: Seq<char>, middle: Seq<char>, after: Seq<char>)
    ensures
        contains(framed(before, middle, after), middle),
{
    let whole = framed(before, middle, after);
    let start = before.len() as int;
    assert(whole.subrange(start, start + middle.len()) =~= middle);
}

/// Builds `before`, `middle`, `after` as one owned text.
pub fn frame(before: &str, middle: &str, after: &str) -> (out: String)
    ensures
        out@ == framed(before@, middle@, after@),
{
    let mut out = String::from_str(before);
    out.append(middle);
    out.append(after);
    out
}

} // verus!
