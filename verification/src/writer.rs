//! The text of a transcript file.

use vstd::prelude::*;

verus! {

/// What a transcript file holds: the transcript and a final line break.
pub fn transcript_contents(text: &str) -> (r: String)
    ensures
        r@ == text@ + "\n"@,
{
    let mut out = text.to_owned();
    out.append("\n");
    out
}

} // verus!
