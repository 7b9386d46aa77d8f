//! Which of the pads that a decoder adds are linked to the audio branch.

use vstd::prelude::*;
use vstd::string::StrSliceExecFns;

verus! {

/// The media type of raw audio; parameters may follow it.
pub open spec fn raw_audio_prefix() -> Seq<char> {
    "audio/x-raw"@
}

/// `text` begins with `prefix`.
pub fn starts_with(text: &str, prefix: &str) -> (found: bool)
    ensures
        found == prefix@.is_prefix_of(text@),
{
    let wanted: usize = prefix.unicode_len();
    if text.unicode_len() < wanted {
        return false;
    }
    let mut i: usize = 0;
    while i < wanted
        invariant
            i <= wanted,
            wanted == prefix@.len(),
            wanted <= text@.len(),
            forall|k: int| 0 <= k < i ==> text@[k] == prefix@[k],
        decreases wanted - i,
    {
        if text.get_char(i) != prefix.get_char(i) {
            assert(text@[i as int] != prefix@[i as int]);
            return false;
        }
        i += 1;
    }
    assert(text@.subrange(0, prefix@.len() as int) =~= prefix@);
    true
}

/// A new pad is linked only if it carries raw audio, that is, if the name
/// of its media type begins with `audio/x-raw`.
pub fn is_raw_audio(media_type: &str) -> (raw: bool)
    ensures
        raw == raw_audio_prefix().is_prefix_of(media_type@),
{
    starts_with(media_type, "audio/x-raw")
}

} // verus!
