//! Trusted wrappers around the std functions that vstd gives no
//! specification: text decoding, Unicode lower-casing and the clock.

use vstd::prelude::*;
use vstd::utf8::{decode_utf8, valid_utf8};

verus! {

/// What `String::from_utf8_lossy` makes of a byte sequence.
pub uninterp spec fn lossy_text(bytes: Seq<u8>) -> Seq<char>;

/// `String::from_utf8_lossy`: decodes `bytes` as UTF-8, putting U+FFFD in
/// place of each invalid sequence. Claimed: the result is a function of the
/// bytes alone, and valid UTF-8 is decoded unchanged (as std documents).
#[verifier::external_body]
pub(crate) fn utf8_lossy(bytes: &[u8]) -> (s: String)
    ensures
        s@ == lossy_text(bytes@),
        valid_utf8(bytes@) ==> s@ == decode_utf8(bytes@),
{
    String::from_utf8_lossy(bytes).into_owned()
}

/// What `str::to_lowercase` makes of a text.
pub uninterp spec fn lowercase(s: Seq<char>) -> Seq<char>;

/// `str::to_lowercase`: the Unicode lower-case mapping of each character.
/// Claimed: the result is a function of the text alone.
#[verifier::external_body]
pub(crate) fn to_lowercase(s: &str) -> (r: String)
    ensures
        r@ == lowercase(s@),
{
    s.to_lowercase()
}

#[verifier::external_type_specification]
#[verifier::external_body]
pub struct ExSystemTime(std::time::SystemTime);

/// `SystemTime::now`: the current time of the system clock. Nothing is
/// claimed of it.
#[verifier::external_body]
pub(crate) fn system_now() -> std::time::SystemTime {
    std::time::SystemTime::now()
}

/// `SystemTime::duration_since(UNIX_EPOCH)`: the time elapsed since
/// 1970-01-01 00:00 UTC, or `None` for a time before it. Nothing is claimed
/// of the value.
#[verifier::external_body]
pub(crate) fn since_epoch(t: &std::time::SystemTime) -> Option<core::time::Duration> {
    t.duration_since(std::time::UNIX_EPOCH).ok()
}

/// `Duration::as_secs`: the whole seconds of a duration. Nothing is claimed
/// of the value.
#[verifier::external_body]
pub(crate) fn whole_seconds(d: &core::time::Duration) -> u64 {
    d.as_secs()
}

} // verus!
