//! What only the running machine can give: fresh identifiers, the time
//! and random bytes. Nothing here is proved; each contract states what
//! holds of every outcome.

use vstd::prelude::*;

verus! {

/// The shape of a hyphenated identifier of version 4: 36 characters, the
/// hyphens in their places, and the version digit.
pub open spec fn is_v4_text(s: Seq<char>) -> bool {
    &&& s.len() == 36
    &&& s[8] == '-'
    &&& s[13] == '-'
    &&& s[18] == '-'
    &&& s[23] == '-'
    &&& s[14] == '4'
}

/// Calls `uuid::Uuid::new_v4` and renders the identifier with its
/// `Display` impl. The identifier is random; the contract claims only the
/// shape that `uuid` gives to every hyphenated version 4 identifier.
#[verifier::external_body]
pub(crate) fn fresh_uuid_text() -> (s: String)
    ensures
        is_v4_text(s@),
{
    uuid::Uuid::new_v4().to_string()
}

/// The shape of an instant of universal time in RFC 3339: at least a
/// date, the letter `T` and a time of day to the second, and the offset
/// of universal time at the end.
pub open spec fn is_utc_instant_text(s: Seq<char>) -> bool {
    &&& s.len() >= 25
    &&& s.contains('T')
    &&& s.subrange(s.len() - 6, s.len() as int) == "+00:00"@
}

/// Calls `chrono::Utc::now` and renders the instant with
/// `DateTime::to_rfc3339`. The instant depends on the clock; the contract
/// claims only the shape that `chrono` gives to every instant of
/// universal time: date, `T`, time of day, and the offset `+00:00`.
#[verifier::external_body]
pub(crate) fn now_rfc3339() -> (s: String)
    ensures
        is_utc_instant_text(s@),
{
    chrono::Utc::now().to_rfc3339()
}

/// Fills 32 bytes with `rand::RngCore::fill_bytes` on `rand::thread_rng()`.
/// Nothing is claimed of the bytes: they are random.
#[verifier::external_body]
pub(crate) fn random_seed() -> (seed: [u8; 32])
{
    let mut buf = [0u8; 32];
    rand::RngCore::fill_bytes(&mut rand::thread_rng(), &mut buf);
    buf
}

} // verus!
