//! Randomness.

use vstd::prelude::*;

verus! {

/// `rand::RngCore::fill_bytes` of the thread's generator: 64 bytes of which
/// nothing is known.
#[verifier::external_body]
pub(crate) fn random_bytes() -> (r: [u8; 64]) {
    let mut bytes = [0u8; 64];
    rand::RngCore::fill_bytes(&mut rand::thread_rng(), &mut bytes);
    bytes
}

/// `rand::Rng::gen_range` of the thread's generator over `0..end`: a number below
/// `end`.
#[verifier::external_body]
pub(crate) fn random_below(end: u64) -> (r: u64)
    requires
        end > 0,
    ensures
        r < end,
{
    rand::Rng::gen_range(&mut rand::thread_rng(), 0..end)
}

/// The lower-case hexadecimal digits.
pub open spec fn is_hex(c: char) -> bool {
    '0' <= c <= '9' || 'a' <= c <= 'f'
}

/// The text of a random UUID: five groups of hexadecimal digits with dashes
/// between them, and the version and the variant in their places.
pub open spec fn is_uuid_v4(s: Seq<char>) -> bool {
    &&& s.len() == 36
    &&& s[8] == '-' && s[13] == '-' && s[18] == '-' && s[23] == '-'
    &&& s[14] == '4'
    &&& s[19] == '8' || s[19] == '9' || s[19] == 'a' || s[19] == 'b'
    &&& forall|i: int|
        0 <= i < 36 && i != 8 && i != 13 && i != 18 && i != 23 ==> is_hex(#[trigger] s[i])
}

/// `uuid::Uuid::new_v4`, shown: a random UUID in its usual form. Nothing is known of
/// its digits but the version and the variant.
#[verifier::external_body]
pub(crate) fn random_uuid() -> (r: String)
    ensures
        is_uuid_v4(r@),
{
    uuid::Uuid::new_v4().to_string()
}

} // verus!
