//! 32-byte accounts: the sovereign account of a sibling parachain, and accounts
//! written as hexadecimal public keys.
use crate::codec::le_bytes;
use sp_runtime::traits::AccountIdConversion;
use vstd::prelude::*;

verus! {

/// The sovereign account of parachain `para_id` on a sibling chain: the type id
/// `b"sibl"`, the para id as four little-endian bytes, then zeros up to 32 bytes.
pub open spec fn sibling_account_bytes(para_id: u32) -> Seq<u8> {
    seq![0x73u8, 0x69u8, 0x62u8, 0x6cu8] + le_bytes(para_id as nat, 4) + Seq::new(
        24,
        |i: int| 0u8,
    )
}

/// Calls `AccountIdConversion::into_account_truncating` on
/// `polkadot_parachain_primitives::primitives::Sibling::from(para_id)`, into an
/// `sp_runtime::AccountId32`. The account is the encoding of `(b"sibl", para_id)`
/// padded with zeros to 32 bytes, as `sp_runtime` documents for `TypeId` seeds.
#[verifier::external_body]
fn sibling_into_account_truncating(para_id: u32) -> (r: [u8; 32])
    ensures
        r@ == sibling_account_bytes(para_id),
{
    let account: sp_runtime::AccountId32 =
        polkadot_parachain_primitives::primitives::Sibling::from(para_id).into_account_truncating();
    account.into()
}

/// The sovereign account of parachain `para_id` on a sibling chain such as Asset Hub.
pub fn sibling_sovereign_account(para_id: u32) -> (r: [u8; 32])
    ensures
        r@ == sibling_account_bytes(para_id),
{
    sibling_into_account_truncating(para_id)
}

/// The string without a leading `0x`, if it has one.
pub open spec fn strip_0x(s: Seq<char>) -> Seq<char> {
    if s.len() >= 2 && s[0] == '0' && s[1] == 'x' {
        s.subrange(2, s.len() as int)
    } else {
        s
    }
}

pub open spec fn is_hex_digit(c: char) -> bool {
    ('0' <= c && c <= '9') || ('a' <= c && c <= 'f') || ('A' <= c && c <= 'F')
}

/// The characters that hex decoding skips.
pub open spec fn is_hex_space(c: char) -> bool {
    c == ' ' || c == '\r' || c == '\n' || c == '\t'
}

/// The value of a hex digit.
pub open spec fn hex_value(c: char) -> u8 {
    if '0' <= c && c <= '9' {
        ((c as u32) - ('0' as u32)) as u8
    } else if 'a' <= c && c <= 'f' {
        ((c as u32) - ('a' as u32) + 10) as u8
    } else {
        ((c as u32) - ('A' as u32) + 10) as u8
    }
}

/// Every character is a hex digit.
pub open spec fn all_hex_digits(s: Seq<char>) -> bool {
    forall|i: int| 0 <= i < s.len() ==> #[trigger] is_hex_digit(s[i])
}

/// Every character is a hex digit or skipped whitespace.
pub open spec fn all_hex_or_space(s: Seq<char>) -> bool {
    forall|i: int| 0 <= i < s.len() ==> is_hex_digit(#[trigger] s[i]) || is_hex_space(s[i])
}

/// The bytes written by consecutive pairs of hex digits.
pub open spec fn hex_pairs(s: Seq<char>) -> Seq<u8> {
    Seq::new(
        s.len() / 2,
        |k: int| (hex_value(s[2 * k]) * 16 + hex_value(s[2 * k + 1])) as u8,
    )
}

/// The bytes held by an optional vector.
pub open spec fn bytes_of(r: Option<Vec<u8>>) -> Option<Seq<u8>> {
    match r {
        Some(v) => Some(v@),
        None => None,
    }
}

/// The value of `impl_serde::serialize::from_hex` on a string, or `None` where it fails.
pub uninterp spec fn from_hex_result(s: Seq<char>) -> Option<Seq<u8>>;

/// Calls `impl_serde::serialize::from_hex` (which `sp_core::bytes` re-exports), with
/// its error turned into `None`. After an optional `0x` it fails exactly on a
/// character that is neither a hex digit nor whitespace; it returns
/// `(len + 1) / 2` bytes; on an even number of hex digits and nothing else they are
/// the bytes the pairs of digits spell. What it returns on whitespace or an odd
/// number of digits is not stated here.
#[verifier::external_body]
fn from_hex(s: &str) -> (r: Option<Vec<u8>>)
    ensures
        bytes_of(r) == from_hex_result(s@),
        r is Some <==> all_hex_or_space(strip_0x(s@)),
        r matches Some(v) ==> v@.len() == (strip_0x(s@).len() + 1) / 2,
        all_hex_digits(strip_0x(s@)) && strip_0x(s@).len() % 2 == 0 ==> bytes_of(r) == Some(
            hex_pairs(strip_0x(s@)),
        ),
{
    impl_serde::serialize::from_hex(s).ok()
}

/// Copies 32 bytes into an array.
fn to_array32(v: &Vec<u8>) -> (r: [u8; 32])
    requires
        v@.len() == 32,
    ensures
        r@ == v@,
{
    let mut out = [0u8; 32];
    let mut i: usize = 0;
    while i < 32
        invariant
            i <= 32,
            v@.len() == 32,
            out@.len() == 32,
            forall|j: int| 0 <= j < i ==> out@[j] == v@[j],
        decreases 32 - i,
    {
        out[i] = v[i];
        i = i + 1;
    }
    assert(out@ =~= v@);
    out
}

/// Decodes a hex public key (with or without `0x`) into a 32-byte account.
/// `None` when the string is not hex or does not hold exactly 32 bytes.
pub(crate) fn hex_to_account_bytes(hex: &str) -> (r: Option<[u8; 32]>)
    ensures
        r is Some <==> (from_hex_result(hex@) matches Some(b) && b.len() == 32),
        r matches Some(k) ==> from_hex_result(hex@) == Some(k@),
        r is Some <==> all_hex_or_space(strip_0x(hex@)) && (strip_0x(hex@).len() + 1) / 2
            == 32,
        all_hex_digits(strip_0x(hex@)) && strip_0x(hex@).len() == 64 ==> (r matches Some(k)
            && k@ == hex_pairs(strip_0x(hex@))),
{
    match from_hex(hex) {
        None => None,
        Some(v) => {
            if v.len() == 32 {
                Some(to_array32(&v))
            } else {
                None
            }
        },
    }
}

} // verus!
