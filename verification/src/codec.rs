//! SCALE encodings used in calls: little-endian and compact integers, and the two
//! locations the calls name, encoded by `staging_xcm`.
use parity_scale_codec::Encode;
use staging_xcm::v5 as xcm_v5;
use vstd::prelude::*;

verus! {

/// The `k` least significant bytes of `n`, least significant first.
pub open spec fn le_bytes(n: nat, k: nat) -> Seq<u8>
    decreases k,
{
    if k == 0 {
        Seq::empty()
    } else {
        seq![(n % 256) as u8] + le_bytes(n / 256, (k - 1) as nat)
    }
}

/// `le_bytes(n, k)` has `k` bytes.
pub proof fn lemma_le_bytes_len(n: nat, k: nat)
    ensures
        le_bytes(n, k).len() == k,
    decreases k,
{
    if k > 0 {
        lemma_le_bytes_len(n / 256, (k - 1) as nat);
    }
}

/// The number of bytes needed to write `n` (zero for zero).
pub open spec fn byte_len(n: nat) -> nat
    decreases n,
{
    if n == 0 {
        0
    } else {
        1 + byte_len(n / 256)
    }
}

/// SCALE compact encoding: one, two or four bytes with the mode in the two low bits,
/// or a length byte followed by the minimal little-endian bytes.
pub open spec fn compact_bytes(n: nat) -> Seq<u8> {
    if n < 0x40 {
        seq![(n * 4) as u8]
    } else if n < 0x4000 {
        le_bytes(n * 4 + 1, 2)
    } else if n < 0x4000_0000 {
        le_bytes(n * 4 + 2, 4)
    } else {
        seq![(3 + (byte_len(n) - 4) * 4) as u8] + le_bytes(n, byte_len(n))
    }
}

/// Calls `parity_scale_codec::Encode::encode` on a `u128`: sixteen little-endian bytes.
#[verifier::external_body]
fn scale_u128(n: u128) -> (r: Vec<u8>)
    ensures
        r@ == le_bytes(n as nat, 16),
{
    n.encode()
}

/// The SCALE encoding of `Parent -> Parachain(para_id)`: one parent, the `X1` variant
/// of `Junctions`, the `Parachain` variant, then the para id as a compact integer.
pub open spec fn sibling_location_bytes(para_id: u32) -> Seq<u8> {
    seq![1u8, 1u8, 0u8] + compact_bytes(para_id as nat)
}

/// The SCALE encoding of `Parent`: one parent and the `Here` variant of `Junctions`.
pub open spec fn parent_location_bytes() -> Seq<u8> {
    seq![1u8, 0u8]
}

/// Calls `parity_scale_codec::Encode::encode` on the `staging_xcm` location
/// `Location::new(1, [Parachain(para_id)])`: its parents byte, the `Junctions` variant
/// for one junction, the `Parachain` variant and the compact para id.
#[verifier::external_body]
fn xcm_sibling_location_encoded(para_id: u32) -> (r: Vec<u8>)
    ensures
        r@ == sibling_location_bytes(para_id),
{
    xcm_v5::Location::new(1, [xcm_v5::Junction::Parachain(para_id)]).encode()
}

/// Calls `parity_scale_codec::Encode::encode` on the `staging_xcm` location
/// `Location::parent()`: its parents byte and the `Here` variant of `Junctions`.
#[verifier::external_body]
fn xcm_parent_location_encoded() -> (r: Vec<u8>)
    ensures
        r@ == parent_location_bytes(),
{
    xcm_v5::Location::parent().encode()
}

/// Appends the encoding of `Parent -> Parachain(para_id)`.
pub fn push_sibling_location(out: &mut Vec<u8>, para_id: u32)
    ensures
        final(out)@ == old(out)@ + sibling_location_bytes(para_id),
{
    let mut b = xcm_sibling_location_encoded(para_id);
    out.append(&mut b);
}

/// Appends the encoding of `Parent`.
pub fn push_parent_location(out: &mut Vec<u8>)
    ensures
        final(out)@ == old(out)@ + parent_location_bytes(),
{
    let mut b = xcm_parent_location_encoded();
    out.append(&mut b);
}

/// Appends the bytes of an array.
pub fn push_array<const N: usize>(out: &mut Vec<u8>, a: &[u8; N])
    ensures
        final(out)@ == old(out)@ + a@,
{
    let mut i: usize = 0;
    while i < N
        invariant
            i <= N,
            a@.len() == N,
            out@ == old(out)@ + a@.subrange(0, i as int),
        decreases N - i,
    {
        out.push(a[i]);
        assert(a@.subrange(0, i + 1) =~= a@.subrange(0, i as int).push(a@[i as int]));
        i = i + 1;
    }
    assert(a@.subrange(0, N as int) =~= a@);
}

/// Appends the sixteen little-endian bytes of `n`.
pub fn push_u128(out: &mut Vec<u8>, n: u128)
    ensures
        final(out)@ == old(out)@ + le_bytes(n as nat, 16),
{
    let mut b = scale_u128(n);
    out.append(&mut b);
}

} // verus!
