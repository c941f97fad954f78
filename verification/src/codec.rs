//! The header codec: the two fixed-layout buffer headers and their binary
//! form. The layout is versionless and field-ordered, with little-endian
//! integers and no padding. Encoding never fails; decoding fails only on a
//! slice shorter than the header's fixed size.

use vstd::prelude::*;

use crate::error::EchoError;

verus! {

/// Size in bytes of an encoded [`AuthorizedBufferHeader`]:
/// an 8-byte seed followed by a 1-byte bump.
pub const AUTH_BUFF_HEADER_SIZE: usize = 9;

/// Size in bytes of an encoded [`VendingMachineBufferHeader`]:
/// a 1-byte bump followed by an 8-byte price.
pub const VENDING_MACHINE_BUFF_HEADER_SIZE: usize = 9;

/// The fixed prefix of an authority-gated buffer: the caller-chosen seed and
/// the bump byte of the buffer's derived address. Written once at
/// initialization and read-only thereafter.
#[derive(Clone, Copy, Debug, PartialEq, Eq, Structural)]
pub struct AuthorizedBufferHeader {
    /// The caller-chosen seed that went into the buffer's derived address.
    pub buffer_seed: u64,
    /// The bump byte of the buffer's derived address.
    pub bump_seed: u8,
}

/// The fixed prefix of a priced buffer: the bump byte of the buffer's derived
/// address and the price of one write. Written once at initialization and
/// read-only thereafter.
#[derive(Clone, Copy, Debug, PartialEq, Eq, Structural)]
pub struct VendingMachineBufferHeader {
    /// The bump byte of the buffer's derived address.
    pub bump_seed: u8,
    /// How many token units one priced echo burns.
    pub price: u64,
}

/// The little-endian bytes of a 64-bit integer, least significant first.
pub open spec fn u64_le_bytes(x: u64) -> Seq<u8> {
    seq![
        (x & 0xff) as u8,
        ((x >> 8) & 0xff) as u8,
        ((x >> 16) & 0xff) as u8,
        ((x >> 24) & 0xff) as u8,
        ((x >> 32) & 0xff) as u8,
        ((x >> 40) & 0xff) as u8,
        ((x >> 48) & 0xff) as u8,
        ((x >> 56) & 0xff) as u8,
    ]
}

/// The 64-bit integer read from eight little-endian bytes.
pub open spec fn u64_from_le(b: Seq<u8>) -> u64
    recommends
        b.len() == 8,
{
    ((b[0] as u64) | ((b[1] as u64) << 8) | ((b[2] as u64) << 16) | ((b[3] as u64) << 24) | ((
    b[4] as u64) << 32) | ((b[5] as u64) << 40) | ((b[6] as u64) << 48) | ((b[7] as u64) << 56))
}

/// Reading back the little-endian bytes of an integer yields the integer.
pub proof fn lemma_u64_le_round_trip(x: u64)
    ensures
        u64_from_le(u64_le_bytes(x)) == x,
{
    assert((((x & 0xff) as u8) as u64) | (((((x >> 8) & 0xff) as u8) as u64) << 8) | (((((x >> 16)
        & 0xff) as u8) as u64) << 16) | (((((x >> 24) & 0xff) as u8) as u64) << 24) | (((((x >> 32)
        & 0xff) as u8) as u64) << 32) | (((((x >> 40) & 0xff) as u8) as u64) << 40) | (((((x >> 48)
        & 0xff) as u8) as u64) << 48) | (((((x >> 56) & 0xff) as u8) as u64) << 56) == x)
        by (bit_vector);
}

/// The encoded form of an authority-gated header: seed bytes then bump.
pub open spec fn spec_encode_authorized(h: AuthorizedBufferHeader) -> Seq<u8> {
    u64_le_bytes(h.buffer_seed).push(h.bump_seed)
}

/// The header read from the first nine bytes of an authority-gated buffer.
pub open spec fn spec_decode_authorized(b: Seq<u8>) -> AuthorizedBufferHeader
    recommends
        b.len() >= AUTH_BUFF_HEADER_SIZE,
{
    AuthorizedBufferHeader { buffer_seed: u64_from_le(b.subrange(0, 8)), bump_seed: b[8] }
}

/// The encoded form of a priced header: bump then price bytes.
pub open spec fn spec_encode_vending(h: VendingMachineBufferHeader) -> Seq<u8> {
    seq![h.bump_seed] + u64_le_bytes(h.price)
}

/// The header read from the first nine bytes of a priced buffer.
pub open spec fn spec_decode_vending(b: Seq<u8>) -> VendingMachineBufferHeader
    recommends
        b.len() >= VENDING_MACHINE_BUFF_HEADER_SIZE,
{
    VendingMachineBufferHeader { bump_seed: b[0], price: u64_from_le(b.subrange(1, 9)) }
}

/// Decoding an encoded authority-gated header yields the header back.
pub proof fn lemma_authorized_round_trip(h: AuthorizedBufferHeader)
    ensures
        spec_decode_authorized(spec_encode_authorized(h)) == h,
{
    lemma_u64_le_round_trip(h.buffer_seed);
    assert(spec_encode_authorized(h).subrange(0, 8) =~= u64_le_bytes(h.buffer_seed));
}

/// Decoding an encoded priced header yields the header back.
pub proof fn lemma_vending_round_trip(h: VendingMachineBufferHeader)
    ensures
        spec_decode_vending(spec_encode_vending(h)) == h,
{
    lemma_u64_le_round_trip(h.price);
    assert(spec_encode_vending(h).subrange(1, 9) =~= u64_le_bytes(h.price));
}

/// The little-endian bytes of a 64-bit integer, as a vector.
pub fn u64_to_le_vec(x: u64) -> (r: Vec<u8>)
    ensures
        r@ == u64_le_bytes(x),
        r@.len() == 8,
{
    let mut r: Vec<u8> = Vec::new();
    r.push((x & 0xff) as u8);
    r.push(((x >> 8) & 0xff) as u8);
    r.push(((x >> 16) & 0xff) as u8);
    r.push(((x >> 24) & 0xff) as u8);
    r.push(((x >> 32) & 0xff) as u8);
    r.push(((x >> 40) & 0xff) as u8);
    r.push(((x >> 48) & 0xff) as u8);
    r.push(((x >> 56) & 0xff) as u8);
    proof {
        assert(r@ =~= u64_le_bytes(x));
    }
    r
}

/// The 64-bit integer stored little-endian at `off` in `b`.
pub fn u64_from_le_at(b: &Vec<u8>, off: usize) -> (r: u64)
    requires
        off + 8 <= b.len(),
    ensures
        r == u64_from_le(b@.subrange(off as int, off as int + 8)),
{
    let r = (b[off] as u64) | ((b[off + 1] as u64) << 8u64) | ((b[off + 2] as u64) << 16u64) | ((b[
    off + 3] as u64) << 24u64) | ((b[off + 4] as u64) << 32u64) | ((b[off + 5] as u64) << 40u64)
        | ((b[off + 6] as u64) << 48u64) | ((b[off + 7] as u64) << 56u64);
    proof {
        let s = b@.subrange(off as int, off as int + 8);
        assert(forall|i: int| 0 <= i < 8 ==> s[i] == b@[off + i]);
    }
    r
}

/// Encode an authority-gated header into its nine-byte binary form.
pub fn encode_authorized_header(h: &AuthorizedBufferHeader) -> (r: Vec<u8>)
    ensures
        r@ == spec_encode_authorized(*h),
        r@.len() == AUTH_BUFF_HEADER_SIZE,
{
    let mut r = u64_to_le_vec(h.buffer_seed);
    r.push(h.bump_seed);
    r
}

/// Decode an authority-gated header from the prefix of a buffer. Fails
/// exactly when the buffer is shorter than the header's fixed size.
pub fn decode_authorized_header(b: &Vec<u8>) -> (r: Result<AuthorizedBufferHeader, EchoError>)
    ensures
        b@.len() >= AUTH_BUFF_HEADER_SIZE ==> r == Ok::<_, EchoError>(spec_decode_authorized(b@)),
        b@.len() < AUTH_BUFF_HEADER_SIZE ==> r == Err::<AuthorizedBufferHeader, _>(
            EchoError::InvalidAccountData,
        ),
{
    if b.len() < AUTH_BUFF_HEADER_SIZE {
        return Err(EchoError::InvalidAccountData);
    }
    let buffer_seed = u64_from_le_at(b, 0);
    let bump_seed = b[8];
    Ok(AuthorizedBufferHeader { buffer_seed, bump_seed })
}

/// Encode a priced header into its nine-byte binary form.
pub fn encode_vending_header(h: &VendingMachineBufferHeader) -> (r: Vec<u8>)
    ensures
        r@ == spec_encode_vending(*h),
        r@.len() == VENDING_MACHINE_BUFF_HEADER_SIZE,
{
    let mut r: Vec<u8> = Vec::new();
    r.push(h.bump_seed);
    let mut price_bytes = u64_to_le_vec(h.price);
    r.append(&mut price_bytes);
    proof {
        assert(r@ =~= spec_encode_vending(*h));
    }
    r
}

/// Decode a priced header from the prefix of a buffer. Fails exactly when
/// the buffer is shorter than the header's fixed size.
pub fn decode_vending_header(b: &Vec<u8>) -> (r: Result<VendingMachineBufferHeader, EchoError>)
    ensures
        b@.len() >= VENDING_MACHINE_BUFF_HEADER_SIZE ==> r == Ok::<_, EchoError>(
            spec_decode_vending(b@),
        ),
        b@.len() < VENDING_MACHINE_BUFF_HEADER_SIZE ==> r == Err::<VendingMachineBufferHeader, _>(
            EchoError::InvalidAccountData,
        ),
{
    if b.len() < VENDING_MACHINE_BUFF_HEADER_SIZE {
        return Err(EchoError::InvalidAccountData);
    }
    let bump_seed = b[0];
    let price = u64_from_le_at(b, 1);
    Ok(VendingMachineBufferHeader { bump_seed, price })
}

} // verus!
