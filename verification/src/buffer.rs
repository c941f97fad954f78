//! The buffer mutator: the byte-level writes an echo performs on a buffer
//! account's storage, and the system-service identity check performed before
//! asking that service to create a buffer.

use vstd::prelude::*;

use crate::account::ADDRESS_LEN;

verus! {

/// The buffer after an unauthenticated echo: the first `min(buffer, data)`
/// bytes come from the input, the rest stay as they were.
pub open spec fn prefix_write(buf: Seq<u8>, data: Seq<u8>) -> Seq<u8> {
    Seq::new(
        buf.len(),
        |i: int|
            if i < data.len() {
                data[i]
            } else {
                buf[i]
            },
    )
}

/// The buffer after an authenticated echo: the header region is untouched
/// and every payload byte becomes `data[i]` if in range, else zero.
pub open spec fn payload_write(buf: Seq<u8>, header_size: int, data: Seq<u8>) -> Seq<u8>
    recommends
        0 <= header_size <= buf.len(),
{
    Seq::new(
        buf.len(),
        |i: int|
            if i < header_size {
                buf[i]
            } else if i - header_size < data.len() {
                data[i - header_size]
            } else {
                0u8
            },
    )
}

/// `data` zero-padded or truncated to exactly `n` bytes.
pub open spec fn zero_pad(data: Seq<u8>, n: int) -> Seq<u8>
    recommends
        n >= 0,
{
    Seq::new(
        n as nat,
        |i: int|
            if i < data.len() {
                data[i]
            } else {
                0u8
            },
    )
}

/// The buffer with its first `prefix.len()` bytes replaced by `prefix` and
/// the rest untouched: how an initializer records a fresh header.
pub open spec fn prefix_store(buf: Seq<u8>, prefix: Seq<u8>) -> Seq<u8>
    recommends
        prefix.len() <= buf.len(),
{
    prefix + buf.skip(prefix.len() as int)
}

/// Law (full overwrite): after an authenticated write the payload region
/// equals the input zero-padded/truncated to exactly the payload length,
/// whatever the payload held before; the header region is untouched.
pub proof fn lemma_payload_write_full_overwrite(
    buf1: Seq<u8>,
    buf2: Seq<u8>,
    header_size: int,
    data: Seq<u8>,
)
    requires
        0 <= header_size <= buf1.len(),
        buf1.len() == buf2.len(),
        forall|i: int| 0 <= i < header_size ==> buf1[i] == buf2[i],
    ensures
        payload_write(buf1, header_size, data) == payload_write(buf2, header_size, data),
        payload_write(buf1, header_size, data).subrange(header_size, buf1.len() as int)
            == zero_pad(data, buf1.len() - header_size),
        payload_write(buf1, header_size, data).subrange(0, header_size) == buf1.subrange(
            0,
            header_size,
        ),
{
    assert(payload_write(buf1, header_size, data) =~= payload_write(buf2, header_size, data));
    assert(payload_write(buf1, header_size, data).subrange(header_size, buf1.len() as int)
        =~= zero_pad(data, buf1.len() - header_size));
    assert(payload_write(buf1, header_size, data).subrange(0, header_size) =~= buf1.subrange(
        0,
        header_size,
    ));
}

/// Whether every byte of the buffer is zero.
pub fn all_zero(buf: &Vec<u8>) -> (r: bool)
    ensures
        r == (forall|i: int| 0 <= i < buf@.len() ==> buf@[i] == 0),
{
    let mut i: usize = 0;
    while i < buf.len()
        invariant
            i <= buf@.len(),
            forall|k: int| 0 <= k < i ==> buf@[k] == 0,
        decreases buf@.len() - i,
    {
        if buf[i] != 0 {
            return false;
        }
        i += 1;
    }
    true
}

/// Copy the input over the front of the buffer, leaving bytes past the input
/// untouched: the unauthenticated echo's write.
pub fn write_prefix(buf: &Vec<u8>, data: &Vec<u8>) -> (r: Vec<u8>)
    ensures
        r@ == prefix_write(buf@, data@),
{
    let mut r: Vec<u8> = Vec::new();
    let mut i: usize = 0;
    while i < buf.len()
        invariant
            i <= buf@.len(),
            r@.len() == i,
            forall|k: int| 0 <= k < i ==> r@[k] == prefix_write(buf@, data@)[k],
        decreases buf@.len() - i,
    {
        if i < data.len() {
            r.push(data[i]);
        } else {
            r.push(buf[i]);
        }
        i += 1;
    }
    proof {
        assert(r@ =~= prefix_write(buf@, data@));
    }
    r
}

/// Overwrite the whole payload region past the header with the input,
/// zero-padding or truncating to fit: the authenticated echoes' write.
pub fn write_payload(buf: &Vec<u8>, header_size: usize, data: &Vec<u8>) -> (r: Vec<u8>)
    requires
        header_size <= buf.len(),
    ensures
        r@ == payload_write(buf@, header_size as int, data@),
{
    let mut r: Vec<u8> = Vec::new();
    let mut i: usize = 0;
    while i < buf.len()
        invariant
            i <= buf@.len(),
            header_size <= buf@.len(),
            r@.len() == i,
            forall|k: int|
                0 <= k < i ==> r@[k] == payload_write(buf@, header_size as int, data@)[k],
        decreases buf@.len() - i,
    {
        if i < header_size {
            r.push(buf[i]);
        } else if i - header_size < data.len() {
            r.push(data[i - header_size]);
        } else {
            r.push(0);
        }
        i += 1;
    }
    proof {
        assert(r@ =~= payload_write(buf@, header_size as int, data@));
    }
    r
}

/// Replace the first `prefix.len()` bytes of the buffer with `prefix`,
/// leaving the rest untouched: how an initializer records a fresh header.
pub fn store_prefix(buf: &Vec<u8>, prefix: &Vec<u8>) -> (r: Vec<u8>)
    requires
        prefix.len() <= buf.len(),
    ensures
        r@ == prefix_store(buf@, prefix@),
{
    let mut r: Vec<u8> = Vec::new();
    let mut i: usize = 0;
    while i < buf.len()
        invariant
            i <= buf@.len(),
            prefix@.len() <= buf@.len(),
            r@.len() == i,
            forall|k: int| 0 <= k < i ==> r@[k] == prefix_store(buf@, prefix@)[k],
        decreases buf@.len() - i,
    {
        if i < prefix.len() {
            r.push(prefix[i]);
        } else {
            r.push(buf[i]);
        }
        i += 1;
    }
    proof {
        assert(r@ =~= prefix_store(buf@, prefix@));
    }
    r
}

/// Whether a key is the system service's well-known address. An operation
/// that asks the system service to create an account first checks that the
/// account supplied as that service really is it.
pub uninterp spec fn is_system_service_key(k: Seq<u8>) -> bool;

/// Relies on `solana_system_interface::program::check_id`: recognizes exactly
/// the system service's well-known address.
#[verifier::external_body]
pub(crate) fn check_system_service(key: &Vec<u8>) -> (r: bool)
    requires
        key@.len() == ADDRESS_LEN,
    ensures
        r == is_system_service_key(key@),
{
    let mut k = [0u8; 32];
    k.copy_from_slice(key.as_slice());
    solana_system_interface::program::check_id(&k.into())
}

} // verus!
