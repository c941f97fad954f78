//! The seed formats fed to the address derivation engine: each buffer kind
//! derives its address from a fixed literal tag, a 32-byte address, and a
//! 64-bit parameter as eight little-endian bytes (the bump byte is appended
//! separately, by the search or by re-derivation).

use vstd::prelude::*;

use crate::codec::{u64_le_bytes, u64_to_le_vec};
use crate::account::clone_bytes;
use crate::pda::seeds_view;

verus! {

/// The bytes of the literal tag "authority".
pub open spec fn authority_tag() -> Seq<u8> {
    seq![97u8, 117u8, 116u8, 104u8, 111u8, 114u8, 105u8, 116u8, 121u8]
}

/// The bytes of the literal tag "vending_machine".
pub open spec fn vending_machine_tag() -> Seq<u8> {
    seq![
        118u8,
        101u8,
        110u8,
        100u8,
        105u8,
        110u8,
        103u8,
        95u8,
        109u8,
        97u8,
        99u8,
        104u8,
        105u8,
        110u8,
        101u8,
    ]
}

/// Seed list of an authority-gated buffer: the tag, the authority's address,
/// and the caller-chosen seed as eight little-endian bytes.
pub open spec fn auth_seeds(authority: Seq<u8>, buffer_seed: u64) -> Seq<Seq<u8>> {
    seq![authority_tag(), authority, u64_le_bytes(buffer_seed)]
}

/// Seed list of a priced buffer: the tag, the mint's address, and the price
/// as eight little-endian bytes.
pub open spec fn vending_seeds(mint: Seq<u8>, price: u64) -> Seq<Seq<u8>> {
    seq![vending_machine_tag(), mint, u64_le_bytes(price)]
}

/// The tag "authority" as a byte vector.
fn authority_tag_vec() -> (r: Vec<u8>)
    ensures
        r@ == authority_tag(),
{
    let mut r: Vec<u8> = Vec::new();
    r.push(97);  // a
    r.push(117);  // u
    r.push(116);  // t
    r.push(104);  // h
    r.push(111);  // o
    r.push(114);  // r
    r.push(105);  // i
    r.push(116);  // t
    r.push(121);  // y
    proof {
        assert(r@ =~= authority_tag());
    }
    r
}

/// The tag "vending_machine" as a byte vector.
fn vending_machine_tag_vec() -> (r: Vec<u8>)
    ensures
        r@ == vending_machine_tag(),
{
    let mut r: Vec<u8> = Vec::new();
    r.push(118);  // v
    r.push(101);  // e
    r.push(110);  // n
    r.push(100);  // d
    r.push(105);  // i
    r.push(110);  // n
    r.push(103);  // g
    r.push(95);  // _
    r.push(109);  // m
    r.push(97);  // a
    r.push(99);  // c
    r.push(104);  // h
    r.push(105);  // i
    r.push(110);  // n
    r.push(101);  // e
    proof {
        assert(r@ =~= vending_machine_tag());
    }
    r
}

/// Build the seed list of an authority-gated buffer.
pub fn build_auth_seeds(authority: &Vec<u8>, buffer_seed: u64) -> (r: Vec<Vec<u8>>)
    ensures
        seeds_view(r@) == auth_seeds(authority@, buffer_seed),
{
    let mut r: Vec<Vec<u8>> = Vec::new();
    r.push(authority_tag_vec());
    r.push(clone_bytes(authority));
    r.push(u64_to_le_vec(buffer_seed));
    proof {
        assert(seeds_view(r@) =~= auth_seeds(authority@, buffer_seed));
    }
    r
}

/// Build the seed list of a priced buffer.
pub fn build_vending_seeds(mint: &Vec<u8>, price: u64) -> (r: Vec<Vec<u8>>)
    ensures
        seeds_view(r@) == vending_seeds(mint@, price),
{
    let mut r: Vec<Vec<u8>> = Vec::new();
    r.push(vending_machine_tag_vec());
    r.push(clone_bytes(mint));
    r.push(u64_to_le_vec(price));
    proof {
        assert(seeds_view(r@) =~= vending_seeds(mint@, price));
    }
    r
}

} // verus!
