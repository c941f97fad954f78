//! The address derivation engine. A buffer's address is derived
//! deterministically from a program identity and an ordered list of seed
//! byte-strings plus a one-byte bump. The derivation itself is an opaque
//! collision-resistant hash performed by the ledger's address routine; this
//! module verifies the search for a canonical bump and the re-derivation
//! check performed on every authenticated operation.

use vstd::prelude::*;

use crate::account::{bytes_eq, clone_bytes, ADDRESS_LEN};

verus! {

/// What the ledger's address routine returns for a seed list and a program
/// identity: `Some(address)` when the hash lands off the reserved key
/// subspace, `None` when it does not or the seeds are oversized. A pure
/// function of its arguments.
pub uninterp spec fn derive_address(seeds: Seq<Seq<u8>>, program_id: Seq<u8>) -> Option<Seq<u8>>;

/// The byte-string contents of a seed list.
pub open spec fn seeds_view(seeds: Seq<Vec<u8>>) -> Seq<Seq<u8>> {
    seeds.map_values(|s: Vec<u8>| s@)
}

/// An address verifies for a seed list and bump when re-deriving with the
/// bump appended yields exactly that address.
pub open spec fn address_verifies(
    seeds: Seq<Seq<u8>>,
    bump: u8,
    program_id: Seq<u8>,
    address: Seq<u8>,
) -> bool {
    derive_address(seeds.push(seq![bump]), program_id) == Some(address)
}

/// The first bump at or below `b`, searching downward, whose derivation
/// succeeds, together with the derived address.
pub open spec fn find_from(seeds: Seq<Seq<u8>>, program_id: Seq<u8>, b: int) -> Option<
    (Seq<u8>, u8),
>
    decreases b + 1,
{
    if b < 0 {
        None
    } else {
        match derive_address(seeds.push(seq![b as u8]), program_id) {
            Some(a) => Some((a, b as u8)),
            None => find_from(seeds, program_id, b - 1),
        }
    }
}

/// The canonical derivation search: the highest bump, starting at 255 and
/// decreasing, for which an address derives.
pub open spec fn spec_find_program_address(seeds: Seq<Seq<u8>>, program_id: Seq<u8>) -> Option<
    (Seq<u8>, u8),
> {
    find_from(seeds, program_id, 255)
}

/// Relies on `solana_program::pubkey::Pubkey::create_program_address`: the result is a
/// deterministic function of the seed list and the program identity alone (a
/// fixed hash), succeeding with a 32-byte address exactly when derivation is
/// possible for these inputs.
#[verifier::external_body]
fn create_program_address(seeds: &Vec<Vec<u8>>, program_id: &Vec<u8>) -> (r: Option<Vec<u8>>)
    requires
        program_id@.len() == ADDRESS_LEN,
    ensures
        match r {
            Some(a) => derive_address(seeds_view(seeds@), program_id@) == Some(a@) && a@.len()
                == ADDRESS_LEN,
            None => derive_address(seeds_view(seeds@), program_id@) is None,
        },
{
    let seed_refs: Vec<&[u8]> = seeds.iter().map(|s| s.as_slice()).collect();
    let mut pid = [0u8; 32];
    pid.copy_from_slice(program_id.as_slice());
    let pid = solana_program::pubkey::Pubkey::new_from_array(pid);
    match solana_program::pubkey::Pubkey::create_program_address(&seed_refs, &pid) {
        Ok(a) => Some(a.to_bytes().to_vec()),
        Err(_) => None,
    }
}

/// An owned copy of a seed list.
fn clone_seed_list(seeds: &Vec<Vec<u8>>) -> (r: Vec<Vec<u8>>)
    ensures
        seeds_view(r@) == seeds_view(seeds@),
        r@.len() == seeds@.len(),
        forall|k: int| 0 <= k < seeds@.len() ==> (#[trigger] r@[k])@ == seeds@[k]@,
{
    let mut r: Vec<Vec<u8>> = Vec::new();
    let mut i: usize = 0;
    while i < seeds.len()
        invariant
            i <= seeds@.len(),
            r@.len() == i,
            forall|k: int| 0 <= k < i ==> (#[trigger] r@[k])@ == seeds@[k]@,
        decreases seeds@.len() - i,
    {
        r.push(clone_bytes(&seeds[i]));
        i += 1;
    }
    proof {
        assert(seeds_view(r@) =~= seeds_view(seeds@));
    }
    r
}

/// Search decreasing bump values, starting at 255, for the first whose
/// derivation succeeds. Deterministic and pure; used only at initialization.
pub fn find_program_address(seeds: &Vec<Vec<u8>>, program_id: &Vec<u8>) -> (r: Option<
    (Vec<u8>, u8),
>)
    requires
        program_id@.len() == ADDRESS_LEN,
    ensures
        match r {
            Some(p) => spec_find_program_address(seeds_view(seeds@), program_id@) == Some(
                (p.0@, p.1),
            ) && p.0@.len() == ADDRESS_LEN,
            None => spec_find_program_address(seeds_view(seeds@), program_id@) is None,
        },
{
    let ghost sv = seeds_view(seeds@);
    let mut with_bump = clone_seed_list(seeds);
    let mut bump_vec: Vec<u8> = Vec::new();
    bump_vec.push(255);
    with_bump.push(bump_vec);
    let mut bump: u8 = 255;
    loop
        invariant
            program_id@.len() == ADDRESS_LEN,
            sv == seeds_view(seeds@),
            with_bump@.len() == seeds@.len() + 1,
            forall|k: int| 0 <= k < seeds@.len() ==> (#[trigger] with_bump@[k])@ == seeds@[k]@,
            with_bump@[seeds@.len() as int]@ == seq![bump],
            find_from(sv, program_id@, 255) == find_from(sv, program_id@, bump as int),
        decreases bump,
    {
        proof {
            assert(seeds_view(with_bump@) =~= sv.push(seq![bump]));
        }
        match create_program_address(&with_bump, program_id) {
            Some(a) => {
                return Some((a, bump));
            },
            None => {},
        }
        if bump == 0 {
            proof {
                assert(find_from(sv, program_id@, 0) == find_from(sv, program_id@, -1));
            }
            return None;
        }
        bump = bump - 1;
        with_bump.pop();
        let mut bv: Vec<u8> = Vec::new();
        bv.push(bump);
        with_bump.push(bv);
    }
}

/// Re-derive the address implied by a seed list and a stored (possibly
/// non-canonical) bump and compare it byte-for-byte to the address actually
/// supplied. Used on every authenticated operation.
pub fn verify_program_address(
    seeds: &Vec<Vec<u8>>,
    bump: u8,
    program_id: &Vec<u8>,
    expected: &Vec<u8>,
) -> (r: bool)
    requires
        program_id@.len() == ADDRESS_LEN,
    ensures
        r == address_verifies(seeds_view(seeds@), bump, program_id@, expected@),
{
    let mut with_bump = clone_seed_list(seeds);
    let mut bump_vec: Vec<u8> = Vec::new();
    bump_vec.push(bump);
    with_bump.push(bump_vec);
    proof {
        assert(seeds_view(with_bump@) =~= seeds_view(seeds@).push(seq![bump]));
    }
    match create_program_address(&with_bump, program_id) {
        Some(derived) => bytes_eq(&derived, expected),
        None => false,
    }
}

/// The address found at or below a given bump re-derives with its own bump.
proof fn lemma_find_from_verifies(
    seeds: Seq<Seq<u8>>,
    program_id: Seq<u8>,
    b: int,
    address: Seq<u8>,
    bump: u8,
)
    requires
        find_from(seeds, program_id, b) == Some((address, bump)),
    ensures
        address_verifies(seeds, bump, program_id, address),
    decreases b + 1,
{
    if b >= 0 {
        if derive_address(seeds.push(seq![b as u8]), program_id) is Some {
        } else {
            lemma_find_from_verifies(seeds, program_id, b - 1, address, bump);
        }
    }
}

/// Law (round trip): the address and bump that the canonical search finds
/// verify against the same program identity and seed list.
pub proof fn lemma_find_then_verify(
    seeds: Seq<Seq<u8>>,
    program_id: Seq<u8>,
    address: Seq<u8>,
    bump: u8,
)
    requires
        spec_find_program_address(seeds, program_id) == Some((address, bump)),
    ensures
        address_verifies(seeds, bump, program_id, address),
{
    lemma_find_from_verifies(seeds, program_id, 255, address, bump);
}

/// Law (uniqueness): for one program identity, seed list and bump, at most
/// one address verifies; any other address — in particular one differing in
/// a single byte — is rejected.
pub proof fn lemma_verify_unique(
    seeds: Seq<Seq<u8>>,
    bump: u8,
    program_id: Seq<u8>,
    a1: Seq<u8>,
    a2: Seq<u8>,
)
    requires
        address_verifies(seeds, bump, program_id, a1),
        a2 != a1,
    ensures
        !address_verifies(seeds, bump, program_id, a2),
{
}

} // verus!
