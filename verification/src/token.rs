//! Reading foreign token-ledger records. A priced echo consults two accounts
//! owned by the fungible-token ledger: the mint that prices the buffer and
//! the user's token account that pays for the write. Their fixed binary
//! layouts are parsed by the token ledger's own routines behind trusted
//! wrappers; the fields the core reads are the mint identity, the recorded
//! owner and the balance.

use vstd::prelude::*;

use solana_program::program_pack::Pack;

use crate::codec::u64_from_le;

verus! {

/// What the core reads out of a user's token account record: which mint it
/// holds, who owns it, and its balance.
pub struct TokenAccountInfo {
    /// The mint this token account holds units of.
    pub mint: Vec<u8>,
    /// The party who owns (controls) this token account.
    pub owner: Vec<u8>,
    /// The balance, in token base units.
    pub amount: u64,
}

/// A four-byte optional-field tag as the token ledger lays it out: a little-
/// endian 0 (absent) or 1 (present).
pub open spec fn coption_tag_ok(b: Seq<u8>, off: int) -> bool {
    &&& (b[off] == 0 || b[off] == 1)
    &&& b[off + 1] == 0
    &&& b[off + 2] == 0
    &&& b[off + 3] == 0
}

/// When a token-account record parses: exactly 165 bytes, with the three
/// optional-field tags and the one state byte in range.
pub open spec fn token_account_parses(b: Seq<u8>) -> bool {
    &&& b.len() == 165
    &&& coption_tag_ok(b, 72)  // delegate
    &&& (b[108] == 0 || b[108] == 1 || b[108] == 2)  // account state
    &&& coption_tag_ok(b, 109)  // native marker
    &&& coption_tag_ok(b, 129)  // close authority

}

/// The mint recorded in a token-account record.
pub open spec fn token_mint(b: Seq<u8>) -> Seq<u8> {
    b.subrange(0, 32)
}

/// The owner recorded in a token-account record.
pub open spec fn token_owner(b: Seq<u8>) -> Seq<u8> {
    b.subrange(32, 64)
}

/// The balance recorded in a token-account record.
pub open spec fn token_amount(b: Seq<u8>) -> u64 {
    u64_from_le(b.subrange(64, 72))
}

/// When a mint record parses: exactly 82 bytes, with the two optional-field
/// tags and the initialization flag in range.
pub open spec fn mint_parses(b: Seq<u8>) -> bool {
    &&& b.len() == 82
    &&& coption_tag_ok(b, 0)  // mint authority
    &&& (b[45] == 0 || b[45] == 1)  // initialization flag
    &&& coption_tag_ok(b, 46)  // freeze authority

}

/// Relies on `spl_token::state::Account::unpack_unchecked` (layout: mint at
/// 0..32, owner at 32..64, balance little-endian at 64..72; parsing succeeds
/// exactly on a 165-byte record whose optional-field tags and state byte are
/// in range).
#[verifier::external_body]
pub(crate) fn unpack_token_account(data: &Vec<u8>) -> (r: Option<TokenAccountInfo>)
    ensures
        token_account_parses(data@) ==> (match r {
            Some(t) => t.mint@ == token_mint(data@) && t.owner@ == token_owner(data@) && t.amount
                == token_amount(data@),
            None => false,
        }),
        !token_account_parses(data@) ==> r is None,
{
    match spl_token::state::Account::unpack_unchecked(data.as_slice()) {
        Ok(a) => Some(
            TokenAccountInfo {
                mint: a.mint.to_bytes().to_vec(),
                owner: a.owner.to_bytes().to_vec(),
                amount: a.amount,
            },
        ),
        Err(_) => None,
    }
}

/// Relies on `spl_token::state::Mint::unpack_unchecked`: parsing succeeds
/// exactly on an 82-byte record whose optional-field tags and initialization
/// flag are in range. The mint's fields are not read, only that it parses.
#[verifier::external_body]
pub(crate) fn mint_account_parses(data: &Vec<u8>) -> (r: bool)
    ensures
        r == mint_parses(data@),
{
    spl_token::state::Mint::unpack_unchecked(data.as_slice()).is_ok()
}

} // verus!
