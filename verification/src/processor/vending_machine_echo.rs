//! The priced echo: anyone may write into a priced buffer by burning the
//! buffer's stored price from their own token account. The balance is
//! checked locally before the burn is requested, the buffer's address is
//! re-derived from the mint and the stored price and bump, and only then are
//! the burn and the payload write performed.

use vstd::prelude::*;

use crate::account::{clone_bytes, only_buffer_data_changed, AccountView, ADDRESS_LEN};
use crate::buffer::{payload_write, write_payload};
use crate::codec::{
    decode_vending_header,
    spec_decode_vending,
    VENDING_MACHINE_BUFF_HEADER_SIZE,
};
use crate::error::EchoError;
use crate::pda::{address_verifies, verify_program_address};
use crate::processor::BurnAction;
use crate::seeds::{build_vending_seeds, vending_seeds};
use crate::token::{
    mint_account_parses,
    mint_parses,
    token_account_parses,
    token_amount,
    token_mint,
    token_owner,
    unpack_token_account,
};

verus! {

/// The first failing account-list check, if any: buffer, user, the user's
/// token account, mint, token service, in that order; the buffer and the
/// token account must be writable and the user must have signed.
pub open spec fn parse_err(accounts: Seq<AccountView>) -> Option<EchoError> {
    if accounts.len() < 5 {
        Some(EchoError::NotEnoughAccountKeys)
    } else if !accounts[0].is_writable {
        Some(EchoError::AccountMustBeWritable)
    } else if !accounts[2].is_writable {
        Some(EchoError::AccountMustBeWritable)
    } else if !accounts[1].is_signer {
        Some(EchoError::MissingRequiredSignature)
    } else {
        None
    }
}

/// The first failing priced-echo check, if any: the account-list checks,
/// then the two foreign records must parse, the token account must belong to
/// the user and hold the supplied mint, the buffer must hold a header, the
/// balance must cover the stored price, and the buffer's address must
/// re-derive from the mint and the stored price and bump (a derivation that
/// fails outright is likewise an address mismatch).
pub open spec fn vending_echo_err(accounts: Seq<AccountView>, program_id: Seq<u8>) -> Option<
    EchoError,
> {
    if parse_err(accounts) is Some {
        parse_err(accounts)
    } else if !mint_parses(accounts[3].data@) {
        Some(EchoError::InvalidAccountData)
    } else if !token_account_parses(accounts[2].data@) {
        Some(EchoError::InvalidAccountData)
    } else if token_owner(accounts[2].data@) != accounts[1].key@ {
        Some(EchoError::InvalidAccountData)
    } else if token_mint(accounts[2].data@) != accounts[3].key@ {
        Some(EchoError::InvalidAccountData)
    } else if accounts[0].data@.len() < VENDING_MACHINE_BUFF_HEADER_SIZE {
        Some(EchoError::AccountNotInitialized)
    } else if token_amount(accounts[2].data@) < spec_decode_vending(accounts[0].data@).price {
        Some(EchoError::InsufficientFunds)
    } else if !address_verifies(
        vending_seeds(accounts[3].key@, spec_decode_vending(accounts[0].data@).price),
        spec_decode_vending(accounts[0].data@).bump_seed,
        program_id,
        accounts[0].key@,
    ) {
        Some(EchoError::InvalidAccountAddress)
    } else {
        None
    }
}

/// How a successful priced echo changes the account list: only the buffer's
/// contents change; the header region stays and the whole payload region
/// becomes the input, zero-padded or truncated to fit.
pub open spec fn vending_echo_post(
    pre: Seq<AccountView>,
    post: Seq<AccountView>,
    data: Seq<u8>,
) -> bool {
    only_buffer_data_changed(
        pre,
        post,
        payload_write(pre[0].data@, VENDING_MACHINE_BUFF_HEADER_SIZE as int, data),
    )
}

/// The returned burn is aimed at exactly the supplied accounts and burns
/// exactly the buffer's stored price.
pub open spec fn burn_action_matches(pre: Seq<AccountView>, a: BurnAction) -> bool {
    &&& a.token_service@ == pre[4].key@
    &&& a.token_account@ == pre[2].key@
    &&& a.mint@ == pre[3].key@
    &&& a.user@ == pre[1].key@
    &&& a.amount == spec_decode_vending(pre[0].data@).price
}

/// The operation's accounts, consumed in order.
pub struct Context {
    /// Position of the priced buffer in the account list.
    pub vending_machine_buffer: usize,
    /// Position of the paying user in the account list.
    pub user: usize,
    /// Position of the user's token account in the account list.
    pub user_token_account: usize,
    /// Position of the mint in the account list.
    pub vending_machine_mint: usize,
    /// Position of the token service in the account list.
    pub token_program: usize,
}

impl Context {
    /// Pull the five accounts from the list, in order, and check
    /// writability of the buffer and the token account and the user's
    /// signature.
    pub fn parse(accounts: &Vec<AccountView>) -> (r: Result<Context, EchoError>)
        ensures
            match r {
                Ok(ctx) => parse_err(accounts@) is None && ctx.vending_machine_buffer == 0
                    && ctx.user == 1 && ctx.user_token_account == 2 && ctx.vending_machine_mint == 3
                    && ctx.token_program == 4,
                Err(e) => parse_err(accounts@) == Some(e),
            },
    {
        if accounts.len() < 5 {
            return Err(EchoError::NotEnoughAccountKeys);
        }
        if !accounts[0].is_writable {
            return Err(EchoError::AccountMustBeWritable);
        }
        if !accounts[2].is_writable {
            return Err(EchoError::AccountMustBeWritable);
        }
        if !accounts[1].is_signer {
            return Err(EchoError::MissingRequiredSignature);
        }
        Ok(
            Context {
                vending_machine_buffer: 0,
                user: 1,
                user_token_account: 2,
                vending_machine_mint: 3,
                token_program: 4,
            },
        )
    }
}

/// Overwrite the payload region of a priced buffer with the input, paying by
/// burning the stored price from the user's token account. On success the
/// buffer is rewritten in place and the burn to perform is returned; every
/// failure mutates nothing and requests no burn.
pub fn process(program_id: &Vec<u8>, accounts: &mut Vec<AccountView>, data: Vec<u8>) -> (r: Result<
    BurnAction,
    EchoError,
>)
    requires
        program_id@.len() == ADDRESS_LEN,
    ensures
        match vending_echo_err(old(accounts)@, program_id@) {
            Some(e) => r == Err::<BurnAction, EchoError>(e) && final(accounts)@ == old(accounts)@,
            None => r matches Ok(a) && burn_action_matches(old(accounts)@, a) && vending_echo_post(
                old(accounts)@,
                final(accounts)@,
                data@,
            ),
        },
{
    let ctx = match Context::parse(accounts) {
        Ok(c) => c,
        Err(e) => {
            return Err(e);
        },
    };
    if !mint_account_parses(&accounts[ctx.vending_machine_mint].data) {
        return Err(EchoError::InvalidAccountData);
    }
    let token_account = match unpack_token_account(&accounts[ctx.user_token_account].data) {
        Some(t) => t,
        None => {
            return Err(EchoError::InvalidAccountData);
        },
    };
    if !crate::account::bytes_eq(&token_account.owner, &accounts[ctx.user].key) {
        return Err(EchoError::InvalidAccountData);
    }
    if !crate::account::bytes_eq(&token_account.mint, &accounts[ctx.vending_machine_mint].key) {
        return Err(EchoError::InvalidAccountData);
    }
    if accounts[ctx.vending_machine_buffer].data.len() < VENDING_MACHINE_BUFF_HEADER_SIZE {
        return Err(EchoError::AccountNotInitialized);
    }
    let header = match decode_vending_header(&accounts[ctx.vending_machine_buffer].data) {
        Ok(h) => h,
        Err(e) => {
            return Err(e);
        },
    };
    if token_account.amount < header.price {
        return Err(EchoError::InsufficientFunds);
    }
    let seeds = build_vending_seeds(&accounts[ctx.vending_machine_mint].key, header.price);
    if !verify_program_address(
        &seeds,
        header.bump_seed,
        program_id,
        &accounts[ctx.vending_machine_buffer].key,
    ) {
        return Err(EchoError::InvalidAccountAddress);
    }
    let action = BurnAction {
        token_service: clone_bytes(&accounts[ctx.token_program].key),
        token_account: clone_bytes(&accounts[ctx.user_token_account].key),
        mint: clone_bytes(&accounts[ctx.vending_machine_mint].key),
        user: clone_bytes(&accounts[ctx.user].key),
        amount: header.price,
    };
    let new_data = write_payload(
        &accounts[ctx.vending_machine_buffer].data,
        VENDING_MACHINE_BUFF_HEADER_SIZE,
        &data,
    );
    let mut buffer_account = accounts.remove(ctx.vending_machine_buffer);
    buffer_account.data = new_data;
    accounts.insert(0, buffer_account);
    proof {
        assert(forall|i: int|
            1 <= i < accounts@.len() ==> accounts@[i] == old(accounts)@[i]);
    }
    Ok(action)
}

/// Law: when the recorded balance is below the stored price, the priced echo
/// fails with `InsufficientFunds` — and, by the contract of `process`, it
/// requests no burn and leaves every account unchanged.
pub proof fn lemma_vending_insufficient(accounts: Seq<AccountView>, program_id: Seq<u8>)
    requires
        parse_err(accounts) is None,
        mint_parses(accounts[3].data@),
        token_account_parses(accounts[2].data@),
        token_owner(accounts[2].data@) == accounts[1].key@,
        token_mint(accounts[2].data@) == accounts[3].key@,
        accounts[0].data@.len() >= VENDING_MACHINE_BUFF_HEADER_SIZE,
        token_amount(accounts[2].data@) < spec_decode_vending(accounts[0].data@).price,
    ensures
        vending_echo_err(accounts, program_id) == Some(EchoError::InsufficientFunds),
{
}

} // verus!
