//! The authority-gated echo: only a signing authority may write, and only
//! into the buffer whose address re-derives from that authority and the
//! buffer's own stored seed and bump. The header is trusted only after the
//! account's address has been independently re-derived and compared: a forged
//! header in a foreign account cannot make that account's address match.

use vstd::prelude::*;

use crate::account::{only_buffer_data_changed, AccountView, ADDRESS_LEN};
use crate::buffer::{payload_write, write_payload};
use crate::codec::{decode_authorized_header, spec_decode_authorized, AUTH_BUFF_HEADER_SIZE};
use crate::error::EchoError;
use crate::pda::{address_verifies, verify_program_address};
use crate::seeds::{auth_seeds, build_auth_seeds};

verus! {

/// The first failing account-list check, if any: buffer then authority; the
/// buffer must be writable and the authority must have signed.
pub open spec fn parse_err(accounts: Seq<AccountView>) -> Option<EchoError> {
    if accounts.len() < 2 {
        Some(EchoError::NotEnoughAccountKeys)
    } else if !accounts[0].is_writable {
        Some(EchoError::AccountMustBeWritable)
    } else if !accounts[1].is_signer {
        Some(EchoError::MissingRequiredSignature)
    } else {
        None
    }
}

/// The first failing authority-gated echo check, if any: the account-list
/// checks, then a buffer long enough to hold its header, then the address
/// check — the buffer's address must re-derive from the authority, the
/// stored seed and the stored bump (a derivation that fails outright is
/// likewise an address mismatch).
pub open spec fn authorized_echo_err(accounts: Seq<AccountView>, program_id: Seq<u8>) -> Option<
    EchoError,
> {
    if parse_err(accounts) is Some {
        parse_err(accounts)
    } else if accounts[0].data@.len() < AUTH_BUFF_HEADER_SIZE {
        Some(EchoError::AccountNotInitialized)
    } else if !address_verifies(
        auth_seeds(accounts[1].key@, spec_decode_authorized(accounts[0].data@).buffer_seed),
        spec_decode_authorized(accounts[0].data@).bump_seed,
        program_id,
        accounts[0].key@,
    ) {
        Some(EchoError::InvalidAccountAddress)
    } else {
        None
    }
}

/// How a successful authority-gated echo changes the account list: only the
/// buffer's contents change; the header region stays and the whole payload
/// region becomes the input, zero-padded or truncated to fit.
pub open spec fn authorized_echo_post(
    pre: Seq<AccountView>,
    post: Seq<AccountView>,
    data: Seq<u8>,
) -> bool {
    only_buffer_data_changed(
        pre,
        post,
        payload_write(pre[0].data@, AUTH_BUFF_HEADER_SIZE as int, data),
    )
}

/// The operation's accounts, consumed in order.
pub struct Context {
    /// Position of the gated buffer in the account list.
    pub authorized_buffer: usize,
    /// Position of the authority in the account list.
    pub authority: usize,
}

impl Context {
    /// Pull the gated buffer and the authority from the account list and
    /// check writability and the authority's signature.
    pub fn parse(accounts: &Vec<AccountView>) -> (r: Result<Context, EchoError>)
        ensures
            match r {
                Ok(ctx) => parse_err(accounts@) is None && ctx.authorized_buffer == 0
                    && ctx.authority == 1,
                Err(e) => parse_err(accounts@) == Some(e),
            },
    {
        if accounts.len() < 2 {
            return Err(EchoError::NotEnoughAccountKeys);
        }
        if !accounts[0].is_writable {
            return Err(EchoError::AccountMustBeWritable);
        }
        if !accounts[1].is_signer {
            return Err(EchoError::MissingRequiredSignature);
        }
        Ok(Context { authorized_buffer: 0, authority: 1 })
    }
}

/// Overwrite the payload region of an authority-gated buffer with the input,
/// zero-padded or truncated to fit. Fails, mutating nothing, unless the
/// buffer holds a header and its address re-derives from the signing
/// authority and the header's own seed and bump.
pub fn process(program_id: &Vec<u8>, accounts: &mut Vec<AccountView>, data: Vec<u8>) -> (r: Result<
    (),
    EchoError,
>)
    requires
        program_id@.len() == ADDRESS_LEN,
    ensures
        match authorized_echo_err(old(accounts)@, program_id@) {
            Some(e) => r == Err::<(), EchoError>(e) && final(accounts)@ == old(accounts)@,
            None => r is Ok && authorized_echo_post(old(accounts)@, final(accounts)@, data@),
        },
{
    let ctx = match Context::parse(accounts) {
        Ok(c) => c,
        Err(e) => {
            return Err(e);
        },
    };
    if accounts[ctx.authorized_buffer].data.len() < AUTH_BUFF_HEADER_SIZE {
        return Err(EchoError::AccountNotInitialized);
    }
    let header = match decode_authorized_header(&accounts[ctx.authorized_buffer].data) {
        Ok(h) => h,
        Err(e) => {
            return Err(e);
        },
    };
    let seeds = build_auth_seeds(&accounts[ctx.authority].key, header.buffer_seed);
    if !verify_program_address(
        &seeds,
        header.bump_seed,
        program_id,
        &accounts[ctx.authorized_buffer].key,
    ) {
        return Err(EchoError::InvalidAccountAddress);
    }
    let new_data = write_payload(
        &accounts[ctx.authorized_buffer].data,
        AUTH_BUFF_HEADER_SIZE,
        &data,
    );
    let mut buffer_account = accounts.remove(ctx.authorized_buffer);
    buffer_account.data = new_data;
    accounts.insert(0, buffer_account);
    proof {
        assert(forall|i: int|
            1 <= i < accounts@.len() ==> accounts@[i] == old(accounts)@[i]);
    }
    Ok(())
}

} // verus!
