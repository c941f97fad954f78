//! The unauthenticated echo: anyone may write once into a buffer that is
//! still entirely zero. The write copies the input over the front of the
//! buffer and leaves bytes past the input untouched (they are zero by the
//! precondition).

use vstd::prelude::*;

use crate::account::{only_buffer_data_changed, AccountView};
use crate::buffer::{all_zero, prefix_write, write_prefix};
use crate::error::EchoError;

verus! {

/// The first failing account-list check, if any: one account, writable.
pub open spec fn parse_err(accounts: Seq<AccountView>) -> Option<EchoError> {
    if accounts.len() < 1 {
        Some(EchoError::NotEnoughAccountKeys)
    } else if !accounts[0].is_writable {
        Some(EchoError::AccountMustBeWritable)
    } else {
        None
    }
}

/// The first failing unauthenticated-echo check, if any: the account-list
/// checks, then a non-empty buffer, then no non-zero byte anywhere in it.
pub open spec fn echo_err(accounts: Seq<AccountView>) -> Option<EchoError> {
    if parse_err(accounts) is Some {
        parse_err(accounts)
    } else if accounts[0].data@.len() == 0 {
        Some(EchoError::AccountNotInitialized)
    } else if exists|i: int| 0 <= i < accounts[0].data@.len() && accounts[0].data@[i] != 0 {
        Some(EchoError::AccountHasNonZeroData)
    } else {
        None
    }
}

/// How a successful unauthenticated echo changes the account list: only the
/// buffer's contents change, to the input copied over their front.
pub open spec fn echo_post(pre: Seq<AccountView>, post: Seq<AccountView>, data: Seq<u8>) -> bool {
    only_buffer_data_changed(pre, post, prefix_write(pre[0].data@, data))
}

/// The operation's accounts, consumed in order.
pub struct Context {
    /// Position of the echo buffer in the account list.
    pub echo_buffer: usize,
}

impl Context {
    /// Pull the echo buffer from the account list and check that it is
    /// writable.
    pub fn parse(accounts: &Vec<AccountView>) -> (r: Result<Context, EchoError>)
        ensures
            match r {
                Ok(ctx) => parse_err(accounts@) is None && ctx.echo_buffer == 0,
                Err(e) => parse_err(accounts@) == Some(e),
            },
    {
        if accounts.len() < 1 {
            return Err(EchoError::NotEnoughAccountKeys);
        }
        if !accounts[0].is_writable {
            return Err(EchoError::AccountMustBeWritable);
        }
        Ok(Context { echo_buffer: 0 })
    }
}

/// Write the input over the front of an all-zero buffer. Fails, mutating
/// nothing, if the buffer is missing, not writable, empty, or holds any
/// non-zero byte.
pub fn process(_program_id: &Vec<u8>, accounts: &mut Vec<AccountView>, data: Vec<u8>) -> (r: Result<
    (),
    EchoError,
>)
    ensures
        match echo_err(old(accounts)@) {
            Some(e) => r == Err::<(), EchoError>(e) && final(accounts)@ == old(accounts)@,
            None => r is Ok && echo_post(old(accounts)@, final(accounts)@, data@),
        },
{
    let ctx = match Context::parse(accounts) {
        Ok(c) => c,
        Err(e) => {
            return Err(e);
        },
    };
    if accounts[ctx.echo_buffer].data.len() == 0 {
        return Err(EchoError::AccountNotInitialized);
    }
    if !all_zero(&accounts[ctx.echo_buffer].data) {
        return Err(EchoError::AccountHasNonZeroData);
    }
    let new_data = write_prefix(&accounts[ctx.echo_buffer].data, &data);
    let mut buffer_account = accounts.remove(ctx.echo_buffer);
    buffer_account.data = new_data;
    accounts.insert(0, buffer_account);
    proof {
        assert(forall|i: int|
            1 <= i < accounts@.len() ==> accounts@[i] == old(accounts)@[i]);
    }
    Ok(())
}

/// Law: an empty buffer is rejected as uninitialized and a buffer holding
/// any non-zero byte is rejected as already written; by the contract of
/// `process`, neither rejection mutates any account.
pub proof fn lemma_echo_rejects(accounts: Seq<AccountView>)
    requires
        accounts.len() >= 1,
        accounts[0].is_writable,
    ensures
        accounts[0].data@.len() == 0 ==> echo_err(accounts) == Some(
            EchoError::AccountNotInitialized,
        ),
        (exists|i: int| 0 <= i < accounts[0].data@.len() && accounts[0].data@[i] != 0)
            ==> echo_err(accounts) == Some(EchoError::AccountHasNonZeroData),
{
}

/// Law: on an all-zero buffer of length L and input of length D, the echo
/// writes exactly min(L, D) bytes of the input and leaves the rest as it
/// was — still zero.
pub proof fn lemma_echo_writes(buf: Seq<u8>, data: Seq<u8>)
    requires
        forall|i: int| 0 <= i < buf.len() ==> buf[i] == 0,
    ensures
        prefix_write(buf, data).len() == buf.len(),
        forall|i: int|
            0 <= i < crate::min_len(buf.len(), data.len()) ==> prefix_write(buf, data)[i]
                == data[i],
        forall|i: int|
            crate::min_len(buf.len(), data.len()) <= i < buf.len() ==> prefix_write(buf, data)[i]
                == buf[i] && prefix_write(buf, data)[i] == 0,
{
}

} // verus!
