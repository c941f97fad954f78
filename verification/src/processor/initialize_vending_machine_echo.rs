//! Initialization of a priced buffer: validate the account list and the
//! mint, search for the buffer's canonical derived address, check that the
//! account supplied really sits at that address, and plan its creation by
//! the system service. Once the account exists, `store_header` records the
//! bump and the price in its first bytes, leaving the fresh zero payload
//! untouched.

use vstd::prelude::*;

use crate::account::{
    clone_bytes,
    bytes_eq,
    only_buffer_data_changed,
    wf_accounts,
    AccountView,
    ADDRESS_LEN,
};
use crate::buffer::{check_system_service, is_system_service_key, prefix_store, store_prefix};
use crate::codec::{
    encode_vending_header,
    spec_encode_vending,
    VendingMachineBufferHeader,
    VENDING_MACHINE_BUFF_HEADER_SIZE,
};
use crate::error::EchoError;
use crate::pda::{find_program_address, seeds_view, spec_find_program_address};
use crate::processor::CreateAccountPlan;
use crate::seeds::{build_vending_seeds, vending_seeds};
use crate::token::{mint_account_parses, mint_parses};

verus! {

/// The first failing account-list check, if any: buffer, mint, payer,
/// system service, in that order; the buffer must be writable, the payer
/// must have signed, and the system-service account must really be the
/// system service.
pub open spec fn parse_err(accounts: Seq<AccountView>) -> Option<EchoError> {
    if accounts.len() < 4 {
        Some(EchoError::NotEnoughAccountKeys)
    } else if !accounts[0].is_writable {
        Some(EchoError::AccountMustBeWritable)
    } else if !accounts[2].is_signer {
        Some(EchoError::MissingRequiredSignature)
    } else if !is_system_service_key(accounts[3].key@) {
        Some(EchoError::InvalidProgramAddress)
    } else {
        None
    }
}

/// The first failing initialization check, if any: the account-list checks,
/// then a requested size with room past the header, then a mint record that
/// parses, then the derivation search must succeed and the buffer account
/// must sit at the address it finds.
pub open spec fn init_vending_err(
    accounts: Seq<AccountView>,
    program_id: Seq<u8>,
    price: u64,
    buffer_size: usize,
) -> Option<EchoError> {
    if parse_err(accounts) is Some {
        parse_err(accounts)
    } else if buffer_size <= VENDING_MACHINE_BUFF_HEADER_SIZE {
        Some(EchoError::InvalidInstructionInput)
    } else if !mint_parses(accounts[1].data@) {
        Some(EchoError::InvalidAccountData)
    } else {
        match spec_find_program_address(vending_seeds(accounts[1].key@, price), program_id) {
            None => Some(EchoError::InvalidAccountAddress),
            Some(p) => if p.0 != accounts[0].key@ {
                Some(EchoError::InvalidAccountAddress)
            } else {
                None
            },
        }
    }
}

/// The returned plan creates exactly the supplied buffer account, at the
/// found canonical address, of the requested size, funded by the payer, with
/// the operation's full signer seed list.
pub open spec fn plan_matches(
    accounts: Seq<AccountView>,
    program_id: Seq<u8>,
    price: u64,
    buffer_size: usize,
    p: CreateAccountPlan,
) -> bool {
    &&& p.payer@ == accounts[2].key@
    &&& p.new_account@ == accounts[0].key@
    &&& p.size == buffer_size
    &&& spec_find_program_address(vending_seeds(accounts[1].key@, price), program_id) == Some(
        (p.new_account@, p.bump_seed),
    )
    &&& seeds_view(p.seeds@) == vending_seeds(accounts[1].key@, price).push(seq![p.bump_seed])
}

/// The operation's accounts, consumed in order.
pub struct Context {
    /// Position of the buffer to create in the account list.
    pub vending_machine_buffer: usize,
    /// Position of the mint in the account list.
    pub vending_machine_mint: usize,
    /// Position of the funding payer in the account list.
    pub payer: usize,
    /// Position of the system service in the account list.
    pub system_program: usize,
}

impl Context {
    /// Pull the four accounts from the list, in order, and check
    /// writability, the payer's signature and the system service's identity.
    pub fn parse(accounts: &Vec<AccountView>) -> (r: Result<Context, EchoError>)
        requires
            wf_accounts(accounts@),
        ensures
            match r {
                Ok(ctx) => parse_err(accounts@) is None && ctx.vending_machine_buffer == 0
                    && ctx.vending_machine_mint == 1 && ctx.payer == 2 && ctx.system_program == 3,
                Err(e) => parse_err(accounts@) == Some(e),
            },
    {
        if accounts.len() < 4 {
            return Err(EchoError::NotEnoughAccountKeys);
        }
        if !accounts[0].is_writable {
            return Err(EchoError::AccountMustBeWritable);
        }
        if !accounts[2].is_signer {
            return Err(EchoError::MissingRequiredSignature);
        }
        if !check_system_service(&accounts[3].key) {
            return Err(EchoError::InvalidProgramAddress);
        }
        Ok(
            Context {
                vending_machine_buffer: 0,
                vending_machine_mint: 1,
                payer: 2,
                system_program: 3,
            },
        )
    }
}

/// Validate a priced initialization and plan the creation of its buffer
/// account. No account is mutated: creation happens outside, after which
/// `store_header` completes the operation.
pub fn process(
    program_id: &Vec<u8>,
    accounts: &Vec<AccountView>,
    price: u64,
    buffer_size: usize,
) -> (r: Result<CreateAccountPlan, EchoError>)
    requires
        program_id@.len() == ADDRESS_LEN,
        wf_accounts(accounts@),
    ensures
        match init_vending_err(accounts@, program_id@, price, buffer_size) {
            Some(e) => r == Err::<CreateAccountPlan, EchoError>(e),
            None => r matches Ok(p) && plan_matches(accounts@, program_id@, price, buffer_size, p),
        },
{
    let ctx = match Context::parse(accounts) {
        Ok(c) => c,
        Err(e) => {
            return Err(e);
        },
    };
    if buffer_size <= VENDING_MACHINE_BUFF_HEADER_SIZE {
        return Err(EchoError::InvalidInstructionInput);
    }
    if !mint_account_parses(&accounts[ctx.vending_machine_mint].data) {
        return Err(EchoError::InvalidAccountData);
    }
    let mut seeds = build_vending_seeds(&accounts[ctx.vending_machine_mint].key, price);
    let (address, bump_seed) = match find_program_address(&seeds, program_id) {
        Some(p) => p,
        None => {
            return Err(EchoError::InvalidAccountAddress);
        },
    };
    if !bytes_eq(&address, &accounts[ctx.vending_machine_buffer].key) {
        return Err(EchoError::InvalidAccountAddress);
    }
    let mut bump_vec: Vec<u8> = Vec::new();
    bump_vec.push(bump_seed);
    seeds.push(bump_vec);
    proof {
        assert(seeds_view(seeds@) =~= vending_seeds(accounts@[1].key@, price).push(
            seq![bump_seed],
        ));
    }
    Ok(
        CreateAccountPlan {
            payer: clone_bytes(&accounts[ctx.payer].key),
            new_account: address,
            size: buffer_size,
            seeds,
            bump_seed,
        },
    )
}

/// The first failing commit check, if any: the buffer account must be
/// present and now hold at least the header (creation allocated a strictly
/// larger size).
pub open spec fn store_header_err(accounts: Seq<AccountView>) -> Option<EchoError> {
    if accounts.len() < 1 {
        Some(EchoError::NotEnoughAccountKeys)
    } else if accounts[0].data@.len() < VENDING_MACHINE_BUFF_HEADER_SIZE {
        Some(EchoError::AccountNotInitialized)
    } else {
        None
    }
}

/// Record the header of the freshly created buffer: the found bump and the
/// price land in the first nine bytes; the payload region — zero on a fresh
/// account — is untouched.
pub fn store_header(accounts: &mut Vec<AccountView>, price: u64, bump_seed: u8) -> (r: Result<
    (),
    EchoError,
>)
    ensures
        match store_header_err(old(accounts)@) {
            Some(e) => r == Err::<(), EchoError>(e) && final(accounts)@ == old(accounts)@,
            None => r is Ok && only_buffer_data_changed(
                old(accounts)@,
                final(accounts)@,
                prefix_store(
                    old(accounts)@[0].data@,
                    spec_encode_vending(VendingMachineBufferHeader { bump_seed, price }),
                ),
            ),
        },
{
    if accounts.len() < 1 {
        return Err(EchoError::NotEnoughAccountKeys);
    }
    if accounts[0].data.len() < VENDING_MACHINE_BUFF_HEADER_SIZE {
        return Err(EchoError::AccountNotInitialized);
    }
    let header_bytes = encode_vending_header(&VendingMachineBufferHeader { bump_seed, price });
    let new_data = store_prefix(&accounts[0].data, &header_bytes);
    let mut buffer_account = accounts.remove(0);
    buffer_account.data = new_data;
    accounts.insert(0, buffer_account);
    proof {
        assert(forall|i: int|
            1 <= i < accounts@.len() ==> accounts@[i] == old(accounts)@[i]);
    }
    Ok(())
}

/// Law (write/read round trip): the header `store_header` records reads back
/// exactly — decoding the stored buffer yields the same bump and price, so
/// every later priced echo prices and re-derives from what initialization
/// wrote.
pub proof fn lemma_stored_header_reads_back(buf: Seq<u8>, price: u64, bump_seed: u8)
    requires
        buf.len() >= VENDING_MACHINE_BUFF_HEADER_SIZE,
    ensures
        crate::codec::spec_decode_vending(
            prefix_store(
                buf,
                spec_encode_vending(VendingMachineBufferHeader { bump_seed, price }),
            ),
        ) == (VendingMachineBufferHeader { bump_seed, price }),
{
    let h = VendingMachineBufferHeader { bump_seed, price };
    let enc = spec_encode_vending(h);
    let stored = prefix_store(buf, enc);
    assert(stored.subrange(1, 9) =~= enc.subrange(1, 9));
    assert(enc.subrange(1, 9) =~= crate::codec::u64_le_bytes(price));
    crate::codec::lemma_u64_le_round_trip(price);
    assert(stored[0] == enc[0]);
}

} // verus!
