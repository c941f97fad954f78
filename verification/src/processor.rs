//! The dispatcher and the per-operation handlers. Each handler builds a
//! typed context from the ordered account list, checks the operation's
//! preconditions, and either mutates the buffer in place or returns the one
//! outbound call that must be performed, all under a contract that pins the
//! error and the resulting state for every input.

use vstd::prelude::*;

use crate::account::{AccountView, wf_accounts, ADDRESS_LEN};
use crate::error::EchoError;

pub mod authorized_echo;
pub mod echo;
pub mod initialize_authorized_echo;
pub mod initialize_vending_machine_echo;
pub mod vending_machine_echo;

verus! {

/// A decoded instruction, one variant per operation. Decoding from the wire
/// happens upstream of this core; the instruction is immutable thereafter.
pub enum EchoInstruction {
    /// Write into an all-zero buffer, no authentication.
    Echo { data: Vec<u8> },
    /// Create an authority-gated buffer at a derived address.
    InitializeAuthorizedEcho { buffer_seed: u64, buffer_size: usize },
    /// Write into an authority-gated buffer.
    AuthorizedEcho { data: Vec<u8> },
    /// Create a priced buffer at a derived address.
    InitializeVendingMachineEcho { price: u64, buffer_size: usize },
    /// Write into a priced buffer, paying by burning tokens.
    VendingMachineEcho { data: Vec<u8> },
}

/// The one outbound call an initializer asks for: have the system service
/// create the buffer account at the derived address, funded by the payer,
/// sized as requested and owned by this program. Once the account exists,
/// the operation is completed by the module's `store_header`.
pub struct CreateAccountPlan {
    /// The signer who funds the new account.
    pub payer: Vec<u8>,
    /// The derived address the account is created at.
    pub new_account: Vec<u8>,
    /// How many bytes to allocate.
    pub size: usize,
    /// The full signer seed list proving this program's authority over the
    /// address: the operation's seeds with the bump appended as a final
    /// one-byte seed.
    pub seeds: Vec<Vec<u8>>,
    /// The bump byte the derivation search found.
    pub bump_seed: u8,
}

/// The one outbound call a priced echo performs before its write: burn
/// `amount` units of `mint` from `token_account`, authorized by `user`,
/// through the token service supplied with the operation.
pub struct BurnAction {
    /// The token service the burn goes through.
    pub token_service: Vec<u8>,
    /// The account the tokens are burned from.
    pub token_account: Vec<u8>,
    /// The mint whose units are burned.
    pub mint: Vec<u8>,
    /// The token holder authorizing the burn.
    pub user: Vec<u8>,
    /// Exactly the buffer's stored price.
    pub amount: u64,
}

/// What remains to be done outside after a handler returns successfully.
pub enum EchoAction {
    /// The buffer write was performed in place; nothing external remains.
    Done,
    /// Create the planned account, then store the buffer's header.
    Create(CreateAccountPlan),
    /// Perform the burn; the buffer write was performed in place and stands
    /// only if the burn goes through (the enclosing transaction is atomic).
    Burn(BurnAction),
}

/// The stateless dispatcher: maps a decoded instruction to its handler.
pub struct Processor {}

impl Processor {
    /// Run one operation: select the handler for the decoded instruction and
    /// relay its result. The contract of each arm is exactly the selected
    /// handler's contract.
    pub fn process_instruction(
        program_id: &Vec<u8>,
        accounts: &mut Vec<AccountView>,
        instruction: EchoInstruction,
    ) -> (r: Result<EchoAction, EchoError>)
        requires
            program_id@.len() == ADDRESS_LEN,
            wf_accounts(old(accounts)@),
        ensures
            match instruction {
                EchoInstruction::Echo { data } => match echo::echo_err(old(accounts)@) {
                    Some(e) => r == Err::<EchoAction, EchoError>(e) && final(accounts)@ == old(accounts)@,
                    None => r == Ok::<EchoAction, EchoError>(EchoAction::Done) && echo::echo_post(
                        old(accounts)@,
                        final(accounts)@,
                        data@,
                    ),
                },
                EchoInstruction::AuthorizedEcho { data } => match authorized_echo::authorized_echo_err(
                    old(accounts)@,
                    program_id@,
                ) {
                    Some(e) => r == Err::<EchoAction, EchoError>(e) && final(accounts)@ == old(accounts)@,
                    None => r == Ok::<EchoAction, EchoError>(EchoAction::Done)
                        && authorized_echo::authorized_echo_post(old(accounts)@, final(accounts)@, data@),
                },
                EchoInstruction::VendingMachineEcho { data } => match vending_machine_echo::vending_echo_err(
                    old(accounts)@,
                    program_id@,
                ) {
                    Some(e) => r == Err::<EchoAction, EchoError>(e) && final(accounts)@ == old(accounts)@,
                    None => (r matches Ok(EchoAction::Burn(a))
                        && vending_machine_echo::burn_action_matches(old(accounts)@, a)
                        && vending_machine_echo::vending_echo_post(
                        old(accounts)@,
                        final(accounts)@,
                        data@,
                    )),
                },
                EchoInstruction::InitializeAuthorizedEcho { buffer_seed, buffer_size } => final(accounts)@
                    == old(accounts)@ && (match initialize_authorized_echo::init_auth_err(
                    old(accounts)@,
                    program_id@,
                    buffer_seed,
                    buffer_size,
                ) {
                    Some(e) => r == Err::<EchoAction, EchoError>(e),
                    None => (r matches Ok(EchoAction::Create(p))
                        && initialize_authorized_echo::plan_matches(
                        old(accounts)@,
                        program_id@,
                        buffer_seed,
                        buffer_size,
                        p,
                    )),
                }),
                EchoInstruction::InitializeVendingMachineEcho { price, buffer_size } => final(accounts)@
                    == old(accounts)@ && (match initialize_vending_machine_echo::init_vending_err(
                    old(accounts)@,
                    program_id@,
                    price,
                    buffer_size,
                ) {
                    Some(e) => r == Err::<EchoAction, EchoError>(e),
                    None => (r matches Ok(EchoAction::Create(p))
                        && initialize_vending_machine_echo::plan_matches(
                        old(accounts)@,
                        program_id@,
                        price,
                        buffer_size,
                        p,
                    )),
                }),
            },
    {
        match instruction {
            EchoInstruction::Echo { data } => {
                match echo::process(program_id, accounts, data) {
                    Ok(()) => Ok(EchoAction::Done),
                    Err(e) => Err(e),
                }
            },
            EchoInstruction::AuthorizedEcho { data } => {
                match authorized_echo::process(program_id, accounts, data) {
                    Ok(()) => Ok(EchoAction::Done),
                    Err(e) => Err(e),
                }
            },
            EchoInstruction::VendingMachineEcho { data } => {
                match vending_machine_echo::process(program_id, accounts, data) {
                    Ok(a) => Ok(EchoAction::Burn(a)),
                    Err(e) => Err(e),
                }
            },
            EchoInstruction::InitializeAuthorizedEcho { buffer_seed, buffer_size } => {
                match initialize_authorized_echo::process(
                    program_id,
                    accounts,
                    buffer_seed,
                    buffer_size,
                ) {
                    Ok(p) => Ok(EchoAction::Create(p)),
                    Err(e) => Err(e),
                }
            },
            EchoInstruction::InitializeVendingMachineEcho { price, buffer_size } => {
                match initialize_vending_machine_echo::process(
                    program_id,
                    accounts,
                    price,
                    buffer_size,
                ) {
                    Ok(p) => Ok(EchoAction::Create(p)),
                    Err(e) => Err(e),
                }
            },
        }
    }
}

} // verus!
