//! The flat error taxonomy: every failed validation aborts the operation
//! with exactly one of these codes, before any mutation takes place.

use vstd::prelude::*;

verus! {

/// Every way an echo operation can fail. Each validation step yields exactly
/// one of these, and a failure always leaves every account unchanged.
#[derive(Clone, Copy, Debug, PartialEq, Eq, Structural)]
pub enum EchoError {
    /// The account list ended before all required accounts were consumed.
    NotEnoughAccountKeys,
    /// A buffer (or token) account that must be writable is not.
    AccountMustBeWritable,
    /// A required signer did not sign the operation.
    MissingRequiredSignature,
    /// The buffer is empty or shorter than its mandatory header.
    AccountNotInitialized,
    /// An unauthenticated echo target already holds non-zero data.
    AccountHasNonZeroData,
    /// The buffer's address does not match the re-derived address.
    InvalidAccountAddress,
    /// The account supplied as the system service is not the system service,
    /// or no program-derived address exists for the requested seeds.
    InvalidProgramAddress,
    /// A foreign account failed to decode, or its recorded owner or mint
    /// does not match the expected one.
    InvalidAccountData,
    /// The token balance is below the price of a priced echo.
    InsufficientFunds,
    /// An instruction argument is out of range (buffer too small to hold
    /// its header).
    InvalidInstructionInput,
}

} // verus!
