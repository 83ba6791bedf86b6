use vstd::prelude::*;

verus! {

/// Why an instruction was rejected. Every variant is terminal: the caller
/// must build a new, corrected request.
#[derive(Clone, Copy, Debug, PartialEq, Eq, Structural)]
pub enum VaultError {
    /// The account list does not have the expected shape.
    MissingAccounts,
    /// The owner did not sign the request.
    Unauthorized,
    /// The vault is not held by the custody authority.
    InvalidVaultOwner,
    /// A deposit was sent to a vault that already holds value.
    VaultNotEmpty,
    /// A withdrawal was asked of a vault that holds nothing.
    VaultEmpty,
    /// The vault is not the address derived for the signing owner.
    VaultAddressMismatch,
    /// The instruction payload is not exactly eight bytes.
    MalformedInstructionData,
    /// The decoded amount is zero.
    ZeroAmount,
}

} // verus!
