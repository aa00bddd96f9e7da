use vstd::prelude::*;

verus! {

/// The ways an instruction can be rejected.
#[derive(Clone, Copy, Debug, PartialEq, Eq, Structural)]
pub enum VaultError {
    /// The instruction bytes or the amount they carry are malformed.
    InvalidPayload,
    /// Fewer accounts were supplied than the instruction needs.
    NotEnoughAccounts,
    /// The owner did not sign, or the vault is not owned by this program.
    Unauthorized,
    /// The supplied vault is not the address derived for the owner.
    AddressMismatch,
    /// There is nothing above the reserve to withdraw, or a balance would
    /// leave the range of `u64`.
    InsufficientFunds,
    /// The host could not supply the rent parameters.
    RentUnavailable,
    /// The host could not derive a program address for the owner.
    NoDerivedAddress,
}

} // verus!
