use vstd::prelude::*;

use pinocchio::program_error::ProgramError;
use pinocchio::pubkey::Pubkey;
use pinocchio::sysvars::rent::Rent;
use pinocchio::sysvars::Sysvar;

verus! {

#[verifier::external_type_specification]
#[verifier::external_body]
pub struct ExProgramError(ProgramError);

#[verifier::external_type_specification]
#[verifier::external_body]
pub struct ExRent(Rent);

/// The address, and its bump, that the host derives from `seeds` under
/// `program_id`.
pub uninterp spec fn program_address_of(seeds: Seq<Seq<u8>>, program_id: Seq<u8>) -> (Seq<u8>, u8);

/// Relies on pinocchio::pubkey::try_find_program_address: when it finds an
/// address, that address and its bump depend on the seeds and the program
/// alone. It finds none off-chain.
#[verifier::external_body]
pub(crate) fn find_program_address(salt: &[u8], key: &[u8], program_id: &Pubkey) -> (r: Option<
    (Pubkey, u8),
>)
    ensures
        r matches Some((address, bump)) ==> program_address_of(seq![salt@, key@], program_id@) == (
            address@,
            bump,
        ),
{
    pinocchio::pubkey::try_find_program_address(&[salt, key], program_id)
}

/// Relies on pinocchio's `Sysvar::get` for `Rent`: reads the rent parameters
/// from the host, which may refuse (it always does off-chain).
#[verifier::external_body]
pub(crate) fn rent_sysvar() -> (r: Result<Rent, ProgramError>) {
    <Rent as Sysvar>::get()
}

/// Relies on pinocchio's `Rent::minimum_balance`: the balance that keeps an
/// account of `data_len` bytes exempt from rent. It is called only on the
/// parameters that `rent_sysvar` read from the host, so nothing is promised
/// of its result.
#[verifier::external_body]
pub(crate) fn minimum_balance(rent: &Rent, data_len: usize) -> (r: u64) {
    rent.minimum_balance(data_len)
}

} // verus!
