use vstd::prelude::*;

use pinocchio::pubkey::Pubkey;

use crate::account::{keys_equal, with_lamports, Account};
use crate::error::VaultError;
use crate::host::{find_program_address, minimum_balance, program_address_of, rent_sysvar};

verus! {

/// The address of this program.
pub const ID: Pubkey = [
    228, 34, 254, 152, 44, 118, 12, 8, 19, 238, 77, 54, 41, 163, 213, 143, 116, 68, 25, 61, 26,
    233, 205, 228, 194, 22, 251, 76, 180, 100, 108, 129,
];

/// The salt of every vault address: the bytes of `vault`.
pub const VAULT_SEED: [u8; 5] = [118, 97, 117, 108, 116];

/// Size of the type tag at the head of a vault's data.
pub const ACCOUNT_DISCRIMINATOR_SIZE: usize = 8;

/// Size of a vault's data: the tag and one `u64`.
pub const VAULT_SIZE: usize = ACCOUNT_DISCRIMINATOR_SIZE + 8;

/// The vault address of the owner whose key is `owner`, with its bump.
pub open spec fn vault_address(owner: Seq<u8>) -> (Seq<u8>, u8) {
    program_address_of(seq![VAULT_SEED@, owner], ID@)
}

/// What the host must do to bring a vault into existence.
#[derive(Clone, Copy, Debug, PartialEq, Eq, Structural)]
pub struct VaultCreation {
    /// The balance the vault is funded with, paid by the owner.
    pub lamports: u64,
    /// The size of the vault's data.
    pub space: u64,
}

/// The balance a vault was funded with by `created`, nothing where no vault
/// was created.
pub open spec fn paid(created: Option<VaultCreation>) -> u64 {
    match created {
        Some(c) => c.lamports,
        None => 0,
    }
}

/// `vault` as it stands once created with a balance of `reserve`.
pub open spec fn created_vault(vault: Account, reserve: u64) -> Account {
    Account { owner: ID, lamports: reserve, data_len: VAULT_SIZE, ..vault }
}

/// The outcome of making sure that `owner`'s vault exists, where creating it
/// costs `reserve`: what the host must create, and the two accounts after.
pub open spec fn lifecycle(owner: Account, vault: Account, reserve: u64) -> Result<
    (Option<VaultCreation>, Account, Account),
    VaultError,
> {
    if !owner.is_signer {
        Err(VaultError::Unauthorized)
    } else if vault.lamports == 0 {
        if owner.lamports < reserve {
            Err(VaultError::InsufficientFunds)
        } else {
            Ok(
                (
                    Some(VaultCreation { lamports: reserve, space: VAULT_SIZE as u64 }),
                    with_lamports(owner, owner.lamports - reserve),
                    created_vault(vault, reserve),
                ),
            )
        }
    } else if vault.owner != ID {
        Err(VaultError::Unauthorized)
    } else {
        Ok((None, owner, vault))
    }
}

/// The outcome of moving `amount` from `from` to `to`.
pub open spec fn transferred(from: Account, to: Account, amount: u64) -> Result<
    (Account, Account),
    VaultError,
> {
    if from.lamports < amount || to.lamports + amount > u64::MAX {
        Err(VaultError::InsufficientFunds)
    } else {
        Ok((with_lamports(from, from.lamports - amount), with_lamports(to, to.lamports + amount)))
    }
}

/// Derives the vault address of `owner` and its bump; `None` where the host
/// derives no address.
pub fn derive_vault(owner: &Account) -> (r: Option<(Pubkey, u8)>)
    ensures
        r matches Some((address, bump)) ==> vault_address(owner.key@) == (address@, bump),
{
    find_program_address(VAULT_SEED.as_slice(), owner.key.as_slice(), &ID)
}

/// The host's rent-exempt balance for `data_len` bytes of data.
pub fn host_reserve(data_len: usize) -> (r: Result<u64, VaultError>)
    ensures
        r matches Err(e) ==> e == VaultError::RentUnavailable,
{
    match rent_sysvar() {
        Ok(rent) => Ok(minimum_balance(&rent, data_len)),
        Err(_) => Err(VaultError::RentUnavailable),
    }
}

/// Makes sure that `owner`'s vault exists, creating it with a balance of
/// `reserve` paid by the owner when the vault has no balance; an existing
/// vault must be owned by this program.
pub fn prepare_vault(owner: &mut Account, vault: &mut Account, reserve: u64) -> (r: Result<
    Option<VaultCreation>,
    VaultError,
>)
    ensures
        match lifecycle(*old(owner), *old(vault), reserve) {
            Ok((c, o, v)) => r == Ok::<Option<VaultCreation>, VaultError>(c) && *final(owner) == o
                && *final(vault) == v,
            Err(e) => r == Err::<Option<VaultCreation>, VaultError>(e) && *final(owner) == *old(
                owner,
            ) && *final(vault) == *old(vault),
        },
{
    if !owner.is_signer {
        return Err(VaultError::Unauthorized);
    }
    if vault.lamports == 0 {
        if owner.lamports < reserve {
            return Err(VaultError::InsufficientFunds);
        }
        owner.lamports = owner.lamports - reserve;
        vault.owner = ID;
        vault.lamports = reserve;
        vault.data_len = VAULT_SIZE;
        Ok(Some(VaultCreation { lamports: reserve, space: VAULT_SIZE as u64 }))
    } else if !keys_equal(&vault.owner, &ID) {
        Err(VaultError::Unauthorized)
    } else {
        Ok(None)
    }
}

/// Makes sure that `owner`'s vault exists, reading the reserve from the host
/// only when the vault is to be created.
pub fn ensure_vault_exists(owner: &mut Account, vault: &mut Account) -> (r: Result<
    Option<VaultCreation>,
    VaultError,
>)
    ensures
        r is Err ==> *final(owner) == *old(owner) && *final(vault) == *old(vault),
        !old(owner).is_signer ==> r == Err::<Option<VaultCreation>, VaultError>(
            VaultError::Unauthorized,
        ),
        r == Err::<Option<VaultCreation>, VaultError>(VaultError::Unauthorized) ==> !old(
            owner,
        ).is_signer || (old(vault).lamports != 0 && old(vault).owner != ID),
        old(owner).is_signer && old(vault).lamports == 0 && r is Err ==> r == Err::<
            Option<VaultCreation>,
            VaultError,
        >(VaultError::RentUnavailable) || r == Err::<Option<VaultCreation>, VaultError>(
            VaultError::InsufficientFunds,
        ),
        r matches Ok(c) ==> lifecycle(*old(owner), *old(vault), paid(c)) == Ok::<
            (Option<VaultCreation>, Account, Account),
            VaultError,
        >((c, *final(owner), *final(vault))),
        old(vault).lamports != 0 ==> match lifecycle(*old(owner), *old(vault), 0) {
            Ok((c, o, v)) => r == Ok::<Option<VaultCreation>, VaultError>(c) && *final(owner) == o
                && *final(vault) == v,
            Err(e) => r == Err::<Option<VaultCreation>, VaultError>(e),
        },
{
    let mut reserve: u64 = 0;
    if owner.is_signer && vault.lamports == 0 {
        reserve = host_reserve(VAULT_SIZE)?;
    }
    prepare_vault(owner, vault, reserve)
}

/// Moves `amount` from `from` to `to`.
pub fn transfer(from: &mut Account, to: &mut Account, amount: u64) -> (r: Result<(), VaultError>)
    ensures
        match transferred(*old(from), *old(to), amount) {
            Ok((f, t)) => r is Ok && *final(from) == f && *final(to) == t,
            Err(e) => r == Err::<(), VaultError>(e) && *final(from) == *old(from) && *final(to)
                == *old(to),
        },
{
    if from.lamports < amount || to.lamports > u64::MAX - amount {
        return Err(VaultError::InsufficientFunds);
    }
    from.lamports = from.lamports - amount;
    to.lamports = to.lamports + amount;
    Ok(())
}

} // verus!
