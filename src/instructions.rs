use vstd::prelude::*;

use pinocchio::pubkey::Pubkey;

use crate::account::{keys_equal, with_lamports, Account};
use crate::amount::{le_value, parse_amount, AMOUNT_LEN};
use crate::error::VaultError;
use crate::vault::{
    derive_vault, ensure_vault_exists, host_reserve, lifecycle, prepare_vault, transfer,
    transferred, vault_address, paid, VaultCreation, ID,
};

verus! {

/// The instructions of the program, with what each carries.
#[derive(Clone, Copy, Debug, PartialEq, Eq, Structural)]
pub enum ProgramIx {
    /// Moves `amount` lamports from the owner into its vault. Accounts: the
    /// owner (signer, writable), the vault (writable), this program, the
    /// system program.
    Deposit { amount: u64 },
    /// Moves everything above the reserve from the vault back to the owner.
    /// Accounts: the owner (signer, writable), the vault (writable), this
    /// program.
    Withdraw {},
}

/// The outcome of a deposit of `amount`, where creating the vault costs
/// `reserve`: what the host must create, and the two accounts after.
pub open spec fn deposited(owner: Account, vault: Account, amount: u64, reserve: u64) -> Result<
    (Option<VaultCreation>, Account, Account),
    VaultError,
> {
    match lifecycle(owner, vault, reserve) {
        Err(e) => Err(e),
        Ok((c, o, v)) => match transferred(o, v, amount) {
            Err(e) => Err(e),
            Ok((o2, v2)) => Ok((c, o2, v2)),
        },
    }
}

/// The outcome of a withdrawal, where `expected` is the vault address
/// derived for the owner and `reserve` the balance the vault must keep: the
/// amount moved, and the two accounts after.
pub open spec fn withdrawn(owner: Account, vault: Account, expected: Pubkey, reserve: u64) -> Result<
    (u64, Account, Account),
    VaultError,
> {
    if !owner.is_signer || vault.owner != ID {
        Err(VaultError::Unauthorized)
    } else if vault.key != expected {
        Err(VaultError::AddressMismatch)
    } else if vault.lamports <= reserve {
        Err(VaultError::InsufficientFunds)
    } else if owner.lamports + (vault.lamports - reserve) > u64::MAX {
        Err(VaultError::InsufficientFunds)
    } else {
        Ok(
            (
                (vault.lamports - reserve) as u64,
                with_lamports(owner, owner.lamports + (vault.lamports - reserve)),
                with_lamports(vault, reserve as int),
            ),
        )
    }
}

/// A deposit bound to its accounts.
#[derive(Clone, Copy, Debug)]
pub struct Deposit {
    pub owner: Account,
    pub vault: Account,
    pub amount: u64,
}

impl Deposit {
    /// The first byte of a deposit instruction.
    pub const DISCRIMINATOR: u8 = 0;

    /// Binds the payload `value.0` of a deposit to the first two accounts of
    /// `value.1`, the owner and the vault.
    pub fn try_from(value: (&[u8], &[Account])) -> (r: Result<Deposit, VaultError>)
        ensures
            value.1@.len() < 2 ==> r == Err::<Deposit, VaultError>(VaultError::NotEnoughAccounts),
            value.1@.len() >= 2 ==> match decoded_amount(value.0@) {
                Some(amount) => r == Ok::<Deposit, VaultError>(
                    Deposit { owner: value.1@[0], vault: value.1@[1], amount },
                ),
                None => r == Err::<Deposit, VaultError>(VaultError::InvalidPayload),
            },
    {
        let (data, accounts) = value;
        if accounts.len() < 2 {
            return Err(VaultError::NotEnoughAccounts);
        }
        let owner = accounts[0];
        let vault = accounts[1];
        let amount = parse_amount(data)?;
        Ok(Deposit { owner, vault, amount })
    }

    /// Carries out the deposit where creating the vault costs `reserve`.
    pub fn settle(&mut self, reserve: u64) -> (r: Result<Option<VaultCreation>, VaultError>)
        ensures
            final(self).amount == old(self).amount,
            match deposited(old(self).owner, old(self).vault, old(self).amount, reserve) {
                Ok((c, o, v)) => r == Ok::<Option<VaultCreation>, VaultError>(c)
                    && final(self).owner == o && final(self).vault == v,
                Err(e) => r == Err::<Option<VaultCreation>, VaultError>(e) && *final(self)
                    == *old(self),
            },
    {
        let mut owner = self.owner;
        let mut vault = self.vault;
        let created = prepare_vault(&mut owner, &mut vault, reserve)?;
        transfer(&mut owner, &mut vault, self.amount)?;
        self.owner = owner;
        self.vault = vault;
        Ok(created)
    }

    /// Carries out the deposit: makes sure the vault exists, then moves the
    /// amount into it.
    pub fn process(&mut self) -> (r: Result<Option<VaultCreation>, VaultError>)
        ensures
            final(self).amount == old(self).amount,
            r is Err ==> *final(self) == *old(self),
            !old(self).owner.is_signer ==> r == Err::<Option<VaultCreation>, VaultError>(
                VaultError::Unauthorized,
            ),
            r == Err::<Option<VaultCreation>, VaultError>(VaultError::Unauthorized) ==> !old(
                self,
            ).owner.is_signer || (old(self).vault.lamports != 0 && old(self).vault.owner != ID),
            old(self).owner.is_signer && old(self).vault.lamports == 0 && r is Err ==> r == Err::<
                Option<VaultCreation>,
                VaultError,
            >(VaultError::RentUnavailable) || r == Err::<Option<VaultCreation>, VaultError>(
                VaultError::InsufficientFunds,
            ),
            old(self).vault.lamports != 0 ==> match deposited(
                old(self).owner,
                old(self).vault,
                old(self).amount,
                0,
            ) {
                Ok((c, o, v)) => r == Ok::<Option<VaultCreation>, VaultError>(c)
                    && final(self).owner == o && final(self).vault == v,
                Err(e) => r == Err::<Option<VaultCreation>, VaultError>(e),
            },
            r matches Ok(c) ==> deposited(old(self).owner, old(self).vault, old(self).amount, paid(c))
                == Ok::<(Option<VaultCreation>, Account, Account), VaultError>(
                (c, final(self).owner, final(self).vault),
            ),
    {
        let mut owner = self.owner;
        let mut vault = self.vault;
        let created = ensure_vault_exists(&mut owner, &mut vault)?;
        transfer(&mut owner, &mut vault, self.amount)?;
        self.owner = owner;
        self.vault = vault;
        Ok(created)
    }
}

/// A withdrawal bound to its accounts.
#[derive(Clone, Copy, Debug)]
pub struct Withdraw {
    pub owner: Account,
    pub vault: Account,
}

impl Withdraw {
    /// The first byte of a withdraw instruction.
    pub const DISCRIMINATOR: u8 = 1;

    /// Binds a withdrawal to the first two accounts, the owner and the vault.
    pub fn try_from(accounts: &[Account]) -> (r: Result<Withdraw, VaultError>)
        ensures
            accounts@.len() < 2 ==> r == Err::<Withdraw, VaultError>(
                VaultError::NotEnoughAccounts,
            ),
            accounts@.len() >= 2 ==> r == Ok::<Withdraw, VaultError>(
                Withdraw { owner: accounts@[0], vault: accounts@[1] },
            ),
    {
        if accounts.len() < 2 {
            return Err(VaultError::NotEnoughAccounts);
        }
        Ok(Withdraw { owner: accounts[0], vault: accounts[1] })
    }

    /// Carries out the withdrawal where `expected` is the vault address
    /// derived for the owner and `reserve` the balance the vault must keep;
    /// returns the amount moved.
    pub fn settle(&mut self, expected: &Pubkey, reserve: u64) -> (r: Result<u64, VaultError>)
        ensures
            match withdrawn(old(self).owner, old(self).vault, *expected, reserve) {
                Ok((m, o, v)) => r == Ok::<u64, VaultError>(m) && final(self).owner == o
                    && final(self).vault == v,
                Err(e) => r == Err::<u64, VaultError>(e) && *final(self) == *old(self),
            },
    {
        if !self.owner.is_signer || !keys_equal(&self.vault.owner, &ID) {
            return Err(VaultError::Unauthorized);
        }
        if !keys_equal(&self.vault.key, expected) {
            return Err(VaultError::AddressMismatch);
        }
        let current = self.vault.lamports;
        if current <= reserve {
            return Err(VaultError::InsufficientFunds);
        }
        let amount = current - reserve;
        let remaining = match current.checked_sub(amount) {
            Some(v) => v,
            None => return Err(VaultError::InsufficientFunds),
        };
        let credited = match self.owner.lamports.checked_add(amount) {
            Some(v) => v,
            None => return Err(VaultError::InsufficientFunds),
        };
        self.vault.lamports = remaining;
        self.owner.lamports = credited;
        Ok(amount)
    }

    /// Carries out the withdrawal: checks the owner's signature, the vault's
    /// owner and address, then moves everything above the host's reserve to
    /// the owner.
    pub fn process(&mut self) -> (r: Result<u64, VaultError>)
        ensures
            r is Err ==> *final(self) == *old(self),
            !old(self).owner.is_signer || old(self).vault.owner != ID ==> r == Err::<
                u64,
                VaultError,
            >(VaultError::Unauthorized),
            r is Ok ==> old(self).vault.key@ == vault_address(old(self).owner.key@).0,
            r == Err::<u64, VaultError>(VaultError::Unauthorized) ==> !old(self).owner.is_signer
                || old(self).vault.owner != ID,
            r == Err::<u64, VaultError>(VaultError::AddressMismatch) ==> old(self).owner.is_signer
                && old(self).vault.owner == ID && old(self).vault.key@ != vault_address(
                old(self).owner.key@,
            ).0,
            old(self).owner.is_signer && old(self).vault.owner == ID && old(self).vault.key@
                != vault_address(old(self).owner.key@).0 ==> r == Err::<u64, VaultError>(
                VaultError::AddressMismatch,
            ) || r == Err::<u64, VaultError>(VaultError::NoDerivedAddress),
            old(self).owner.is_signer && old(self).vault.owner == ID && old(self).vault.key@
                == vault_address(old(self).owner.key@).0 && r is Err ==> r == Err::<
                u64,
                VaultError,
            >(VaultError::NoDerivedAddress) || r == Err::<u64, VaultError>(
                VaultError::RentUnavailable,
            ) || r == Err::<u64, VaultError>(VaultError::InsufficientFunds),
            r matches Ok(m) ==> withdrawn(
                old(self).owner,
                old(self).vault,
                old(self).vault.key,
                final(self).vault.lamports,
            ) == Ok::<(u64, Account, Account), VaultError>((m, final(self).owner, final(self).vault)),
    {
        // Each check is made before the host call that follows it, so that a
        // refusal never waits on the host; `settle` then repeats them all.
        if !self.owner.is_signer || !keys_equal(&self.vault.owner, &ID) {
            return Err(VaultError::Unauthorized);
        }
        let expected = match derive_vault(&self.owner) {
            Some((address, _bump)) => address,
            None => return Err(VaultError::NoDerivedAddress),
        };
        if !keys_equal(&self.vault.key, &expected) {
            proof {
                broadcast use vstd::array::group_array_axioms;

                if self.vault.key@ == expected@ {
                    assert(self.vault.key =~= expected);
                }
            }
            return Err(VaultError::AddressMismatch);
        }
        let reserve = host_reserve(self.vault.data_len)?;
        self.settle(&expected, reserve)
    }
}

/// The amount that a deposit payload encodes, where it is well formed.
pub open spec fn decoded_amount(data: Seq<u8>) -> Option<u64> {
    if data.len() == AMOUNT_LEN && le_value(data) > 0 {
        Some(le_value(data) as u64)
    } else {
        None
    }
}

} // verus!
