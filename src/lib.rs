//! An escrow vault program core: each owner has exactly one vault, derived
//! from its key, into which it deposits lamports and from which it withdraws
//! everything above the rent-exempt reserve.

mod account;
mod amount;
mod error;
mod host;
mod instructions;
mod laws;
mod vault;

pub use account::{keys_equal, with_lamports, Account};
pub use amount::{le_value, parse_amount, AMOUNT_LEN};
pub use error::VaultError;
pub use laws::{
    lemma_created_vault_holds_reserve, lemma_deposit_credits_amount, lemma_deposit_payload_rejected,
    lemma_derivation_deterministic, lemma_unsigned_owner_rejected, lemma_withdraw_address_mismatch,
    lemma_withdraw_leaves_reserve,
};
pub use host::program_address_of;
pub use vault::{
    created_vault, derive_vault, ensure_vault_exists, host_reserve, lifecycle, prepare_vault,
    paid, transfer, transferred, vault_address, VaultCreation, ACCOUNT_DISCRIMINATOR_SIZE, ID,
    VAULT_SEED, VAULT_SIZE,
};
pub use instructions::{deposited, decoded_amount, withdrawn, Deposit, ProgramIx, Withdraw};

use vstd::prelude::*;

verus! {

/// What an instruction did: which one it was, the owner and the vault after
/// it, what the host must create, and the amount moved between the two.
#[derive(Clone, Copy, Debug)]
pub struct Executed {
    pub ix: ProgramIx,
    pub owner: Account,
    pub vault: Account,
    pub created: Option<VaultCreation>,
    pub moved: u64,
}

/// Whether `e` records a deposit of `amount` by `owner` into `vault` where
/// creating the vault costs `reserve`.
pub open spec fn deposit_executed(
    owner: Account,
    vault: Account,
    amount: u64,
    reserve: u64,
    e: Executed,
) -> bool {
    &&& e.ix == ProgramIx::Deposit { amount }
    &&& e.moved == amount
    &&& deposited(owner, vault, amount, reserve) == Ok::<
        (Option<VaultCreation>, Account, Account),
        VaultError,
    >((e.created, e.owner, e.vault))
}

/// Whether `e` records a withdrawal by `owner` from `vault` where the vault
/// must keep `reserve`.
pub open spec fn withdraw_executed(owner: Account, vault: Account, reserve: u64, e: Executed) -> bool {
    &&& e.ix == (ProgramIx::Withdraw {  })
    &&& e.created is None
    &&& withdrawn(owner, vault, vault.key, reserve) == Ok::<(u64, Account, Account), VaultError>(
        (e.moved, e.owner, e.vault),
    )
}

/// Decodes one instruction and carries it out on `accounts`: the first byte
/// selects a deposit (0) or a withdrawal (1), and the owner and the vault are
/// the first two accounts.
pub fn process_instruction(accounts: &[Account], instruction_data: &[u8]) -> (r: Result<
    Executed,
    VaultError,
>)
    ensures
        instruction_data@.len() == 0 || (instruction_data@[0] != Deposit::DISCRIMINATOR
            && instruction_data@[0] != Withdraw::DISCRIMINATOR) ==> r == Err::<Executed, VaultError>(
            VaultError::InvalidPayload,
        ),
        instruction_data@.len() > 0 && (instruction_data@[0] == Deposit::DISCRIMINATOR
            || instruction_data@[0] == Withdraw::DISCRIMINATOR) && accounts@.len() < 2 ==> r
            == Err::<Executed, VaultError>(VaultError::NotEnoughAccounts),
        instruction_data@.len() > 0 && instruction_data@[0] == Deposit::DISCRIMINATOR
            && accounts@.len() >= 2 ==> match decoded_amount(instruction_data@.drop_first()) {
            None => r == Err::<Executed, VaultError>(VaultError::InvalidPayload),
            Some(amount) => {
                &&& !accounts@[0].is_signer ==> r == Err::<Executed, VaultError>(
                    VaultError::Unauthorized,
                )
                &&& r == Err::<Executed, VaultError>(VaultError::Unauthorized)
                    ==> !accounts@[0].is_signer || (accounts@[1].lamports != 0
                    && accounts@[1].owner != ID)
                &&& accounts@[0].is_signer && accounts@[1].lamports == 0 && r is Err ==> r
                    == Err::<Executed, VaultError>(VaultError::RentUnavailable) || r == Err::<
                    Executed,
                    VaultError,
                >(VaultError::InsufficientFunds)
                &&& accounts@[1].lamports != 0 ==> match deposited(
                    accounts@[0],
                    accounts@[1],
                    amount,
                    0,
                ) {
                    Ok(_) => r is Ok && deposit_executed(
                        accounts@[0],
                        accounts@[1],
                        amount,
                        0,
                        r->Ok_0,
                    ),
                    Err(e) => r == Err::<Executed, VaultError>(e),
                }
                &&& r matches Ok(e) ==> deposit_executed(
                    accounts@[0],
                    accounts@[1],
                    amount,
                    paid(e.created),
                    e,
                )
            },
        },
        instruction_data@.len() > 0 && instruction_data@[0] == Withdraw::DISCRIMINATOR
            && accounts@.len() >= 2 ==> {
            &&& !accounts@[0].is_signer || accounts@[1].owner != ID ==> r == Err::<
                Executed,
                VaultError,
            >(VaultError::Unauthorized)
            &&& r is Ok ==> accounts@[1].key@ == vault_address(accounts@[0].key@).0
            &&& r == Err::<Executed, VaultError>(VaultError::Unauthorized)
                ==> !accounts@[0].is_signer || accounts@[1].owner != ID
            &&& r == Err::<Executed, VaultError>(VaultError::AddressMismatch)
                ==> accounts@[0].is_signer && accounts@[1].owner == ID && accounts@[1].key@
                != vault_address(accounts@[0].key@).0
            &&& accounts@[0].is_signer && accounts@[1].owner == ID && accounts@[1].key@
                != vault_address(accounts@[0].key@).0 ==> r == Err::<Executed, VaultError>(
                VaultError::AddressMismatch,
            ) || r == Err::<Executed, VaultError>(VaultError::NoDerivedAddress)
            &&& accounts@[0].is_signer && accounts@[1].owner == ID && accounts@[1].key@
                == vault_address(accounts@[0].key@).0 && r is Err ==> r == Err::<
                Executed,
                VaultError,
            >(VaultError::NoDerivedAddress) || r == Err::<Executed, VaultError>(
                VaultError::RentUnavailable,
            ) || r == Err::<Executed, VaultError>(VaultError::InsufficientFunds)
            &&& r matches Ok(e) ==> withdraw_executed(
                accounts@[0],
                accounts@[1],
                e.vault.lamports,
                e,
            )
        },
{
    if instruction_data.len() == 0 {
        return Err(VaultError::InvalidPayload);
    }
    let (head, data) = instruction_data.split_at(1);
    let tag = head[0];
    assert(tag == instruction_data@[0]);
    assert(data@ =~= instruction_data@.drop_first());
    if tag == Deposit::DISCRIMINATOR {
        let mut deposit = Deposit::try_from((data, accounts))?;
        let created = deposit.process()?;
        let amount = deposit.amount;
        let e = Executed {
            ix: ProgramIx::Deposit { amount },
            owner: deposit.owner,
            vault: deposit.vault,
            created,
            moved: amount,
        };
        Ok(e)
    } else if tag == Withdraw::DISCRIMINATOR {
        let mut withdraw = Withdraw::try_from(accounts)?;
        let moved = withdraw.process()?;
        let e = Executed {
            ix: ProgramIx::Withdraw {  },
            owner: withdraw.owner,
            vault: withdraw.vault,
            created: None,
            moved,
        };
        Ok(e)
    } else {
        Err(VaultError::InvalidPayload)
    }
}

} // verus!
