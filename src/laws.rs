use vstd::prelude::*;

use pinocchio::pubkey::Pubkey;

use crate::account::Account;
use crate::amount::{le_value, AMOUNT_LEN};
use crate::error::VaultError;
use crate::instructions::{deposited, decoded_amount, withdrawn};
use crate::vault::{lifecycle, vault_address, VaultCreation, ID, VAULT_SIZE};

verus! {

/// Deriving the vault of one owner twice gives the same address and bump.
pub proof fn lemma_derivation_deterministic(owner: Seq<u8>, first: (Pubkey, u8), second: (Pubkey, u8))
    requires
        vault_address(owner) == (first.0@, first.1),
        vault_address(owner) == (second.0@, second.1),
    ensures
        first == second,
{
    broadcast use vstd::array::group_array_axioms;

    assert(first.0 =~= second.0);
}

/// A deposit of a positive amount into an existing vault raises its balance
/// by exactly that amount and lowers the owner's by the same; into a vault
/// that had to be created, the vault ends with the reserve plus the amount.
pub proof fn lemma_deposit_credits_amount(owner: Account, vault: Account, amount: u64, reserve: u64)
    requires
        amount > 0,
    ensures
        deposited(owner, vault, amount, reserve) matches Ok((c, o, v)) ==> {
            &&& vault.lamports != 0 ==> v.lamports == vault.lamports + amount && o.lamports
                == owner.lamports - amount
            &&& vault.lamports == 0 ==> v.lamports == reserve + amount && o.lamports
                == owner.lamports - reserve - amount
        },
{
}

/// A deposit payload that is not eight bytes long, or that encodes zero, is
/// rejected.
pub proof fn lemma_deposit_payload_rejected(payload: Seq<u8>)
    requires
        payload.len() != AMOUNT_LEN || le_value(payload) == 0,
    ensures
        decoded_amount(payload) is None,
{
}

/// A vault that the lifecycle creates holds exactly the reserve, belongs to
/// this program and has the vault's size.
pub proof fn lemma_created_vault_holds_reserve(owner: Account, vault: Account, reserve: u64)
    ensures
        lifecycle(owner, vault, reserve) matches Ok((Some(c), o, v)) ==> {
            &&& v.lamports == reserve
            &&& v.owner == ID
            &&& v.data_len == VAULT_SIZE
            &&& c == VaultCreation { lamports: reserve, space: VAULT_SIZE as u64 }
        },
{
}

/// A withdrawal that succeeds leaves exactly the reserve in the vault and
/// hands the surplus to the owner; none succeeds from a vault that holds no
/// more than the reserve.
pub proof fn lemma_withdraw_leaves_reserve(
    owner: Account,
    vault: Account,
    expected: Pubkey,
    reserve: u64,
)
    ensures
        withdrawn(owner, vault, expected, reserve) matches Ok((m, o, v)) ==> {
            &&& v.lamports == reserve
            &&& m == vault.lamports - reserve
            &&& o.lamports == owner.lamports + m
        },
        vault.lamports <= reserve ==> withdrawn(owner, vault, expected, reserve) is Err,
{
}

/// A signed withdrawal from a vault of this program whose address is not the
/// one derived for the owner fails with `AddressMismatch`.
pub proof fn lemma_withdraw_address_mismatch(
    owner: Account,
    vault: Account,
    expected: Pubkey,
    reserve: u64,
)
    requires
        owner.is_signer,
        vault.owner == ID,
        vault.key != expected,
    ensures
        withdrawn(owner, vault, expected, reserve) == Err::<(u64, Account, Account), VaultError>(
            VaultError::AddressMismatch,
        ),
{
}

/// Neither a deposit nor a withdrawal goes through when the owner has not
/// signed.
pub proof fn lemma_unsigned_owner_rejected(
    owner: Account,
    vault: Account,
    amount: u64,
    expected: Pubkey,
    reserve: u64,
)
    requires
        !owner.is_signer,
    ensures
        deposited(owner, vault, amount, reserve) == Err::<
            (Option<VaultCreation>, Account, Account),
            VaultError,
        >(VaultError::Unauthorized),
        withdrawn(owner, vault, expected, reserve) == Err::<(u64, Account, Account), VaultError>(
            VaultError::Unauthorized,
        ),
{
}

} // verus!
