use vstd::prelude::*;

use pinocchio::pubkey::Pubkey;

verus! {

/// What the program reads and writes of an account that the host hands to
/// an instruction.
#[derive(Clone, Copy, Debug)]
pub struct Account {
    /// The account's address.
    pub key: Pubkey,
    /// The program that owns the account.
    pub owner: Pubkey,
    /// The account's balance.
    pub lamports: u64,
    /// The size of the account's data.
    pub data_len: usize,
    /// Whether the account signed the transaction.
    pub is_signer: bool,
}

/// `a` with its balance replaced by `lamports`.
pub open spec fn with_lamports(a: Account, lamports: int) -> Account {
    Account { lamports: lamports as u64, ..a }
}

/// Whether two addresses are the same.
pub fn keys_equal(a: &Pubkey, b: &Pubkey) -> (r: bool)
    ensures
        r == (*a == *b),
{
    let mut i: usize = 0;
    while i < 32
        invariant
            i <= 32,
            forall|j: int| 0 <= j < i ==> a@[j] == b@[j],
        decreases 32 - i,
    {
        if a[i] != b[i] {
            return false;
        }
        i = i + 1;
    }
    proof {
        broadcast use vstd::array::group_array_axioms;

        assert(*a =~= *b);
    }
    true
}

} // verus!
