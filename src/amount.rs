use vstd::prelude::*;

use crate::error::VaultError;

verus! {

/// Width in bytes of an encoded amount.
pub const AMOUNT_LEN: usize = 8;

/// The unsigned integer that `s` encodes, least significant byte first.
pub open spec fn le_value(s: Seq<u8>) -> nat
    decreases s.len(),
{
    if s.len() == 0 {
        0
    } else {
        s[0] as nat + 256 * le_value(s.drop_first())
    }
}

/// `256` raised to `n`.
pub open spec fn byte_range(n: nat) -> nat
    decreases n,
{
    if n == 0 {
        1
    } else {
        256 * byte_range((n - 1) as nat)
    }
}

proof fn lemma_le_value_bound(s: Seq<u8>)
    ensures
        le_value(s) < byte_range(s.len()),
    decreases s.len(),
{
    if s.len() > 0 {
        lemma_le_value_bound(s.drop_first());
    }
}

/// Decodes the amount of a deposit: exactly eight bytes, least significant
/// first, and not zero.
pub fn parse_amount(data: &[u8]) -> (r: Result<u64, VaultError>)
    ensures
        data@.len() == AMOUNT_LEN && le_value(data@) > 0 <==> r is Ok,
        r matches Ok(v) ==> v == le_value(data@),
        r matches Err(e) ==> e == VaultError::InvalidPayload,
{
    if data.len() != AMOUNT_LEN {
        return Err(VaultError::InvalidPayload);
    }
    let mut value: u64 = 0;
    let mut i: usize = AMOUNT_LEN;
    proof {
        reveal_with_fuel(byte_range, 9);
        assert(byte_range(8) == 0x1_0000_0000_0000_0000);
    }
    while i > 0
        invariant
            data@.len() == AMOUNT_LEN,
            i <= AMOUNT_LEN,
            value == le_value(data@.subrange(i as int, AMOUNT_LEN as int)),
            byte_range(8) == 0x1_0000_0000_0000_0000,
        decreases i,
    {
        let ghost rest = data@.subrange(i as int, AMOUNT_LEN as int);
        let ghost next = data@.subrange(i - 1, AMOUNT_LEN as int);
        proof {
            assert(next.drop_first() =~= rest);
            lemma_le_value_bound(next);
            assert(byte_range(next.len()) <= byte_range(8)) by {
                lemma_byte_range_monotonic(next.len(), 8);
            }
        }
        i = i - 1;
        value = data[i] as u64 + 256 * value;
    }
    assert(data@.subrange(0, AMOUNT_LEN as int) =~= data@);
    if value == 0 {
        return Err(VaultError::InvalidPayload);
    }
    Ok(value)
}

proof fn lemma_byte_range_monotonic(a: nat, b: nat)
    requires
        a <= b,
    ensures
        byte_range(a) <= byte_range(b),
    decreases b,
{
    if a < b {
        lemma_byte_range_monotonic(a, (b - 1) as nat);
    }
}

} // verus!
