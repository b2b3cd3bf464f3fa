use vstd::prelude::*;

use vstd::string::StringSliceAdditionalSpecFns;

use crate::error::ContractError;

verus! {

/// Width in bytes of a stored amount.
pub const AMOUNT_WIDTH: usize = 16;

/// The value of `s` read as a big-endian unsigned integer.
pub open spec fn be_value(s: Seq<u8>) -> nat
    decreases s.len(),
{
    if s.len() == 0 {
        0
    } else {
        be_value(s.drop_last()) * 256 + s.last() as nat
    }
}

/// 256 to the power `n`.
pub open spec fn pow256(n: nat) -> nat
    decreases n,
{
    if n == 0 {
        1
    } else {
        256 * pow256((n - 1) as nat)
    }
}

proof fn lemma_pow256_amount_width()
    ensures
        pow256(16) == u128::MAX + 1,
{
    reveal_with_fuel(pow256, 17);
}

/// Decodes a stored amount: exactly 16 bytes, most significant first.
pub fn bytes_to_u128(data: &[u8]) -> (r: Result<u128, ContractError>)
    ensures
        data@.len() == AMOUNT_WIDTH ==> r == Ok::<u128, ContractError>(be_value(data@) as u128)
            && be_value(data@) <= u128::MAX,
        data@.len() != AMOUNT_WIDTH ==> r == Err::<u128, ContractError>(ContractError::CorruptedData),
{
    if data.len() != AMOUNT_WIDTH {
        return Err(ContractError::CorruptedData);
    }
    proof {
        lemma_pow256_amount_width();
    }
    let mut v: u128 = 0;
    let mut i: usize = 0;
    while i < AMOUNT_WIDTH
        invariant
            data@.len() == AMOUNT_WIDTH,
            i <= AMOUNT_WIDTH,
            v as nat == be_value(data@.take(i as int)),
            v < pow256(i as nat),
            pow256(16) == u128::MAX + 1,
        decreases AMOUNT_WIDTH - i,
    {
        let b = data[i];
        proof {
            let p = pow256(i as nat);
            assert(data@.take(i + 1).drop_last() =~= data@.take(i as int));
            assert(pow256((i + 1) as nat) == 256 * p);
            assert(v * 256 + b < 256 * p) by (nonlinear_arith)
                requires
                    v < p,
                    b < 256,
            ;
            lemma_pow256_monotone((i + 1) as nat, 16);
        }
        v = v * 256 + b as u128;
        i = i + 1;
    }
    assert(data@.take(16) =~= data@);
    Ok(v)
}

proof fn lemma_pow256_monotone(a: nat, b: nat)
    requires
        a <= b,
    ensures
        pow256(a) <= pow256(b),
    decreases b - a,
{
    if a < b {
        lemma_pow256_monotone(a, (b - 1) as nat);
    }
}

/// Decodes what the store holds under a key: an absent entry reads as zero.
pub fn read_u128(stored: Option<&[u8]>) -> (r: Result<u128, ContractError>)
    ensures
        stored is None ==> r == Ok::<u128, ContractError>(0),
        stored matches Some(d) ==> r == bytes_to_u128_spec(d@),
{
    match stored {
        Some(data) => bytes_to_u128(data),
        None => Ok(0u128),
    }
}

/// What `bytes_to_u128` returns on `s`.
pub open spec fn bytes_to_u128_spec(s: Seq<u8>) -> Result<u128, ContractError> {
    if s.len() == AMOUNT_WIDTH {
        Ok(be_value(s) as u128)
    } else {
        Err(ContractError::CorruptedData)
    }
}

/// A token name is 3 to 30 bytes long.
pub fn is_valid_name(name: &str) -> (r: bool)
    ensures
        r == (3 <= name.spec_bytes().len() <= 30),
{
    let bytes = name.as_bytes();
    3 <= bytes.len() && bytes.len() <= 30
}

/// A token symbol is 3 to 6 bytes, each an upper-case ASCII letter.
pub fn is_valid_symbol(symbol: &str) -> (r: bool)
    ensures
        r == (3 <= symbol.spec_bytes().len() <= 6 && forall|i: int|
            0 <= i < symbol.spec_bytes().len() ==> 65 <= #[trigger] symbol.spec_bytes()[i] <= 90),
{
    let bytes = symbol.as_bytes();
    if bytes.len() < 3 || bytes.len() > 6 {
        return false;
    }
    let mut i: usize = 0;
    while i < bytes.len()
        invariant
            bytes@ == symbol.spec_bytes(),
            i <= bytes@.len(),
            forall|j: int| 0 <= j < i ==> 65 <= #[trigger] bytes@[j] <= 90,
        decreases bytes@.len() - i,
    {
        let b = bytes[i];
        if b < 65 || b > 90 {
            return false;
        }
        i = i + 1;
    }
    true
}

} // verus!
