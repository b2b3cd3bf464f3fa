use vstd::prelude::*;

verus! {

/// Every way an operation of the token can fail. A failed operation leaves
/// the state it was called on unchanged.
#[derive(Debug, Clone, Copy, PartialEq, Eq, Structural)]
pub enum ContractError {
    /// The account holds less than the operation needs.
    InsufficientFunds { balance: u128, required: u128 },
    /// The spender was granted less than the operation needs.
    InsufficientAllowance { allowance: u128, required: u128 },
    /// The caller is not the admin identity.
    NotOperator,
    /// The incentive pool was already distributed.
    DoubleDistribute,
    /// A stored amount is not a 16-byte big-endian integer.
    CorruptedData,
    /// The result would not fit in an unsigned 128-bit amount.
    Overflow,
}

} // verus!
