//! The fee model: a fixed price per transaction slot.

use vstd::prelude::*;

verus! {

/// Price of one transaction slot, in base units.
pub const FEE_PER_INPUT: u64 = 2000;

/// Smallest change worth an output of its own, in base units.
pub const DUST_THRESHOLD: u64 = 1000;

/// The fee of a transaction with `input_count` inputs: one slot for each
/// input and one more reserved for a change output.
pub open spec fn fee_of(input_count: nat) -> nat {
    (input_count + 1) * (FEE_PER_INPUT as nat)
}

/// Computes the fee of a transaction with `input_count` inputs.
pub fn fee(input_count: usize) -> (r: u64)
    requires
        fee_of(input_count as nat) <= u64::MAX,
    ensures
        r == fee_of(input_count as nat),
        r == (input_count + 1) * 2000,
{
    let slots: u64 = input_count as u64 + 1;
    slots * FEE_PER_INPUT
}

/// The fee grows with the number of inputs: never smaller for more inputs,
/// and strictly larger for strictly more.
pub proof fn fee_is_monotonic(fewer: nat, more: nat)
    requires
        fewer <= more,
    ensures
        fee_of(fewer) <= fee_of(more),
        fewer < more ==> fee_of(fewer) < fee_of(more),
        fee_of(more) - fee_of(fewer) == (more - fewer) * (FEE_PER_INPUT as nat),
{
}

} // verus!
