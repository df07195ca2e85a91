//! Unspent outputs, held as plain values.

use vstd::prelude::*;

verus! {

/// Stable identifier of an output: the transaction that created it and the
/// position of the output in that transaction.
#[derive(Clone, Copy, Debug, PartialEq, Eq)]
pub struct Outpoint {
    pub transaction_id: [u8; 32],
    pub index: u32,
}

/// A locking script together with its version.
#[derive(Debug, PartialEq, Eq)]
pub struct Script {
    pub version: u16,
    pub bytes: Vec<u8>,
}

/// What a script is, as a mathematical value.
pub struct ScriptView {
    pub version: u16,
    pub bytes: Seq<u8>,
}

impl View for Script {
    type V = ScriptView;

    open spec fn view(&self) -> ScriptView {
        ScriptView { version: self.version, bytes: self.bytes@ }
    }
}

/// A payment record that has not been spent yet, as the node reported it.
#[derive(Debug, PartialEq, Eq)]
pub struct UnspentOutput {
    pub outpoint: Outpoint,
    pub amount: u64,
    pub script: Script,
    pub block_daa_score: u64,
    pub is_coinbase: bool,
}

/// The sum of the amounts of `outputs`.
pub open spec fn total_amount(outputs: Seq<UnspentOutput>) -> nat
    decreases outputs.len(),
{
    if outputs.len() == 0 {
        0
    } else {
        total_amount(outputs.drop_last()) + outputs.last().amount as nat
    }
}

/// Taking one more output adds its amount to the total.
pub proof fn total_amount_step(outputs: Seq<UnspentOutput>, k: int)
    requires
        0 <= k < outputs.len(),
    ensures
        total_amount(outputs.take(k + 1)) == total_amount(outputs.take(k)) + outputs[k].amount,
{
    assert(outputs.take(k + 1).drop_last() =~= outputs.take(k));
}

} // verus!
