//! The parts of a spend transaction, held as plain values.

use vstd::prelude::*;
use crate::utxo::{Outpoint, Script, UnspentOutput};

verus! {

/// A reference to the output that an input spends, with the script that
/// unlocks it.
#[derive(Debug, PartialEq, Eq)]
pub struct TxInput {
    pub previous_outpoint: Outpoint,
    /// Empty until the transaction is signed.
    pub signature_script: Vec<u8>,
    pub sequence: u64,
    pub sig_op_count: u8,
}

/// An amount and the script that locks it.
#[derive(Debug, PartialEq, Eq)]
pub struct TxOutput {
    pub value: u64,
    pub script: Script,
}

/// A transaction, field for field as the node takes it.
#[derive(Debug, PartialEq, Eq)]
pub struct Transaction {
    pub version: u16,
    pub inputs: Vec<TxInput>,
    pub outputs: Vec<TxOutput>,
    pub lock_time: u64,
    pub subnetwork_id: [u8; 20],
    pub gas: u64,
    pub payload: Vec<u8>,
}

/// A transaction that has been assembled and awaits its signatures,
/// together with the outputs it spends.
#[derive(Debug, PartialEq, Eq)]
pub struct PendingTransaction {
    /// The outputs that the inputs spend, in the order of the inputs.
    pub selected_inputs: Vec<UnspentOutput>,
    /// The transaction, with empty signature scripts.
    pub unsigned: Transaction,
    /// What the transaction leaves to the network: the fee of the fee model
    /// and any change too small for an output of its own.
    pub fee: u64,
    /// What goes back to the wallet; zero if there is no change output.
    pub change: u64,
}

/// The sum of the values of `outputs`.
pub open spec fn total_value(outputs: Seq<TxOutput>) -> nat
    decreases outputs.len(),
{
    if outputs.len() == 0 {
        0
    } else {
        total_value(outputs.drop_last()) + outputs.last().value as nat
    }
}

impl PendingTransaction {
    /// Whether there is exactly one selected output for each input.
    pub open spec fn is_paired(&self) -> bool {
        self.unsigned.inputs@.len() == self.selected_inputs@.len()
    }
}

} // verus!
