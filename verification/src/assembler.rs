//! Building the unsigned transaction from the selected outputs.

use vstd::prelude::*;
use crate::address::{locking_script_of, Address, AddressView};
use crate::fee::DUST_THRESHOLD;
use crate::transaction::{total_value, PendingTransaction, Transaction, TxInput, TxOutput};
use crate::utxo::UnspentOutput;

verus! {

/// What is left of `total_in` once `amount` and `fee` are taken.
pub open spec fn residual_of(total_in: u64, amount: u64, fee: u64) -> int {
    total_in - amount - fee
}

/// The change that a transaction pays back: the residual, unless it is
/// below the dust threshold.
pub open spec fn change_of(total_in: u64, amount: u64, fee: u64) -> int {
    if residual_of(total_in, amount, fee) >= DUST_THRESHOLD {
        residual_of(total_in, amount, fee)
    } else {
        0
    }
}

/// Whether `input` is the unsigned input at position `position` that spends
/// `spent`.
pub open spec fn is_input_for(input: TxInput, spent: UnspentOutput, position: int) -> bool {
    &&& input.previous_outpoint == spent.outpoint
    &&& input.signature_script@.len() == 0
    &&& input.sequence == position
    &&& input.sig_op_count == 1
}

/// Whether `tx` is the transaction that pays `amount` to `destination` out
/// of `inputs`, with change, if any, to `change_address`.
pub open spec fn is_assembly(
    tx: PendingTransaction,
    inputs: Seq<UnspentOutput>,
    fee: u64,
    total_in: u64,
    amount: u64,
    destination: AddressView,
    change_address: AddressView,
) -> bool {
    let change = change_of(total_in, amount, fee);
    &&& tx.selected_inputs@ == inputs
    &&& tx.unsigned.inputs@.len() == inputs.len()
    &&& forall|i: int|
        0 <= i < inputs.len() ==> is_input_for(#[trigger] tx.unsigned.inputs@[i], inputs[i], i)
    &&& tx.unsigned.outputs@.len() == (if change > 0 {
        2nat
    } else {
        1nat
    })
    &&& tx.unsigned.outputs@[0].value == amount
    &&& tx.unsigned.outputs@[0].script@ == locking_script_of(destination)
    &&& change > 0 ==> {
        &&& tx.unsigned.outputs@[1].value == change
        &&& tx.unsigned.outputs@[1].script@ == locking_script_of(change_address)
    }
    &&& tx.change == change
    &&& tx.fee == total_in - amount - change
    &&& tx.unsigned.version == 0
    &&& tx.unsigned.lock_time == 0
    &&& forall|i: int| 0 <= i < 20 ==> #[trigger] tx.unsigned.subnetwork_id@[i] == 0
    &&& tx.unsigned.gas == 0
    &&& tx.unsigned.payload@.len() == 0
}

/// Builds the unsigned transaction: one input for each selected output, in
/// order and numbered by position; the payment to `destination` as the first
/// output; and, only if what is left after payment and fee reaches the dust
/// threshold, the change to `change_address` as the second.
///
/// The caller has made sure that `total_in` covers `amount` and `fee`.
pub fn assemble(
    inputs: Vec<UnspentOutput>,
    fee: u64,
    total_in: u64,
    amount: u64,
    destination: &Address,
    change_address: &Address,
) -> (tx: PendingTransaction)
    requires
        amount + fee <= total_in,
    ensures
        is_assembly(tx, inputs@, fee, total_in, amount, destination@, change_address@),
{
    let residual: u64 = total_in - amount - fee;
    let change: u64 = if residual >= DUST_THRESHOLD {
        residual
    } else {
        0
    };
    let mut tx_inputs: Vec<TxInput> = Vec::new();
    let mut i: usize = 0;
    while i < inputs.len()
        invariant
            i <= inputs.len(),
            tx_inputs@.len() == i,
            forall|j: int| 0 <= j < i ==> is_input_for(#[trigger] tx_inputs@[j], inputs@[j], j),
        decreases inputs.len() - i,
    {
        tx_inputs.push(
            TxInput {
                previous_outpoint: inputs[i].outpoint,
                signature_script: Vec::new(),
                sequence: i as u64,
                sig_op_count: 1,
            },
        );
        i = i + 1;
    }
    let mut outputs: Vec<TxOutput> = Vec::new();
    outputs.push(TxOutput { value: amount, script: destination.locking_script() });
    if change > 0 {
        outputs.push(TxOutput { value: change, script: change_address.locking_script() });
    }
    PendingTransaction {
        selected_inputs: inputs,
        unsigned: Transaction {
            version: 0,
            inputs: tx_inputs,
            outputs,
            lock_time: 0,
            subnetwork_id: [0u8; 20],
            gas: 0,
            payload: Vec::new(),
        },
        fee: total_in - amount - change,
        change,
    }
}

/// Change below the dust threshold makes no output: the transaction then
/// has the payment as its only output, and what was left goes to the
/// network on top of the fee.
pub proof fn dust_is_folded_into_the_fee(
    tx: PendingTransaction,
    inputs: Seq<UnspentOutput>,
    fee: u64,
    total_in: u64,
    amount: u64,
    destination: AddressView,
    change_address: AddressView,
)
    requires
        amount + fee <= total_in,
        is_assembly(tx, inputs, fee, total_in, amount, destination, change_address),
        residual_of(total_in, amount, fee) < DUST_THRESHOLD,
    ensures
        tx.unsigned.outputs@.len() == 1,
        tx.change == 0,
        tx.fee == fee + residual_of(total_in, amount, fee),
{
}

/// Change is either absent or at least the dust threshold; where it is
/// present it is the second output, after the payment.
pub proof fn change_is_absent_or_above_dust(
    tx: PendingTransaction,
    inputs: Seq<UnspentOutput>,
    fee: u64,
    total_in: u64,
    amount: u64,
    destination: AddressView,
    change_address: AddressView,
)
    requires
        amount + fee <= total_in,
        is_assembly(tx, inputs, fee, total_in, amount, destination, change_address),
    ensures
        tx.change == 0 || tx.change >= DUST_THRESHOLD,
        tx.change == 0 <==> tx.unsigned.outputs@.len() == 1,
        tx.change >= DUST_THRESHOLD ==> tx.fee == fee && tx.unsigned.outputs@[1].value
            == tx.change,
{
}

/// Nothing is lost: the outputs and the fee add up to what came in.
pub proof fn assembly_conserves_value(
    tx: PendingTransaction,
    inputs: Seq<UnspentOutput>,
    fee: u64,
    total_in: u64,
    amount: u64,
    destination: AddressView,
    change_address: AddressView,
)
    requires
        amount + fee <= total_in,
        is_assembly(tx, inputs, fee, total_in, amount, destination, change_address),
    ensures
        total_value(tx.unsigned.outputs@) + tx.fee == total_in,
        tx.fee >= fee,
{
    let outputs = tx.unsigned.outputs@;
    if outputs.len() == 1 {
        assert(outputs.drop_last().len() == 0);
        assert(total_value(outputs.drop_last()) == 0);
    } else {
        let front = outputs.drop_last();
        assert(front.len() == 1);
        assert(front.drop_last().len() == 0);
        assert(total_value(front.drop_last()) == 0);
        assert(front.last() == outputs[0]);
        assert(total_value(front) == amount);
    }
}

} // verus!
