use kaspa_faucet::address::{Address, AddressKind, Network};
use kaspa_faucet::assembler::assemble;
use kaspa_faucet::selector::select;
use kaspa_faucet::utxo::{Outpoint, Script, UnspentOutput};

fn utxo(tag: u8, amount: u64) -> UnspentOutput {
    UnspentOutput {
        outpoint: Outpoint { transaction_id: [tag; 32], index: 100 + tag as u32 },
        amount,
        script: Script { version: 0, bytes: vec![0x20, tag, 0xac] },
        block_daa_score: 7,
        is_coinbase: false,
    }
}

fn destination() -> Address {
    Address::new(Network::Testnet, AddressKind::PubKey, vec![0x11; 32]).unwrap()
}

fn faucet() -> Address {
    Address::new(Network::Testnet, AddressKind::PubKey, vec![0x22; 32]).unwrap()
}

#[test]
fn one_input_pays_the_claim_and_returns_change() {
    let available = vec![utxo(1, 500_000_000), utxo(2, 400_000_000)];
    let sel = select(available, 100_000_000).unwrap();
    assert_eq!(sel.inputs.len(), 1);
    assert_eq!(sel.fee, 4000);
    let tx = assemble(sel.inputs, sel.fee, sel.total_in, 100_000_000, &destination(), &faucet());
    assert_eq!(tx.fee, 4000);
    assert_eq!(tx.change, 399_996_000);
    assert_eq!(tx.unsigned.inputs.len(), 1);
    assert_eq!(tx.unsigned.outputs.len(), 2);
    assert_eq!(tx.selected_inputs, vec![utxo(1, 500_000_000)]);
    assert_eq!(tx.unsigned.inputs[0].previous_outpoint, utxo(1, 0).outpoint);
    assert!(tx.unsigned.inputs[0].signature_script.is_empty());
    assert_eq!(tx.unsigned.inputs[0].sequence, 0);
    assert_eq!(tx.unsigned.inputs[0].sig_op_count, 1);
    assert_eq!(tx.unsigned.outputs[0].value, 100_000_000);
    assert_eq!(tx.unsigned.outputs[0].script, destination().locking_script());
    assert_eq!(tx.unsigned.outputs[1].value, 399_996_000);
    assert_eq!(tx.unsigned.outputs[1].script, faucet().locking_script());
    assert_eq!(tx.unsigned.version, 0);
    assert_eq!(tx.unsigned.lock_time, 0);
    assert_eq!(tx.unsigned.subnetwork_id, [0u8; 20]);
    assert_eq!(tx.unsigned.gas, 0);
    assert!(tx.unsigned.payload.is_empty());
}

#[test]
fn inputs_are_numbered_by_position() {
    let inputs = vec![utxo(5, 10_000), utxo(6, 20_000), utxo(7, 30_000)];
    let tx = assemble(inputs, 8000, 60_000, 50_000, &destination(), &faucet());
    assert_eq!(tx.unsigned.inputs.len(), 3);
    for (i, input) in tx.unsigned.inputs.iter().enumerate() {
        assert_eq!(input.sequence, i as u64);
        assert_eq!(input.previous_outpoint, tx.selected_inputs[i].outpoint);
        assert!(input.signature_script.is_empty());
    }
}

#[test]
fn change_below_dust_goes_to_the_fee() {
    // 104_999 - 100_000 - 4000 = 999
    let tx = assemble(vec![utxo(1, 104_999)], 4000, 104_999, 100_000, &destination(), &faucet());
    assert_eq!(tx.unsigned.outputs.len(), 1);
    assert_eq!(tx.unsigned.outputs[0].value, 100_000);
    assert_eq!(tx.change, 0);
    assert_eq!(tx.fee, 4999);
}

#[test]
fn change_at_the_dust_threshold_is_paid_out() {
    // 105_000 - 100_000 - 4000 = 1000
    let tx = assemble(vec![utxo(1, 105_000)], 4000, 105_000, 100_000, &destination(), &faucet());
    assert_eq!(tx.unsigned.outputs.len(), 2);
    assert_eq!(tx.unsigned.outputs[1].value, 1000);
    assert_eq!(tx.change, 1000);
    assert_eq!(tx.fee, 4000);
}

#[test]
fn no_residual_means_no_change_output() {
    let tx = assemble(vec![utxo(1, 104_000)], 4000, 104_000, 100_000, &destination(), &faucet());
    assert_eq!(tx.unsigned.outputs.len(), 1);
    assert_eq!(tx.change, 0);
    assert_eq!(tx.fee, 4000);
}

#[test]
fn outputs_and_fee_add_up_to_the_total() {
    for total_in in [104_000u64, 104_001, 104_999, 105_000, 105_001, 1_000_000] {
        let tx =
            assemble(vec![utxo(1, total_in)], 4000, total_in, 100_000, &destination(), &faucet());
        let paid: u64 = tx.unsigned.outputs.iter().map(|o| o.value).sum();
        assert_eq!(paid + tx.fee, total_in);
        assert!(tx.change == 0 || tx.change >= 1000);
        assert_eq!(tx.unsigned.outputs.len(), if tx.change == 0 { 1 } else { 2 });
    }
}
