use kaspa_consensus_core::subnets::SubnetworkId;
use kaspa_consensus_core::tx as outside;
use kaspa_faucet::address::{Address, AddressKind, Network};
use kaspa_faucet::assembler::assemble;
use kaspa_faucet::selector::select;
use kaspa_faucet::signer::{SigningFailure, SigningKey};
use kaspa_faucet::transaction::Transaction;
use kaspa_faucet::utxo::{Outpoint, Script, UnspentOutput};

fn key() -> SigningKey {
    SigningKey::from_hex(&"cd".repeat(32)).unwrap()
}

fn wallet_address(key: &SigningKey) -> Address {
    Address::new(Network::Testnet, AddressKind::PubKey, key.public_key().to_vec()).unwrap()
}

fn utxo(tag: u8, amount: u64, script: Script) -> UnspentOutput {
    UnspentOutput {
        outpoint: Outpoint { transaction_id: [tag; 32], index: tag as u32 },
        amount,
        script,
        block_daa_score: 11,
        is_coinbase: false,
    }
}

fn to_outside(tx: &Transaction, spent: &[UnspentOutput]) -> outside::SignableTransaction {
    let inputs = tx
        .inputs
        .iter()
        .map(|i| {
            outside::TransactionInput::new(
                outside::TransactionOutpoint::new(
                    kaspa_hashes::Hash::from_bytes(i.previous_outpoint.transaction_id),
                    i.previous_outpoint.index,
                ),
                i.signature_script.clone(),
                i.sequence,
                i.sig_op_count,
            )
        })
        .collect();
    let outputs = tx
        .outputs
        .iter()
        .map(|o| {
            outside::TransactionOutput::new(
                o.value,
                outside::ScriptPublicKey::from_vec(o.script.version, o.script.bytes.clone()),
            )
        })
        .collect();
    let entries = spent
        .iter()
        .map(|u| {
            outside::UtxoEntry::new(
                u.amount,
                outside::ScriptPublicKey::from_vec(u.script.version, u.script.bytes.clone()),
                u.block_daa_score,
                u.is_coinbase,
            )
        })
        .collect();
    let plain = outside::Transaction::new(
        tx.version,
        inputs,
        outputs,
        tx.lock_time,
        SubnetworkId::from_bytes(tx.subnetwork_id),
        tx.gas,
        tx.payload.clone(),
    );
    outside::SignableTransaction::with_entries(plain, entries)
}

#[test]
fn rejects_texts_that_are_no_key() {
    assert!(SigningKey::from_hex("").is_none());
    assert!(SigningKey::from_hex("cd").is_none());
    assert!(SigningKey::from_hex(&"00".repeat(32)).is_none());
    assert!(SigningKey::from_hex(&"ff".repeat(32)).is_none());
    assert!(SigningKey::from_hex(&"zz".repeat(32)).is_none());
    assert!(SigningKey::from_hex(&"cd".repeat(32)).is_some());
}

#[test]
fn public_key_is_the_one_secp256k1_derives() {
    let secret = secp256k1::SecretKey::from_slice(&[0xcd; 32]).unwrap();
    let expected = secp256k1::PublicKey::from_secret_key_global(&secret).x_only_public_key().0;
    assert_eq!(key().public_key(), expected.serialize());
    assert_ne!(key().public_key(), [0xcd; 32]);
}

#[test]
fn signs_every_input_of_a_wallet_spend() {
    let key = key();
    let wallet = wallet_address(&key);
    let destination = Address::new(Network::Testnet, AddressKind::PubKey, vec![7u8; 32]).unwrap();
    let available = vec![
        utxo(1, 60_000_000, wallet.locking_script()),
        utxo(2, 70_000_000, wallet.locking_script()),
        utxo(3, 80_000_000, wallet.locking_script()),
    ];
    let sel = select(available, 100_000_000).unwrap();
    assert_eq!(sel.inputs.len(), 2);
    let spent = vec![
        utxo(1, 60_000_000, wallet.locking_script()),
        utxo(2, 70_000_000, wallet.locking_script()),
    ];
    let pending = assemble(sel.inputs, sel.fee, sel.total_in, 100_000_000, &destination, &wallet);
    let unsigned_outputs_len = pending.unsigned.outputs.len();
    let signed = key.sign(pending).unwrap();
    assert_eq!(signed.inputs.len(), 2);
    assert_eq!(signed.outputs.len(), unsigned_outputs_len);
    for (i, input) in signed.inputs.iter().enumerate() {
        assert_eq!(input.signature_script.len(), 66);
        assert_eq!(input.signature_script[0], 65);
        assert_eq!(input.signature_script[65], 1);
        assert_eq!(input.sequence, i as u64);
        assert_eq!(input.sig_op_count, 1);
        assert_eq!(input.previous_outpoint, spent[i].outpoint);
    }
    let outside_tx = to_outside(&signed, &spent);
    assert!(kaspa_consensus_core::sign::verify(&outside_tx.as_verifiable()).is_ok());
}

#[test]
fn refuses_to_sign_an_output_of_another_key() {
    let key = key();
    let wallet = wallet_address(&key);
    let stranger = Address::new(Network::Testnet, AddressKind::PubKey, vec![9u8; 32]).unwrap();
    let available = vec![
        utxo(1, 60_000_000, wallet.locking_script()),
        utxo(2, 70_000_000, stranger.locking_script()),
    ];
    let sel = select(available, 100_000_000).unwrap();
    let pending = assemble(sel.inputs, sel.fee, sel.total_in, 100_000_000, &stranger, &wallet);
    assert_eq!(key.sign(pending), Err(SigningFailure));
}
