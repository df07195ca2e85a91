//! The wallet's secret key and the signatures it makes.
//!
//! Keys are checked and public keys derived by `secp256k1`; transactions
//! are signed by `kaspa_consensus_core`. The private functions at the end of
//! this file make those calls; their contracts are taken on trust.

use vstd::prelude::*;
use crate::transaction::{PendingTransaction, Transaction, TxInput, TxOutput};
use crate::utxo::UnspentOutput;
use kaspa_consensus_core::subnets::SubnetworkId;
use kaspa_consensus_core::tx::{ScriptPublicKey, SignableTransaction, TransactionOutpoint};
use std::str::FromStr;

verus! {

/// The secret key that `secp256k1` reads from a text of hexadecimal digits,
/// or `None` where it rejects the text.
pub uninterp spec fn secret_key_of_hex(hex: Seq<char>) -> Option<Seq<u8>>;

/// The 32 bytes of the x-only public key that belongs to a secret key.
pub uninterp spec fn x_only_public_key_of(key: Seq<u8>) -> Seq<u8>;

/// Whether `key` is the 32 bytes of a secret key: whether some text reads
/// as it.
pub open spec fn is_secret_key(key: Seq<u8>) -> bool {
    exists|hex: Seq<char>| #[trigger] secret_key_of_hex(hex) == Some(key)
}

/// The script of an output that the holder of `key` can spend with a
/// Schnorr signature: the public key pushed as data, then the signature
/// check.
pub open spec fn script_of_key(key: Seq<u8>) -> Seq<u8> {
    seq![0x20u8] + x_only_public_key_of(key) + seq![0xacu8]
}

/// Whether every one of `outputs` is locked to `key`.
pub open spec fn all_locked_to(outputs: Seq<UnspentOutput>, key: Seq<u8>) -> bool {
    forall|i: int| 0 <= i < outputs.len() ==> (#[trigger] outputs[i]).script.bytes@ == script_of_key(key)
}

/// Whether `script` has the form of a signature script: the push of 65
/// bytes, a signature of 64 bytes, and the byte that says that the
/// signature covers the whole transaction.
pub open spec fn is_signature_script(script: Seq<u8>) -> bool {
    &&& script.len() == 66
    &&& script[0] == 65
    &&& script[65] == 1
}

/// Whether `signed` is `unsigned` with a signature script in every input
/// and nothing else changed.
pub open spec fn is_signed_form_of(signed: Transaction, unsigned: Transaction) -> bool {
    &&& signed.version == unsigned.version
    &&& signed.outputs == unsigned.outputs
    &&& signed.lock_time == unsigned.lock_time
    &&& signed.subnetwork_id == unsigned.subnetwork_id
    &&& signed.gas == unsigned.gas
    &&& signed.payload == unsigned.payload
    &&& signed.inputs@.len() == unsigned.inputs@.len()
    &&& forall|i: int|
        0 <= i < unsigned.inputs@.len() ==> {
            &&& (#[trigger] signed.inputs@[i]).previous_outpoint
                == unsigned.inputs@[i].previous_outpoint
            &&& signed.inputs@[i].sequence == unsigned.inputs@[i].sequence
            &&& signed.inputs@[i].sig_op_count == unsigned.inputs@[i].sig_op_count
            &&& is_signature_script(signed.inputs@[i].signature_script@)
        }
}

/// The signer could not sign every input: some selected output is not
/// locked to the wallet's key.
#[derive(Clone, Copy, Debug, PartialEq, Eq, Structural)]
pub struct SigningFailure;

/// A secret key. It has no text form and is never printed.
pub struct SigningKey {
    bytes: [u8; 32],
}

impl View for SigningKey {
    type V = Seq<u8>;

    closed spec fn view(&self) -> Seq<u8> {
        self.bytes@
    }
}

impl SigningKey {
    #[verifier::type_invariant]
    spec fn well_formed(&self) -> bool {
        is_secret_key(self.bytes@)
    }

    /// Reads a key from 64 hexadecimal digits. Fails where the text is no
    /// such thing or the number it spells is no secret key.
    pub fn from_hex(hex: &str) -> (r: Option<SigningKey>)
        ensures
            r is Some <==> secret_key_of_hex(hex@) is Some,
            r matches Some(key) ==> secret_key_of_hex(hex@) == Some(key@),
    {
        match secret_key_from_hex(hex) {
            Ok(bytes) => {
                assert(is_secret_key(bytes@));
                Some(SigningKey { bytes })
            },
            Err(_) => None,
        }
    }

    /// The x-only public key that belongs to this key.
    pub fn public_key(&self) -> (r: [u8; 32])
        ensures
            r@ == x_only_public_key_of(self@),
    {
        proof {
            use_type_invariant(self);
        }
        x_only_public_key(&self.bytes)
    }

    /// Signs every input of `pending`.
    ///
    /// Succeeds exactly if every selected output is locked to this key. The
    /// signatures themselves are made with fresh randomness: what is known
    /// of them is their form.
    pub fn sign(&self, pending: PendingTransaction) -> (r: Result<Transaction, SigningFailure>)
        requires
            pending.is_paired(),
        ensures
            r is Ok <==> all_locked_to(pending.selected_inputs@, self@),
            r matches Ok(signed) ==> is_signed_form_of(signed, pending.unsigned),
    {
        proof {
            use_type_invariant(self);
        }
        let scripts = match schnorr_signatures(&pending, &self.bytes) {
            Ok(scripts) => scripts,
            Err(_) => {
                return Err(SigningFailure);
            },
        };
        let unsigned = pending.unsigned;
        let mut inputs: Vec<TxInput> = Vec::new();
        let mut i: usize = 0;
        while i < unsigned.inputs.len()
            invariant
                i <= unsigned.inputs.len(),
                scripts@.len() == unsigned.inputs@.len(),
                inputs@.len() == i,
                forall|j: int|
                    0 <= j < scripts@.len() ==> is_signature_script((#[trigger] scripts@[j])@),
                forall|j: int|
                    0 <= j < i ==> {
                        &&& (#[trigger] inputs@[j]).previous_outpoint
                            == unsigned.inputs@[j].previous_outpoint
                        &&& inputs@[j].sequence == unsigned.inputs@[j].sequence
                        &&& inputs@[j].sig_op_count == unsigned.inputs@[j].sig_op_count
                        &&& is_signature_script(inputs@[j].signature_script@)
                    },
            decreases unsigned.inputs.len() - i,
        {
            let script: Vec<u8> = scripts[i].clone();
            assert(script@ =~= scripts@[i as int]@);
            inputs.push(
                TxInput {
                    previous_outpoint: unsigned.inputs[i].previous_outpoint,
                    signature_script: script,
                    sequence: unsigned.inputs[i].sequence,
                    sig_op_count: unsigned.inputs[i].sig_op_count,
                },
            );
            i = i + 1;
        }
        Ok(
            Transaction {
                version: unsigned.version,
                inputs,
                outputs: unsigned.outputs,
                lock_time: unsigned.lock_time,
                subnetwork_id: unsigned.subnetwork_id,
                gas: unsigned.gas,
                payload: unsigned.payload,
            },
        )
    }
}

/// `secp256k1::Error`, the reason a key was rejected. Nothing is known of what it
/// holds.
#[verifier::external_type_specification]
#[verifier::external_body]
pub struct ExKeyError(secp256k1::Error);

/// `kaspa_consensus_core::sign::Error`, the reason a signing failed. Nothing is known of what it
/// holds.
#[verifier::external_type_specification]
#[verifier::external_body]
pub struct ExSignError(kaspa_consensus_core::sign::Error);

/// `kaspa_consensus_core::tx::TransactionInput`. Nothing is known of what it
/// holds.
#[verifier::external_type_specification]
#[verifier::external_body]
pub struct ExTransactionInput(kaspa_consensus_core::tx::TransactionInput);

/// `kaspa_consensus_core::tx::TransactionOutput`. Nothing is known of what it
/// holds.
#[verifier::external_type_specification]
#[verifier::external_body]
pub struct ExTransactionOutput(kaspa_consensus_core::tx::TransactionOutput);

/// `kaspa_consensus_core::tx::UtxoEntry`. Nothing is known of what it
/// holds.
#[verifier::external_type_specification]
#[verifier::external_body]
pub struct ExUtxoEntry(kaspa_consensus_core::tx::UtxoEntry);

/// Calls `secp256k1::SecretKey::from_str`.
///
/// Trusted: the result is the same for the same text.
#[verifier::external_body]
fn secret_key_from_hex(hex: &str) -> (r: Result<[u8; 32], secp256k1::Error>)
    ensures
        match r {
            Ok(bytes) => secret_key_of_hex(hex@) == Some(bytes@),
            Err(_) => secret_key_of_hex(hex@) is None,
        },
{
    Ok(secp256k1::SecretKey::from_str(hex)?.secret_bytes())
}

/// Calls `secp256k1::PublicKey::from_secret_key_global` and
/// `x_only_public_key` on the result.
///
/// Trusted: the result is the same for the same key. Bytes that are no
/// secret key are kept out: on them the first step fails.
#[verifier::external_body]
fn x_only_public_key(key: &[u8; 32]) -> (r: [u8; 32])
    requires
        is_secret_key(key@),
    ensures
        r@ == x_only_public_key_of(key@),
{
    let secret = secp256k1::SecretKey::from_slice(key).unwrap();
    secp256k1::PublicKey::from_secret_key_global(&secret).x_only_public_key().0.serialize()
}

/// Makes a `kaspa_consensus_core` input out of the same fields.
#[verifier::external_body]
fn outside_input(input: &TxInput) -> kaspa_consensus_core::tx::TransactionInput {
    let id = kaspa_hashes::Hash::from_bytes(input.previous_outpoint.transaction_id);
    let outpoint = TransactionOutpoint::new(id, input.previous_outpoint.index);
    kaspa_consensus_core::tx::TransactionInput::new(
        outpoint,
        input.signature_script.clone(),
        input.sequence,
        input.sig_op_count,
    )
}

/// Makes a `kaspa_consensus_core` output out of the same fields.
#[verifier::external_body]
fn outside_output(output: &TxOutput) -> kaspa_consensus_core::tx::TransactionOutput {
    let script = ScriptPublicKey::from_vec(output.script.version, output.script.bytes.clone());
    kaspa_consensus_core::tx::TransactionOutput::new(output.value, script)
}

/// Makes a `kaspa_consensus_core` entry out of the same fields.
#[verifier::external_body]
fn outside_entry(spent: &UnspentOutput) -> kaspa_consensus_core::tx::UtxoEntry {
    let script = ScriptPublicKey::from_vec(spent.script.version, spent.script.bytes.clone());
    kaspa_consensus_core::tx::UtxoEntry::new(
        spent.amount,
        script,
        spent.block_daa_score,
        spent.is_coinbase,
    )
}

/// Calls `kaspa_consensus_core::sign::sign_with_multiple_v2` with the one
/// key, and hands back the signature script of each input.
///
/// Trusted, as the source of that function shows: an input is signed
/// exactly if the script of the output it spends is the script of the key;
/// the call succeeds exactly if every input was signed; and a signature
/// script is the push of 65 bytes, the 64 bytes of the signature and the
/// byte 1. It asserts one entry per input and unwraps the key: inputs that
/// break either are kept out.
#[verifier::external_body]
fn schnorr_signatures(pending: &PendingTransaction, key: &[u8; 32]) -> (r: Result<
    Vec<Vec<u8>>,
    kaspa_consensus_core::sign::Error,
>)
    requires
        pending.is_paired(),
        is_secret_key(key@),
    ensures
        r is Ok <==> all_locked_to(pending.selected_inputs@, key@),
        r matches Ok(scripts) ==> {
            &&& scripts@.len() == pending.unsigned.inputs@.len()
            &&& forall|i: int|
                0 <= i < scripts@.len() ==> is_signature_script((#[trigger] scripts@[i])@)
        },
{
    let unsigned = kaspa_consensus_core::tx::Transaction::new(
        pending.unsigned.version,
        pending.unsigned.inputs.iter().map(outside_input).collect(),
        pending.unsigned.outputs.iter().map(outside_output).collect(),
        pending.unsigned.lock_time,
        SubnetworkId::from_bytes(pending.unsigned.subnetwork_id),
        pending.unsigned.gas,
        pending.unsigned.payload.clone(),
    );
    let entries = pending.selected_inputs.iter().map(outside_entry).collect();
    let signable = SignableTransaction::with_entries(unsigned, entries);
    let keys = std::slice::from_ref(key);
    let signed = kaspa_consensus_core::sign::sign_with_multiple_v2(signable, keys).fully_signed()?;
    Ok(signed.tx.inputs.into_iter().map(|input| input.signature_script).collect())
}

} // verus!
