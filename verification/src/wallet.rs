//! The faucet's wallet: one key, the address that belongs to it, and what a
//! claim pays.

use vstd::prelude::*;
use vstd::array::array_as_slice;
use vstd::slice::slice_to_vec;
use crate::address::{Address, AddressKind, AddressView, Network};
use crate::assembler::{assemble, is_assembly};
use crate::config::Config;
use crate::fee::fee_of;
use crate::selector::{capped, is_first_cover, no_cover, select, InsufficientFunds};
use crate::signer::{
    all_locked_to,
    is_signed_form_of,
    secret_key_of_hex,
    x_only_public_key_of,
    SigningFailure,
    SigningKey,
};
use crate::transaction::{PendingTransaction, Transaction};
use crate::utxo::{total_amount, UnspentOutput};

verus! {

/// The address of the wallet that holds `key`: the test network's address
/// of the key's public key.
pub open spec fn wallet_address_of(key: Seq<u8>) -> AddressView {
    AddressView {
        network: Network::Testnet,
        kind: AddressKind::PubKey,
        payload: x_only_public_key_of(key),
    }
}

/// Why a spend did not produce a signed transaction.
#[derive(Clone, Copy, Debug, PartialEq, Eq)]
pub enum SpendError {
    InsufficientFunds(InsufficientFunds),
    SigningFailure,
}

/// Whether `signed` is the signed payment of `amount` to `destination` out
/// of `available`, by the wallet that holds `key`: it spends the shortest
/// covering prefix of `available`, is assembled from it with the change
/// going back to the wallet, and carries a signature in every input.
pub open spec fn is_spend_of(
    signed: Transaction,
    available: Seq<UnspentOutput>,
    amount: u64,
    destination: AddressView,
    key: Seq<u8>,
) -> bool {
    let k = signed.inputs@.len() as int;
    let spent = available.take(k);
    &&& is_first_cover(available, amount, k)
    &&& all_locked_to(spent, key)
    &&& exists|pending: PendingTransaction|
        {
            &&& #[trigger] is_assembly(
                pending,
                spent,
                fee_of(k as nat) as u64,
                capped(total_amount(spent)),
                amount,
                destination,
                wallet_address_of(key),
            )
            &&& is_signed_form_of(signed, pending.unsigned)
        }
}

/// The wallet that the faucet pays from. There is one for the lifetime of
/// the service.
pub struct FaucetWallet {
    address: Address,
    key: SigningKey,
    amount_per_claim: u64,
    claim_interval_seconds: u64,
}

impl FaucetWallet {
    #[verifier::type_invariant]
    spec fn well_formed(&self) -> bool {
        self.address@ == wallet_address_of(self.key@)
    }

    /// The wallet's secret key.
    pub closed spec fn key_bytes(&self) -> Seq<u8> {
        self.key@
    }

    /// What one claim pays.
    pub closed spec fn claim_amount(&self) -> u64 {
        self.amount_per_claim
    }

    /// The cooldown between two claims of one identity, in seconds.
    pub closed spec fn claim_interval(&self) -> u64 {
        self.claim_interval_seconds
    }

    /// Makes the wallet that the settings describe. Fails exactly if the
    /// private key in them is no secret key.
    pub fn from_config(config: &Config) -> (r: Option<FaucetWallet>)
        ensures
            r is Some <==> secret_key_of_hex(config.faucet_private_key@) is Some,
            r matches Some(wallet) ==> {
                &&& secret_key_of_hex(config.faucet_private_key@) == Some(wallet.key_bytes())
                &&& wallet.claim_amount() == config.amount_per_claim
                &&& wallet.claim_interval() == config.claim_interval_seconds
            },
    {
        let key = match SigningKey::from_hex(config.faucet_private_key.as_str()) {
            Some(key) => key,
            None => {
                return None;
            },
        };
        let public_key: [u8; 32] = key.public_key();
        let payload: Vec<u8> = slice_to_vec(array_as_slice(&public_key));
        match Address::new(Network::Testnet, AddressKind::PubKey, payload) {
            Some(address) => Some(
                FaucetWallet {
                    address,
                    key,
                    amount_per_claim: config.amount_per_claim,
                    claim_interval_seconds: config.claim_interval_seconds,
                },
            ),
            None => None,
        }
    }

    /// The address that funds the wallet and takes its change.
    pub fn address(&self) -> (r: &Address)
        ensures
            r@ == wallet_address_of(self.key_bytes()),
    {
        proof {
            use_type_invariant(self);
        }
        &self.address
    }

    /// What one claim pays, in base units.
    pub fn amount_per_claim(&self) -> (r: u64)
        ensures
            r == self.claim_amount(),
    {
        self.amount_per_claim
    }

    /// The cooldown between two claims of one identity, in seconds.
    pub fn claim_interval_seconds(&self) -> (r: u64)
        ensures
            r == self.claim_interval(),
    {
        self.claim_interval_seconds
    }

    /// Signs every input of `pending` with the wallet's key. Succeeds exactly
    /// if every selected output is locked to that key.
    pub fn sign(&self, pending: PendingTransaction) -> (r: Result<Transaction, SigningFailure>)
        requires
            pending.is_paired(),
        ensures
            r is Ok <==> all_locked_to(pending.selected_inputs@, self.key_bytes()),
            r matches Ok(signed) ==> is_signed_form_of(signed, pending.unsigned),
    {
        self.key.sign(pending)
    }

    /// Pays one claim to `destination` out of `available`: selects, assembles
    /// and signs. What comes back is ready to be submitted.
    ///
    /// Fails with `InsufficientFunds` exactly if nothing covers the claim, and
    /// with `SigningFailure` exactly if something does but one of the
    /// selected outputs is not locked to the wallet's key.
    pub fn spend(&self, available: Vec<UnspentOutput>, destination: &Address) -> (r: Result<
        Transaction,
        SpendError,
    >)
        ensures
            match r {
                Ok(signed) => is_spend_of(
                    signed,
                    available@,
                    self.claim_amount(),
                    destination@,
                    self.key_bytes(),
                ),
                Err(SpendError::InsufficientFunds(e)) => {
                    &&& no_cover(available@, self.claim_amount())
                    &&& e.have == capped(total_amount(available@))
                    &&& e.need == capped(self.claim_amount() as nat + fee_of(available.len() as nat))
                },
                Err(SpendError::SigningFailure) => exists|k: int|
                    {
                        &&& #[trigger] is_first_cover(available@, self.claim_amount(), k)
                        &&& !all_locked_to(available@.take(k), self.key_bytes())
                    },
            },
    {
        proof {
            use_type_invariant(self);
        }
        let amount: u64 = self.amount_per_claim;
        let selection = match select(available, amount) {
            Ok(selection) => selection,
            Err(e) => {
                return Err(SpendError::InsufficientFunds(e));
            },
        };
        let ghost k = selection.inputs@.len() as int;
        let pending = assemble(
            selection.inputs,
            selection.fee,
            selection.total_in,
            amount,
            destination,
            &self.address,
        );
        match self.sign(pending) {
            Ok(signed) => {
                assert(is_assembly(
                    pending,
                    available@.take(k),
                    fee_of(k as nat) as u64,
                    capped(total_amount(available@.take(k))),
                    amount,
                    destination@,
                    wallet_address_of(self.key@),
                ));
                Ok(signed)
            },
            Err(_) => {
                assert(is_first_cover(available@, amount, k));
                assert(pending.selected_inputs@ == available@.take(k));
                assert(!all_locked_to(available@.take(k), self.key_bytes()));
                assert(is_first_cover(available@, self.claim_amount(), k));
                Err(SpendError::SigningFailure)
            },
        }
    }
}

} // verus!
