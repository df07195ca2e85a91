use kaspa_faucet::address::{Address, AddressKind, Network};
use kaspa_faucet::config::Config;
use kaspa_faucet::selector::InsufficientFunds;
use kaspa_faucet::utxo::{Outpoint, Script, UnspentOutput};
use kaspa_faucet::wallet::{FaucetWallet, SpendError};

fn config(key: &str, amount: u64) -> Config {
    let mut config = Config::default();
    config.faucet_private_key = key.to_string();
    config.amount_per_claim = amount;
    config
}

fn wallet(amount: u64) -> FaucetWallet {
    FaucetWallet::from_config(&config(&"cd".repeat(32), amount)).unwrap()
}

fn utxo(tag: u8, amount: u64, script: Script) -> UnspentOutput {
    UnspentOutput {
        outpoint: Outpoint { transaction_id: [tag; 32], index: tag as u32 },
        amount,
        script,
        block_daa_score: 3,
        is_coinbase: true,
    }
}

fn destination() -> Address {
    Address::new(Network::Testnet, AddressKind::PubKey, vec![0x11; 32]).unwrap()
}

#[test]
fn a_wallet_needs_a_secret_key() {
    assert!(FaucetWallet::from_config(&Config::default()).is_none());
    assert!(FaucetWallet::from_config(&config("not a key", 1)).is_none());
    assert!(FaucetWallet::from_config(&config(&"00".repeat(32), 1)).is_none());
    assert!(FaucetWallet::from_config(&config(&"cd".repeat(31), 1)).is_none());
    assert!(FaucetWallet::from_config(&config(&"cd".repeat(32), 1)).is_some());
    assert!(FaucetWallet::from_config(&config(&"CD".repeat(32), 1)).is_some());
}

#[test]
fn the_wallet_carries_the_settings() {
    let mut settings = config(&"cd".repeat(32), 123);
    settings.claim_interval_seconds = 77;
    let wallet = FaucetWallet::from_config(&settings).unwrap();
    assert_eq!(wallet.amount_per_claim(), 123);
    assert_eq!(wallet.claim_interval_seconds(), 77);
}

#[test]
fn the_wallet_address_is_the_test_network_address_of_the_public_key() {
    let wallet = wallet(1);
    let secret = secp256k1::SecretKey::from_slice(&[0xcd; 32]).unwrap();
    let public = secp256k1::PublicKey::from_secret_key_global(&secret).x_only_public_key().0;
    let expected = kaspa_addresses::Address::new(
        kaspa_addresses::Prefix::Testnet,
        kaspa_addresses::Version::PubKey,
        &public.serialize(),
    );
    assert_eq!(wallet.address().network(), Network::Testnet);
    assert_eq!(wallet.address().kind(), AddressKind::PubKey);
    assert_eq!(wallet.address().payload().as_slice(), public.serialize().as_slice());
    assert_eq!(wallet.address().to_text(), expected.to_string());
}

#[test]
fn spend_selects_assembles_and_signs() {
    let wallet = wallet(100_000_000);
    let script = || wallet.address().locking_script();
    let available = vec![utxo(1, 500_000_000, script()), utxo(2, 400_000_000, script())];
    let signed = wallet.spend(available, &destination()).unwrap();
    assert_eq!(signed.inputs.len(), 1);
    assert_eq!(signed.inputs[0].previous_outpoint, Outpoint { transaction_id: [1; 32], index: 1 });
    assert_eq!(signed.inputs[0].signature_script.len(), 66);
    assert_eq!(signed.outputs.len(), 2);
    assert_eq!(signed.outputs[0].value, 100_000_000);
    assert_eq!(signed.outputs[0].script, destination().locking_script());
    assert_eq!(signed.outputs[1].value, 399_996_000);
    assert_eq!(signed.outputs[1].script, script());
}

#[test]
fn spend_fails_when_the_wallet_is_short() {
    let wallet = wallet(100_000_000);
    let script = || wallet.address().locking_script();
    assert_eq!(
        wallet.spend(Vec::new(), &destination()),
        Err(SpendError::InsufficientFunds(InsufficientFunds { have: 0, need: 100_002_000 }))
    );
    assert_eq!(
        wallet.spend(vec![utxo(1, 100_003_999, script())], &destination()),
        Err(SpendError::InsufficientFunds(InsufficientFunds {
            have: 100_003_999,
            need: 100_004_000
        }))
    );
}

#[test]
fn spend_fails_on_outputs_of_another_key() {
    let wallet = wallet(100_000_000);
    let available = vec![utxo(1, 500_000_000, destination().locking_script())];
    assert_eq!(wallet.spend(available, &destination()), Err(SpendError::SigningFailure));
}
