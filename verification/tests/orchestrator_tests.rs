use kaspa_faucet::address::{Address, AddressKind, Network};
use kaspa_faucet::claim::{ClaimAction, ClaimError, ClaimEvent, ClaimState};
use kaspa_faucet::config::Config;
use kaspa_faucet::orchestrator::{Claim, ClaimRequest};
use kaspa_faucet::rate_limiter::RateLimiter;
use kaspa_faucet::utxo::{Outpoint, Script, UnspentOutput};
use kaspa_faucet::wallet::FaucetWallet;
use std::time::Duration;

fn wallet() -> FaucetWallet {
    let mut config = Config::default();
    config.faucet_private_key = "cd".repeat(32);
    FaucetWallet::from_config(&config).unwrap()
}

fn destination() -> Address {
    Address::new(Network::Testnet, AddressKind::PubKey, vec![0x11; 32]).unwrap()
}

fn request(wallet: &FaucetWallet, identity: &str) -> ClaimRequest {
    ClaimRequest {
        identity: identity.to_string(),
        destination_address: destination().to_text(),
        requested_amount: wallet.amount_per_claim(),
    }
}

fn utxo(tag: u8, amount: u64, script: Script) -> UnspentOutput {
    UnspentOutput {
        outpoint: Outpoint { transaction_id: [tag; 32], index: tag as u32 },
        amount,
        script,
        block_daa_score: 3,
        is_coinbase: false,
    }
}

fn guard() -> RateLimiter {
    RateLimiter::new(Duration::from_secs(3600))
}

/// Brings a claim to the point where it waits for the wallet's outputs.
fn locked(wallet: &FaucetWallet, guard: &RateLimiter) -> Claim {
    let claim = Claim::receive(request(wallet, "203.0.113.5"));
    assert_eq!(claim.state(), ClaimState::Received);
    assert_eq!(claim.action(), ClaimAction::ValidateAddress);
    let claim = claim.validate_address();
    assert_eq!(claim.state(), ClaimState::AddressValidated);
    assert_eq!(claim.action(), ClaimAction::ConsultGuard);
    let claim = claim.consult_guard(guard);
    assert_eq!(claim.state(), ClaimState::GuardChecked);
    assert_eq!(claim.action(), ClaimAction::AcquireWalletLock);
    let claim = claim.notify(ClaimEvent::LockAcquired);
    assert_eq!(claim.state(), ClaimState::WalletLockAcquired);
    assert_eq!(claim.action(), ClaimAction::FetchUtxos);
    claim
}

#[test]
fn a_claim_runs_from_request_to_receipt() {
    let wallet = wallet();
    let script = || wallet.address().locking_script();
    let claim = locked(&wallet, &guard());
    let claim =
        claim.utxos_received(vec![utxo(1, 500_000_000, script()), utxo(2, 400_000_000, script())]);
    assert_eq!(claim.state(), ClaimState::UtxosFetched);
    let claim = claim.select_inputs();
    assert_eq!(claim.state(), ClaimState::Selected);
    let claim = claim.assemble_transaction(&wallet);
    assert_eq!(claim.state(), ClaimState::Assembled);
    assert!(claim.signed_transaction().is_none());
    let claim = claim.sign_transaction(&wallet);
    assert_eq!(claim.state(), ClaimState::Signed);
    assert_eq!(claim.action(), ClaimAction::SubmitTransaction);
    let signed = claim.signed_transaction().unwrap();
    assert_eq!(signed.inputs.len(), 1);
    assert_eq!(signed.inputs[0].signature_script.len(), 66);
    assert_eq!(signed.outputs.len(), 2);
    assert_eq!(signed.outputs[0].value, 100_000_000);
    assert_eq!(signed.outputs[0].script, destination().locking_script());
    assert_eq!(signed.outputs[1].value, 399_996_000);
    assert_eq!(signed.outputs[1].script, script());
    let claim = claim.submission_accepted("f00d".to_string());
    assert_eq!(claim.state(), ClaimState::Submitted);
    assert_eq!(claim.action(), ClaimAction::ReleaseWalletLock);
    let claim = claim.notify(ClaimEvent::LockReleased);
    assert_eq!(claim.state(), ClaimState::Succeeded);
    assert_eq!(claim.action(), ClaimAction::Respond);
    assert_eq!(claim.identity(), "203.0.113.5");
    assert_eq!(claim.amount(), 100_000_000);
    let receipt = claim.outcome(3600).unwrap().unwrap();
    assert_eq!(receipt.transaction_id, "f00d");
    assert_eq!(receipt.amount_kas, "100000000");
    assert_eq!(receipt.next_claim_seconds, 3600);
}

#[test]
fn a_claim_with_a_bad_address_ends_before_the_guard() {
    let wallet = wallet();
    let guard = guard();
    let mut bad = request(&wallet, "203.0.113.5");
    bad.destination_address = "kaspatest:nonsense".to_string();
    let claim = Claim::receive(bad).validate_address();
    assert_eq!(claim.state(), ClaimState::Failed(ClaimError::InvalidAddress));
    assert_eq!(claim.action(), ClaimAction::Respond);
    // the guard is not asked: the identity is still free to claim
    let claim = claim.consult_guard(&guard);
    assert_eq!(claim.state(), ClaimState::Failed(ClaimError::InvalidAddress));
    assert!(guard.try_claim("203.0.113.5"));
    assert_eq!(claim.outcome(3600), Some(Err(ClaimError::InvalidAddress)));
}

#[test]
fn a_second_claim_of_the_same_identity_is_rate_limited() {
    let wallet = wallet();
    let guard = guard();
    let first = Claim::receive(request(&wallet, "203.0.113.5")).validate_address().consult_guard(&guard);
    assert_eq!(first.state(), ClaimState::GuardChecked);
    let second =
        Claim::receive(request(&wallet, "203.0.113.5")).validate_address().consult_guard(&guard);
    assert_eq!(second.state(), ClaimState::Failed(ClaimError::RateLimited));
    assert_eq!(second.action(), ClaimAction::Respond);
    let other = Claim::receive(request(&wallet, "203.0.113.6")).validate_address().consult_guard(&guard);
    assert_eq!(other.state(), ClaimState::GuardChecked);
}

#[test]
fn a_node_failure_releases_the_lock() {
    let wallet = wallet();
    let claim = locked(&wallet, &guard()).notify(ClaimEvent::NodeFailed);
    assert_eq!(claim.state(), ClaimState::Failed(ClaimError::NodeUnavailable));
    assert_eq!(claim.action(), ClaimAction::ReleaseWalletLockAndRespond);
    assert_eq!(claim.outcome(1), Some(Err(ClaimError::NodeUnavailable)));
}

#[test]
fn an_empty_wallet_fails_the_claim_with_what_is_needed() {
    let wallet = wallet();
    let claim = locked(&wallet, &guard()).utxos_received(Vec::new()).select_inputs();
    let reason = ClaimError::InsufficientFunds { have: 0, need: 100_002_000 };
    assert_eq!(claim.state(), ClaimState::Failed(reason));
    assert_eq!(claim.action(), ClaimAction::ReleaseWalletLockAndRespond);
    assert_eq!(claim.outcome(1), Some(Err(reason)));
}

#[test]
fn outputs_of_another_key_fail_the_claim_at_signing() {
    let wallet = wallet();
    let claim = locked(&wallet, &guard())
        .utxos_received(vec![utxo(1, 500_000_000, destination().locking_script())])
        .select_inputs()
        .assemble_transaction(&wallet)
        .sign_transaction(&wallet);
    assert_eq!(claim.state(), ClaimState::Failed(ClaimError::SigningFailure));
    assert_eq!(claim.action(), ClaimAction::ReleaseWalletLockAndRespond);
    assert!(claim.signed_transaction().is_none());
}

#[test]
fn a_refused_submission_fails_the_claim() {
    let wallet = wallet();
    let claim = locked(&wallet, &guard())
        .utxos_received(vec![utxo(1, 500_000_000, wallet.address().locking_script())])
        .select_inputs()
        .assemble_transaction(&wallet)
        .sign_transaction(&wallet)
        .notify(ClaimEvent::SubmissionFailed);
    assert_eq!(claim.state(), ClaimState::Failed(ClaimError::SubmissionFailure));
    assert_eq!(claim.action(), ClaimAction::ReleaseWalletLockAndRespond);
}

#[test]
fn steps_that_are_not_due_change_nothing() {
    let wallet = wallet();
    let guard = guard();
    let claim = Claim::receive(request(&wallet, "203.0.113.9"))
        .consult_guard(&guard)
        .select_inputs()
        .assemble_transaction(&wallet)
        .sign_transaction(&wallet)
        .utxos_received(Vec::new())
        .submission_accepted("f00d".to_string())
        .notify(ClaimEvent::LockAcquired)
        .notify(ClaimEvent::LockReleased)
        .notify(ClaimEvent::GuardAdmitted);
    assert_eq!(claim.state(), ClaimState::Received);
    assert_eq!(claim.action(), ClaimAction::ValidateAddress);
    assert!(guard.try_claim("203.0.113.9"));
    assert_eq!(claim.outcome(1), None);
    let claim = locked(&wallet, &guard).notify(ClaimEvent::SubmissionFailed);
    assert_eq!(claim.state(), ClaimState::WalletLockAcquired);
    assert_eq!(claim.action(), ClaimAction::FetchUtxos);
}
