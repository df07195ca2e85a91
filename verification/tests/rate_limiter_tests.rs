use kaspa_faucet::rate_limiter::{ClaimLedger, RateLimiter};
use std::time::{Duration, Instant};

#[test]
fn second_claim_inside_the_cooldown_is_rejected() {
    let mut ledger = ClaimLedger::new(3600);
    assert!(ledger.try_claim_at("203.0.113.5", 0));
    assert!(!ledger.try_claim_at("203.0.113.5", 1800));
    assert_eq!(ledger.last_claim_of("203.0.113.5"), Some(0));
    assert!(ledger.try_claim_at("203.0.113.5", 3601));
    assert_eq!(ledger.last_claim_of("203.0.113.5"), Some(3601));
}

#[test]
fn the_cooldown_ends_exactly_on_time() {
    let mut ledger = ClaimLedger::new(3600);
    assert!(ledger.try_claim_at("x", 100));
    assert!(!ledger.try_claim_at("x", 3699));
    assert!(ledger.try_claim_at("x", 3700));
}

#[test]
fn a_rejected_claim_leaves_no_trace() {
    let mut ledger = ClaimLedger::new(10);
    assert!(ledger.try_claim_at("x", 0));
    assert!(!ledger.try_claim_at("x", 9));
    // had the rejected claim been recorded, this one would be rejected too
    assert!(ledger.try_claim_at("x", 10));
    assert_eq!(ledger.last_claim_of("y"), None);
}

#[test]
fn distinct_identities_are_admitted_independently() {
    let mut ledger = ClaimLedger::new(3600);
    for i in 0..50u32 {
        assert!(ledger.try_claim_at(&format!("10.0.0.{i}"), 5));
    }
    for i in 0..50u32 {
        assert!(!ledger.try_claim_at(&format!("10.0.0.{i}"), 6));
    }
}

#[test]
fn one_identity_gets_one_claim_per_cooldown() {
    let mut ledger = ClaimLedger::new(1000);
    let admitted = (0..100u128).filter(|t| ledger.try_claim_at("same", 500 + *t)).count();
    assert_eq!(admitted, 1);
}

#[test]
fn a_clock_that_reads_earlier_counts_as_no_time_passed() {
    let mut ledger = ClaimLedger::new(10);
    assert!(ledger.try_claim_at("x", 100));
    assert!(!ledger.try_claim_at("x", 50));
    let mut free = ClaimLedger::new(0);
    assert!(free.try_claim_at("x", 100));
    assert!(free.try_claim_at("x", 50));
    assert_eq!(free.last_claim_of("x"), Some(50));
}

#[test]
fn limiter_rejects_an_immediate_repeat() {
    let limiter = RateLimiter::new(Duration::from_secs(3600));
    assert!(limiter.try_claim("203.0.113.5"));
    assert!(!limiter.try_claim("203.0.113.5"));
    assert!(limiter.try_claim("203.0.113.6"));
    assert!(!limiter.try_claim("203.0.113.6"));
}

#[test]
fn limiter_admits_again_after_the_interval() {
    let limiter = RateLimiter::new(Duration::from_millis(30));
    assert!(limiter.try_claim("a"));
    assert!(!limiter.try_claim("a"));
    let start = Instant::now();
    while start.elapsed() < Duration::from_millis(60) {}
    assert!(limiter.try_claim("a"));
}

#[test]
fn limiter_without_cooldown_admits_every_claim() {
    let limiter = RateLimiter::new(Duration::from_secs(0));
    assert!(limiter.try_claim("a"));
    assert!(limiter.try_claim("a"));
}

fn shareable<T: Send + Sync + 'static>() {}

#[test]
fn limiter_can_be_shared_between_threads() {
    shareable::<RateLimiter>();
    shareable::<kaspa_faucet::wallet::FaucetWallet>();
}
