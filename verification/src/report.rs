//! What the service answers: the status of the faucet, the receipt of a
//! claim, and amounts written out in decimal.

use vstd::prelude::*;
use vstd::string::*;
use crate::address::address_text_of;
use crate::wallet::{wallet_address_of, FaucetWallet};

verus! {

/// The character of a decimal digit.
pub open spec fn digit_of(d: nat) -> char {
    if d == 0 {
        '0'
    } else if d == 1 {
        '1'
    } else if d == 2 {
        '2'
    } else if d == 3 {
        '3'
    } else if d == 4 {
        '4'
    } else if d == 5 {
        '5'
    } else if d == 6 {
        '6'
    } else if d == 7 {
        '7'
    } else if d == 8 {
        '8'
    } else {
        '9'
    }
}

/// A number written in decimal, without leading zeros.
pub open spec fn decimal_of(n: nat) -> Seq<char>
    decreases n,
{
    if n < 10 {
        seq![digit_of(n)]
    } else {
        decimal_of(n / 10).push(digit_of(n % 10))
    }
}

/// The text of one decimal digit.
fn digit_text(d: u64) -> (r: &'static str)
    requires
        d < 10,
    ensures
        r@ == seq![digit_of(d as nat)],
{
    proof {
        reveal_strlit("0");
        reveal_strlit("1");
        reveal_strlit("2");
        reveal_strlit("3");
        reveal_strlit("4");
        reveal_strlit("5");
        reveal_strlit("6");
        reveal_strlit("7");
        reveal_strlit("8");
        reveal_strlit("9");
    }
    let r: &'static str = if d == 0 {
        "0"
    } else if d == 1 {
        "1"
    } else if d == 2 {
        "2"
    } else if d == 3 {
        "3"
    } else if d == 4 {
        "4"
    } else if d == 5 {
        "5"
    } else if d == 6 {
        "6"
    } else if d == 7 {
        "7"
    } else if d == 8 {
        "8"
    } else {
        "9"
    };
    assert(r@ =~= seq![digit_of(d as nat)]);
    r
}

/// Writes an amount in decimal.
pub fn decimal(n: u64) -> (r: String)
    ensures
        r@ == decimal_of(n as nat),
    decreases n,
{
    if n < 10 {
        String::from_str(digit_text(n))
    } else {
        let mut text = decimal(n / 10);
        text.append(digit_text(n % 10));
        text
    }
}

/// The answer to a status query.
#[derive(Debug, PartialEq, Eq)]
pub struct StatusResponse {
    pub active: bool,
    pub faucet_address: String,
    /// The wallet's balance in base units, in decimal.
    pub balance_kas: String,
    pub next_claim_seconds: u64,
}

/// The answer to a claim that succeeded.
#[derive(Debug, PartialEq, Eq)]
pub struct ClaimResponse {
    pub transaction_id: String,
    /// What the claim paid in base units, in decimal.
    pub amount_kas: String,
    pub next_claim_seconds: u64,
}

/// The status of the faucet, given the balance that the node reports for
/// the wallet.
pub fn status_response(wallet: &FaucetWallet, balance: u64) -> (r: StatusResponse)
    ensures
        r.active,
        r.faucet_address@ == address_text_of(wallet_address_of(wallet.key_bytes())),
        r.balance_kas@ == decimal_of(balance as nat),
        r.next_claim_seconds == wallet.claim_interval(),
{
    StatusResponse {
        active: true,
        faucet_address: wallet.address().to_text(),
        balance_kas: decimal(balance),
        next_claim_seconds: wallet.claim_interval_seconds(),
    }
}

/// The receipt of a claim of `amount` that the node took under
/// `transaction_id`.
pub fn claim_response(amount: u64, next_claim_seconds: u64, transaction_id: String) -> (r:
    ClaimResponse)
    ensures
        r.transaction_id == transaction_id,
        r.amount_kas@ == decimal_of(amount as nat),
        r.next_claim_seconds == next_claim_seconds,
{
    ClaimResponse { transaction_id, amount_kas: decimal(amount), next_claim_seconds }
}

} // verus!
