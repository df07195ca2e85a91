//! The settings of the service.

use vstd::prelude::*;
use vstd::string::*;

verus! {

/// The settings that the service is started with. They hold the wallet's
/// key and so have no printed form.
pub struct Config {
    /// Where the node listens.
    pub kaspad_url: String,
    /// The port the service listens on.
    pub port: u16,
    /// The wallet's secret key: 32 bytes as 64 hexadecimal digits.
    pub faucet_private_key: String,
    /// What one claim pays, in base units.
    pub amount_per_claim: u64,
    /// The cooldown between two claims of one identity, in seconds.
    pub claim_interval_seconds: u64,
}

impl Default for Config {
    /// A local node, port 3010, no key yet, a thousandth of a coin per claim
    /// and one claim per hour.
    fn default() -> (r: Config)
        ensures
            r.kaspad_url@ == "127.0.0.1:16210"@,
            r.port == 3010,
            r.faucet_private_key@ == Seq::<char>::empty(),
            r.amount_per_claim == 100_000_000,
            r.claim_interval_seconds == 3600,
    {
        Config {
            kaspad_url: String::from_str("127.0.0.1:16210"),
            port: 3010,
            faucet_private_key: String::new(),
            amount_per_claim: 100_000_000,
            claim_interval_seconds: 3600,
        }
    }
}

impl Clone for Config {
    fn clone(&self) -> (r: Config)
        ensures
            r.kaspad_url@ == self.kaspad_url@,
            r.port == self.port,
            r.faucet_private_key@ == self.faucet_private_key@,
            r.amount_per_claim == self.amount_per_claim,
            r.claim_interval_seconds == self.claim_interval_seconds,
    {
        Config {
            kaspad_url: self.kaspad_url.clone(),
            port: self.port,
            faucet_private_key: self.faucet_private_key.clone(),
            amount_per_claim: self.amount_per_claim,
            claim_interval_seconds: self.claim_interval_seconds,
        }
    }
}

/// `text` with every occurrence of `pattern` taken out, found from left to
/// right and without overlap.
pub open spec fn without_all(text: Seq<char>, pattern: Seq<char>) -> Seq<char>
    decreases text.len(),
{
    if pattern.len() == 0 || text.len() < pattern.len() {
        text
    } else if text.take(pattern.len() as int) == pattern {
        without_all(text.skip(pattern.len() as int), pattern)
    } else {
        seq![text[0]] + without_all(text.skip(1), pattern)
    }
}

/// Whether `text` begins with `prefix`.
pub open spec fn begins_with(text: Seq<char>, prefix: Seq<char>) -> bool {
    text.len() >= prefix.len() && text.take(prefix.len() as int) == prefix
}

/// The URL of the node's gRPC endpoint for a node address as the settings
/// give it: the address itself where it names the gRPC scheme; else the
/// address without any `http://` and `https://` in it, with the gRPC scheme
/// in front.
pub open spec fn grpc_url_of(url: Seq<char>) -> Seq<char> {
    if begins_with(url, "grpc://"@) {
        url
    } else {
        "grpc://"@ + without_all(without_all(url, "http://"@), "https://"@)
    }
}

/// Whether `pattern` stands in `text` at position `at`.
fn occurs_at(text: &str, at: usize, pattern: &str) -> (r: bool)
    requires
        at + pattern@.len() <= text@.len(),
        text@.len() <= usize::MAX,
    ensures
        r == (text@.subrange(at as int, at + pattern@.len()) == pattern@),
{
    let m: usize = pattern.unicode_len();
    let mut j: usize = 0;
    while j < m
        invariant
            j <= m,
            m == pattern@.len(),
            at + m <= text@.len(),
            text@.len() <= usize::MAX,
            forall|k: int| 0 <= k < j ==> text@[at + k] == pattern@[k],
        decreases m - j,
    {
        if text.get_char(at + j) != pattern.get_char(j) {
            assert(text@.subrange(at as int, at + m)[j as int] != pattern@[j as int]);
            return false;
        }
        j = j + 1;
    }
    assert(text@.subrange(at as int, at + m) =~= pattern@);
    true
}

/// Takes every occurrence of `pattern` out of `text`.
pub fn strip_all(text: &str, pattern: &str) -> (r: String)
    ensures
        r@ == without_all(text@, pattern@),
{
    let n: usize = text.unicode_len();
    let m: usize = pattern.unicode_len();
    if m == 0 {
        return String::from_str(text);
    }
    let mut out = String::new();
    let mut i: usize = 0;
    assert(text@.skip(0) =~= text@);
    assert(out@ + without_all(text@, pattern@) =~= without_all(text@, pattern@));
    while i < n
        invariant
            i <= n,
            n == text@.len(),
            m == pattern@.len(),
            m > 0,
            out@ + without_all(text@.skip(i as int), pattern@) == without_all(text@, pattern@),
        decreases n - i,
    {
        let ghost rest = text@.skip(i as int);
        if n - i >= m && occurs_at(text, i, pattern) {
            assert(rest.take(m as int) =~= text@.subrange(i as int, i + m));
            assert(rest.skip(m as int) =~= text@.skip(i + m));
            i = i + m;
        } else {
            if n - i >= m {
                assert(rest.take(m as int) =~= text@.subrange(i as int, i + m));
            }
            assert(rest.skip(1) =~= text@.skip(i + 1));
            let piece = text.substring_char(i, i + 1);
            assert(piece@ =~= seq![rest[0]]);
            let ghost before = out@;
            out.append(piece);
            assert((before + seq![rest[0]]) + without_all(rest.skip(1), pattern@) =~= before + (
            seq![rest[0]] + without_all(rest.skip(1), pattern@)));
            i = i + 1;
        }
    }
    assert(text@.skip(n as int).len() == 0);
    assert(out@ + without_all(text@.skip(n as int), pattern@) =~= out@);
    out
}

impl Config {
    /// The URL of the node's gRPC endpoint.
    pub fn grpc_url(&self) -> (r: String)
        ensures
            r@ == grpc_url_of(self.kaspad_url@),
    {
        let url: &str = self.kaspad_url.as_str();
        let scheme: &str = "grpc://";
        let named: bool = url.unicode_len() >= scheme.unicode_len() && occurs_at(url, 0, scheme);
        if named {
            assert(url@.take(scheme@.len() as int) =~= url@.subrange(0int, 0int + scheme@.len()));
            String::from_str(url)
        } else {
            proof {
                if url@.len() >= scheme@.len() {
                    assert(url@.take(scheme@.len() as int) =~= url@.subrange(
                        0int,
                        0int + scheme@.len(),
                    ));
                }
            }
            let plain = strip_all(url, "http://");
            let bare = strip_all(plain.as_str(), "https://");
            let mut out = String::from_str(scheme);
            out.append(bare.as_str());
            out
        }
    }
}

} // verus!
