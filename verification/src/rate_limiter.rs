//! The claim guard: one cooldown for all identities, one timestamp per
//! identity.
//!
//! `ClaimLedger` is the rule itself, on plain timestamps. `RateLimiter` puts
//! a ledger behind a lock and reads the clock, so that it can be shared.

use vstd::prelude::*;
use vstd::hash_map::StringHashMap;
use vstd::rwlock::RwLock;
use core::time::Duration;
use std::time::Instant;

verus! {

/// The time that has passed at `now` since `last`; none if the clock reads
/// earlier than `last`.
pub open spec fn elapsed_between(last: u128, now: u128) -> nat {
    if now >= last {
        (now - last) as nat
    } else {
        0
    }
}

/// Whether a claim by `identity` at `now` is admitted: it is unless the
/// identity has a recorded claim and less than `cooldown` has passed since.
pub open spec fn admits(
    claims: Map<Seq<char>, u128>,
    cooldown: u128,
    identity: Seq<char>,
    now: u128,
) -> bool {
    claims.contains_key(identity) ==> elapsed_between(claims[identity], now) >= cooldown
}

/// The recorded claims after a claim by `identity` at `now`: an admitted
/// claim is recorded, a rejected one changes nothing.
pub open spec fn claims_after(
    claims: Map<Seq<char>, u128>,
    cooldown: u128,
    identity: Seq<char>,
    now: u128,
) -> Map<Seq<char>, u128> {
    if admits(claims, cooldown, identity, now) {
        claims.insert(identity, now)
    } else {
        claims
    }
}

/// The time of the last admitted claim of each identity, and the cooldown
/// that all of them share.
pub struct ClaimLedger {
    last_claim: StringHashMap<u128>,
    cooldown: u128,
}

impl View for ClaimLedger {
    type V = Map<Seq<char>, u128>;

    closed spec fn view(&self) -> Map<Seq<char>, u128> {
        self.last_claim@
    }
}

impl ClaimLedger {
    /// The time that must pass between two admitted claims of one identity.
    pub closed spec fn cooldown(&self) -> u128 {
        self.cooldown
    }

    /// An empty ledger with the given cooldown.
    pub fn new(cooldown: u128) -> (r: ClaimLedger)
        ensures
            r.cooldown() == cooldown,
            r@ == Map::<Seq<char>, u128>::empty(),
    {
        ClaimLedger { last_claim: StringHashMap::new(), cooldown }
    }

    /// Decides a claim by `identity` at time `now`, and records it if it is
    /// admitted.
    pub fn try_claim_at(&mut self, identity: &str, now: u128) -> (admitted: bool)
        ensures
            admitted == admits(old(self)@, old(self).cooldown(), identity@, now),
            final(self)@ == claims_after(old(self)@, old(self).cooldown(), identity@, now),
            final(self).cooldown() == old(self).cooldown(),
    {
        let blocked: bool = match self.last_claim.get(identity) {
            Some(last) => {
                let passed: u128 = if now >= *last {
                    now - *last
                } else {
                    0
                };
                passed < self.cooldown
            },
            None => false,
        };
        if blocked {
            false
        } else {
            self.last_claim.insert(identity.to_owned(), now);
            true
        }
    }

    /// The time of the last admitted claim of `identity`, if there is one.
    pub fn last_claim_of(&self, identity: &str) -> (r: Option<u128>)
        ensures
            r is Some <==> self@.contains_key(identity@),
            r matches Some(t) ==> t == self@[identity@],
    {
        match self.last_claim.get(identity) {
            Some(last) => Some(*last),
            None => None,
        }
    }
}

/// The length of a `Duration` in nanoseconds.
pub uninterp spec fn nanos_of(interval: Duration) -> u128;

/// `std::time::Instant`, a reading of the monotonic clock. Nothing is known
/// of what it holds.
#[verifier::external_type_specification]
#[verifier::external_body]
pub struct ExInstant(Instant);

/// `Duration::as_nanos` returns the whole length in nanoseconds.
pub assume_specification[ Duration::as_nanos ](interval: &Duration) -> (r: u128)
    ensures
        r == nanos_of(*interval),
;

/// `Instant::now` reads the monotonic clock: nothing is known of the result.
pub assume_specification[ Instant::now ]() -> (r: Instant);

/// `Instant::elapsed` measures against the clock: nothing is known of the
/// result.
pub assume_specification[ Instant::elapsed ](start: &Instant) -> (r: Duration);

/// A claim ledger that can be shared: each decision is taken under a lock,
/// at the time the clock shows once the lock is held.
pub struct RateLimiter {
    claims: RwLock<ClaimLedger, spec_fn(ClaimLedger) -> bool>,
    started: Instant,
    cooldown: u128,
}

impl RateLimiter {
    #[verifier::type_invariant]
    spec fn well_formed(&self) -> bool {
        forall|ledger: ClaimLedger| #[trigger]
            self.claims.inv(ledger) <==> ledger.cooldown() == self.cooldown
    }

    /// The cooldown between two admitted claims of one identity, in
    /// nanoseconds.
    pub closed spec fn cooldown_nanos(&self) -> u128 {
        self.cooldown
    }

    /// A limiter without recorded claims that keeps `interval` between two
    /// admitted claims of one identity.
    pub fn new(interval: Duration) -> (r: RateLimiter)
        ensures
            r.cooldown_nanos() == nanos_of(interval),
    {
        let cooldown: u128 = interval.as_nanos();
        let ledger = ClaimLedger::new(cooldown);
        let ghost holds = |l: ClaimLedger| l.cooldown() == cooldown;
        let claims = RwLock::<ClaimLedger, spec_fn(ClaimLedger) -> bool>::new(
            ledger,
            Ghost(holds),
        );
        RateLimiter { claims, started: Instant::now(), cooldown }
    }

    /// Decides a claim by `ip` now. The decision and the record of it are
    /// one step under the lock: `ClaimLedger::try_claim_at` at the time that
    /// has passed since this limiter was made.
    ///
    /// What comes back depends on the clock and on the claims that other
    /// holders of this limiter have made; with no cooldown every claim is
    /// admitted.
    pub fn try_claim(&self, ip: &str) -> (admitted: bool)
        ensures
            self.cooldown_nanos() == 0 ==> admitted,
    {
        proof {
            use_type_invariant(self);
        }
        let (mut ledger, handle) = self.claims.acquire_write();
        let now: u128 = self.started.elapsed().as_nanos();
        let admitted = ledger.try_claim_at(ip, now);
        handle.release_write(ledger);
        admitted
    }
}

/// A claim: who asks, and when.
pub struct TimedClaim {
    pub identity: Seq<char>,
    pub at: u128,
}

/// The recorded claims after `requests` have been decided one after the
/// other, in order.
pub open spec fn claims_after_all(
    claims: Map<Seq<char>, u128>,
    cooldown: u128,
    requests: Seq<TimedClaim>,
) -> Map<Seq<char>, u128>
    decreases requests.len(),
{
    if requests.len() == 0 {
        claims
    } else {
        claims_after(
            claims_after_all(claims, cooldown, requests.drop_last()),
            cooldown,
            requests.last().identity,
            requests.last().at,
        )
    }
}

/// Whether the claim at position `i` of `requests` is admitted when they
/// are decided one after the other, in order.
pub open spec fn admitted_in_turn(
    claims: Map<Seq<char>, u128>,
    cooldown: u128,
    requests: Seq<TimedClaim>,
    i: int,
) -> bool {
    admits(
        claims_after_all(claims, cooldown, requests.take(i)),
        cooldown,
        requests[i].identity,
        requests[i].at,
    )
}

/// How many of the first `n` of `requests` are admitted when they are
/// decided one after the other, in order.
pub open spec fn admitted_count(
    claims: Map<Seq<char>, u128>,
    cooldown: u128,
    requests: Seq<TimedClaim>,
    n: int,
) -> nat
    decreases n,
{
    if n <= 0 {
        0
    } else {
        admitted_count(claims, cooldown, requests, n - 1) + if admitted_in_turn(
            claims,
            cooldown,
            requests,
            n - 1,
        ) {
            1nat
        } else {
            0nat
        }
    }
}

/// A second claim of an identity that comes less than the cooldown after an
/// admitted one is rejected, and leaves the record as it was.
pub proof fn repeat_within_cooldown_is_rejected(
    claims: Map<Seq<char>, u128>,
    cooldown: u128,
    identity: Seq<char>,
    first: u128,
    second: u128,
)
    requires
        admits(claims, cooldown, identity, first),
        first <= second,
        second - first < cooldown,
    ensures
        !admits(claims_after(claims, cooldown, identity, first), cooldown, identity, second),
        claims_after(
            claims_after(claims, cooldown, identity, first),
            cooldown,
            identity,
            second,
        ) == claims_after(claims, cooldown, identity, first),
{
}

/// A second claim of an identity that comes at least the cooldown after an
/// earlier one is admitted, whether the earlier one was or not, as long as
/// the clock has not run backwards since the record was made.
pub proof fn repeat_after_cooldown_is_admitted(
    claims: Map<Seq<char>, u128>,
    cooldown: u128,
    identity: Seq<char>,
    first: u128,
    second: u128,
)
    requires
        first <= second,
        second - first >= cooldown,
        claims.contains_key(identity) ==> claims[identity] <= first,
    ensures
        admits(claims_after(claims, cooldown, identity, first), cooldown, identity, second),
        claims_after(
            claims_after(claims, cooldown, identity, first),
            cooldown,
            identity,
            second,
        )[identity] == second,
{
}

/// A claim of one identity changes nothing for another: neither its record
/// nor the decision on its next claim.
pub proof fn identities_do_not_affect_each_other(
    claims: Map<Seq<char>, u128>,
    cooldown: u128,
    one: Seq<char>,
    other: Seq<char>,
    at: u128,
    now: u128,
)
    requires
        one != other,
    ensures
        admits(claims_after(claims, cooldown, other, at), cooldown, one, now) == admits(
            claims,
            cooldown,
            one,
            now,
        ),
        claims_after(claims, cooldown, other, at).contains_key(one) == claims.contains_key(one),
        claims.contains_key(one) ==> claims_after(claims, cooldown, other, at)[one] == claims[one],
{
}

/// Deciding claims only ever records the identities that asked.
proof fn records_come_from_requests(
    claims: Map<Seq<char>, u128>,
    cooldown: u128,
    requests: Seq<TimedClaim>,
    identity: Seq<char>,
)
    requires
        !claims.contains_key(identity),
        forall|j: int| 0 <= j < requests.len() ==> (#[trigger] requests[j]).identity != identity,
    ensures
        !claims_after_all(claims, cooldown, requests).contains_key(identity),
    decreases requests.len(),
{
    if requests.len() > 0 {
        let front = requests.drop_last();
        assert forall|j: int| 0 <= j < front.len() implies (#[trigger] front[j]).identity
            != identity by {
            assert(front[j] == requests[j]);
        }
        records_come_from_requests(claims, cooldown, front, identity);
        assert(requests.last() == requests[requests.len() - 1]);
    }
}

/// Claims of identities that differ from one another and have no record are
/// all admitted, in whatever order and at whatever times they are decided.
pub proof fn distinct_newcomers_are_all_admitted(
    claims: Map<Seq<char>, u128>,
    cooldown: u128,
    requests: Seq<TimedClaim>,
)
    requires
        forall|i: int| 0 <= i < requests.len() ==> !claims.contains_key((#[trigger] requests[i]).identity),
        forall|i: int, j: int|
            0 <= i < j < requests.len() ==> (#[trigger] requests[i]).identity != (
            #[trigger] requests[j]).identity,
    ensures
        forall|i: int|
            0 <= i < requests.len() ==> #[trigger] admitted_in_turn(claims, cooldown, requests, i),
        admitted_count(claims, cooldown, requests, requests.len() as int) == requests.len(),
{
    assert forall|i: int| 0 <= i < requests.len() implies #[trigger] admitted_in_turn(
        claims,
        cooldown,
        requests,
        i,
    ) by {
        let before = requests.take(i);
        assert forall|j: int| 0 <= j < before.len() implies (#[trigger] before[j]).identity
            != requests[i].identity by {
            assert(before[j] == requests[j]);
        }
        records_come_from_requests(claims, cooldown, before, requests[i].identity);
    }
    all_admitted_counts_all(claims, cooldown, requests, requests.len() as int);
}

/// Where each of the first `n` claims is admitted, `n` are.
proof fn all_admitted_counts_all(
    claims: Map<Seq<char>, u128>,
    cooldown: u128,
    requests: Seq<TimedClaim>,
    n: int,
)
    requires
        0 <= n <= requests.len(),
        forall|i: int| 0 <= i < n ==> #[trigger] admitted_in_turn(claims, cooldown, requests, i),
    ensures
        admitted_count(claims, cooldown, requests, n) == n,
    decreases n,
{
    if n > 0 {
        all_admitted_counts_all(claims, cooldown, requests, n - 1);
    }
}

/// Of the claims of one identity that all fall within less than a cooldown,
/// at most one is admitted, however many there are.
pub proof fn one_identity_is_admitted_at_most_once_per_cooldown(
    claims: Map<Seq<char>, u128>,
    cooldown: u128,
    identity: Seq<char>,
    requests: Seq<TimedClaim>,
)
    requires
        forall|i: int| 0 <= i < requests.len() ==> (#[trigger] requests[i]).identity == identity,
        forall|i: int, j: int|
            0 <= i <= j < requests.len() ==> (#[trigger] requests[i]).at <= (
            #[trigger] requests[j]).at,
        requests.len() > 0 ==> requests.last().at - requests.first().at < cooldown,
    ensures
        admitted_count(claims, cooldown, requests, requests.len() as int) <= 1,
{
    at_most_one_so_far(claims, cooldown, identity, requests, requests.len() as int);
}

/// The induction behind the law above: after `n` claims either none was
/// admitted, or one was and its time is on record.
proof fn at_most_one_so_far(
    claims: Map<Seq<char>, u128>,
    cooldown: u128,
    identity: Seq<char>,
    requests: Seq<TimedClaim>,
    n: int,
)
    requires
        0 <= n <= requests.len(),
        forall|i: int| 0 <= i < requests.len() ==> (#[trigger] requests[i]).identity == identity,
        forall|i: int, j: int|
            0 <= i <= j < requests.len() ==> (#[trigger] requests[i]).at <= (
            #[trigger] requests[j]).at,
        requests.len() > 0 ==> requests.last().at - requests.first().at < cooldown,
    ensures
        ({
            let count = admitted_count(claims, cooldown, requests, n);
            let record = claims_after_all(claims, cooldown, requests.take(n));
            ||| count == 0
            ||| {
                &&& count == 1
                &&& record.contains_key(identity)
                &&& requests.first().at <= record[identity] <= requests[n - 1].at
            }
        }),
    decreases n,
{
    if n > 0 {
        at_most_one_so_far(claims, cooldown, identity, requests, n - 1);
        assert(requests.take(n).drop_last() =~= requests.take(n - 1));
        assert(requests.take(n).last() == requests[n - 1]);
        assert(requests.first() == requests[0]);
        assert(requests.last() == requests[requests.len() - 1]);
        assert(requests[0].at <= requests[n - 1].at);
        assert(requests[n - 1].at <= requests[requests.len() - 1].at);
        if n > 1 {
            assert(requests[n - 2].at <= requests[n - 1].at);
        }
    }
}

} // verus!
