//! The course of one claim, as a state machine.
//!
//! The machine decides; its caller acts. Each step takes the state a claim
//! is in and what has just happened, and gives the state the claim is in
//! now and what is to be done next. The wallet lock is taken before the
//! first look at the wallet's outputs and given back with the step that ends
//! the claim, whichever way it ends.

use vstd::prelude::*;

verus! {

/// Why a claim failed.
#[derive(Clone, Copy, Debug, PartialEq, Eq, Structural)]
pub enum ClaimError {
    InvalidAddress,
    RateLimited,
    InsufficientFunds { have: u64, need: u64 },
    SigningFailure,
    SubmissionFailure,
    NodeUnavailable,
}

/// How far a claim has come.
#[derive(Clone, Copy, Debug, PartialEq, Eq, Structural)]
pub enum ClaimState {
    Received,
    AddressValidated,
    GuardChecked,
    WalletLockAcquired,
    UtxosFetched,
    Selected,
    Assembled,
    Signed,
    Submitted,
    Succeeded,
    Failed(ClaimError),
}

/// What has just happened to a claim.
#[derive(Clone, Copy, Debug, PartialEq, Eq, Structural)]
pub enum ClaimEvent {
    /// The destination parsed as an address.
    AddressAccepted,
    /// The destination is no address.
    AddressRejected,
    /// The guard admitted the requester and recorded the claim.
    GuardAdmitted,
    /// The guard turned the requester away.
    GuardRejected,
    /// The claim now has the wallet to itself.
    LockAcquired,
    /// The node reported the wallet's unspent outputs.
    UtxosReceived,
    /// The node did not answer the query in time, or failed.
    NodeFailed,
    /// The selector found a covering prefix.
    InputsSelected,
    /// The selector found the wallet short.
    FundsShort { have: u64, need: u64 },
    /// The transaction is assembled.
    TransactionAssembled,
    /// Every input is signed.
    TransactionSigned,
    /// The signer could not sign every input.
    SigningFailed,
    /// The node took the transaction.
    SubmissionAccepted,
    /// The node refused the transaction, or did not answer in time.
    SubmissionFailed,
    /// The wallet lock has been given back.
    LockReleased,
}

/// What the caller is to do next.
#[derive(Clone, Copy, Debug, PartialEq, Eq, Structural)]
pub enum ClaimAction {
    ValidateAddress,
    ConsultGuard,
    AcquireWalletLock,
    FetchUtxos,
    SelectInputs,
    AssembleTransaction,
    SignTransaction,
    SubmitTransaction,
    /// Give the wallet lock back, then report the lock as released.
    ReleaseWalletLock,
    /// Give the wallet lock back and answer the requester.
    ReleaseWalletLockAndRespond,
    /// Answer the requester; no lock is held.
    Respond,
    /// Nothing: the event does not belong to the state and was ignored.
    Wait,
}

/// The state of a claim and the action that goes with it.
#[derive(Clone, Copy, Debug, PartialEq, Eq, Structural)]
pub struct Step {
    pub state: ClaimState,
    pub action: ClaimAction,
}

/// Whether a claim in this state has ended.
pub open spec fn is_terminal(state: ClaimState) -> bool {
    state is Succeeded || state is Failed
}

/// Whether a claim in this state has the wallet to itself.
pub open spec fn holds_wallet_lock(state: ClaimState) -> bool {
    match state {
        ClaimState::WalletLockAcquired
        | ClaimState::UtxosFetched
        | ClaimState::Selected
        | ClaimState::Assembled
        | ClaimState::Signed
        | ClaimState::Submitted => true,
        _ => false,
    }
}

/// The position of a state on the way of a claim. The two ends of the way
/// share the last position.
pub open spec fn progress(state: ClaimState) -> nat {
    match state {
        ClaimState::Received => 0,
        ClaimState::AddressValidated => 1,
        ClaimState::GuardChecked => 2,
        ClaimState::WalletLockAcquired => 3,
        ClaimState::UtxosFetched => 4,
        ClaimState::Selected => 5,
        ClaimState::Assembled => 6,
        ClaimState::Signed => 7,
        ClaimState::Submitted => 8,
        ClaimState::Succeeded => 9,
        ClaimState::Failed(_) => 9,
    }
}

/// Whether `action` gives the wallet lock back.
pub open spec fn releases_wallet_lock(action: ClaimAction) -> bool {
    action is ReleaseWalletLock || action is ReleaseWalletLockAndRespond
}

/// The step that `event` makes a claim in `state` take. An event that does
/// not belong to the state leaves the claim where it is.
pub open spec fn step_of(state: ClaimState, event: ClaimEvent) -> Step {
    match (state, event) {
        (ClaimState::Received, ClaimEvent::AddressAccepted) => Step {
            state: ClaimState::AddressValidated,
            action: ClaimAction::ConsultGuard,
        },
        (ClaimState::Received, ClaimEvent::AddressRejected) => Step {
            state: ClaimState::Failed(ClaimError::InvalidAddress),
            action: ClaimAction::Respond,
        },
        (ClaimState::AddressValidated, ClaimEvent::GuardAdmitted) => Step {
            state: ClaimState::GuardChecked,
            action: ClaimAction::AcquireWalletLock,
        },
        (ClaimState::AddressValidated, ClaimEvent::GuardRejected) => Step {
            state: ClaimState::Failed(ClaimError::RateLimited),
            action: ClaimAction::Respond,
        },
        (ClaimState::GuardChecked, ClaimEvent::LockAcquired) => Step {
            state: ClaimState::WalletLockAcquired,
            action: ClaimAction::FetchUtxos,
        },
        (ClaimState::WalletLockAcquired, ClaimEvent::UtxosReceived) => Step {
            state: ClaimState::UtxosFetched,
            action: ClaimAction::SelectInputs,
        },
        (ClaimState::WalletLockAcquired, ClaimEvent::NodeFailed) => Step {
            state: ClaimState::Failed(ClaimError::NodeUnavailable),
            action: ClaimAction::ReleaseWalletLockAndRespond,
        },
        (ClaimState::UtxosFetched, ClaimEvent::InputsSelected) => Step {
            state: ClaimState::Selected,
            action: ClaimAction::AssembleTransaction,
        },
        (ClaimState::UtxosFetched, ClaimEvent::FundsShort { have, need }) => Step {
            state: ClaimState::Failed(ClaimError::InsufficientFunds { have, need }),
            action: ClaimAction::ReleaseWalletLockAndRespond,
        },
        (ClaimState::Selected, ClaimEvent::TransactionAssembled) => Step {
            state: ClaimState::Assembled,
            action: ClaimAction::SignTransaction,
        },
        (ClaimState::Assembled, ClaimEvent::TransactionSigned) => Step {
            state: ClaimState::Signed,
            action: ClaimAction::SubmitTransaction,
        },
        (ClaimState::Assembled, ClaimEvent::SigningFailed) => Step {
            state: ClaimState::Failed(ClaimError::SigningFailure),
            action: ClaimAction::ReleaseWalletLockAndRespond,
        },
        (ClaimState::Signed, ClaimEvent::SubmissionAccepted) => Step {
            state: ClaimState::Submitted,
            action: ClaimAction::ReleaseWalletLock,
        },
        (ClaimState::Signed, ClaimEvent::SubmissionFailed) => Step {
            state: ClaimState::Failed(ClaimError::SubmissionFailure),
            action: ClaimAction::ReleaseWalletLockAndRespond,
        },
        (ClaimState::Submitted, ClaimEvent::LockReleased) => Step {
            state: ClaimState::Succeeded,
            action: ClaimAction::Respond,
        },
        _ => Step { state, action: ClaimAction::Wait },
    }
}

/// The state a claim starts in and the first thing to do.
pub fn begin() -> (r: Step)
    ensures
        r.state == ClaimState::Received,
        r.action == ClaimAction::ValidateAddress,
{
    Step { state: ClaimState::Received, action: ClaimAction::ValidateAddress }
}

/// Takes one step of a claim.
pub fn step(state: ClaimState, event: ClaimEvent) -> (r: Step)
    ensures
        r == step_of(state, event),
{
    let wait = Step { state, action: ClaimAction::Wait };
    match state {
        ClaimState::Received => match event {
            ClaimEvent::AddressAccepted => Step {
                state: ClaimState::AddressValidated,
                action: ClaimAction::ConsultGuard,
            },
            ClaimEvent::AddressRejected => fail(ClaimError::InvalidAddress, false),
            _ => wait,
        },
        ClaimState::AddressValidated => match event {
            ClaimEvent::GuardAdmitted => Step {
                state: ClaimState::GuardChecked,
                action: ClaimAction::AcquireWalletLock,
            },
            ClaimEvent::GuardRejected => fail(ClaimError::RateLimited, false),
            _ => wait,
        },
        ClaimState::GuardChecked => match event {
            ClaimEvent::LockAcquired => Step {
                state: ClaimState::WalletLockAcquired,
                action: ClaimAction::FetchUtxos,
            },
            _ => wait,
        },
        ClaimState::WalletLockAcquired => match event {
            ClaimEvent::UtxosReceived => Step {
                state: ClaimState::UtxosFetched,
                action: ClaimAction::SelectInputs,
            },
            ClaimEvent::NodeFailed => fail(ClaimError::NodeUnavailable, true),
            _ => wait,
        },
        ClaimState::UtxosFetched => match event {
            ClaimEvent::InputsSelected => Step {
                state: ClaimState::Selected,
                action: ClaimAction::AssembleTransaction,
            },
            ClaimEvent::FundsShort { have, need } => fail(
                ClaimError::InsufficientFunds { have, need },
                true,
            ),
            _ => wait,
        },
        ClaimState::Selected => match event {
            ClaimEvent::TransactionAssembled => Step {
                state: ClaimState::Assembled,
                action: ClaimAction::SignTransaction,
            },
            _ => wait,
        },
        ClaimState::Assembled => match event {
            ClaimEvent::TransactionSigned => Step {
                state: ClaimState::Signed,
                action: ClaimAction::SubmitTransaction,
            },
            ClaimEvent::SigningFailed => fail(ClaimError::SigningFailure, true),
            _ => wait,
        },
        ClaimState::Signed => match event {
            ClaimEvent::SubmissionAccepted => Step {
                state: ClaimState::Submitted,
                action: ClaimAction::ReleaseWalletLock,
            },
            ClaimEvent::SubmissionFailed => fail(ClaimError::SubmissionFailure, true),
            _ => wait,
        },
        ClaimState::Submitted => match event {
            ClaimEvent::LockReleased => Step {
                state: ClaimState::Succeeded,
                action: ClaimAction::Respond,
            },
            _ => wait,
        },
        ClaimState::Succeeded => wait,
        ClaimState::Failed(_) => wait,
    }
}

/// The step that ends a claim in failure, with or without the wallet lock
/// to give back.
fn fail(reason: ClaimError, locked: bool) -> (r: Step)
    ensures
        r.state == ClaimState::Failed(reason),
        r.action == if locked {
            ClaimAction::ReleaseWalletLockAndRespond
        } else {
            ClaimAction::Respond
        },
{
    Step {
        state: ClaimState::Failed(reason),
        action: if locked {
            ClaimAction::ReleaseWalletLockAndRespond
        } else {
            ClaimAction::Respond
        },
    }
}

/// The HTTP status that answers a claim that failed for `reason`: the
/// requester's own mistakes get their own codes, everything else is the
/// server's.
pub open spec fn status_of(reason: ClaimError) -> u16 {
    match reason {
        ClaimError::InvalidAddress => 400,
        ClaimError::RateLimited => 429,
        _ => 500,
    }
}

/// Computes the HTTP status that answers a failed claim.
pub fn status_code(reason: ClaimError) -> (r: u16)
    ensures
        r == status_of(reason),
        r == 400 <==> reason is InvalidAddress,
        r == 429 <==> reason is RateLimited,
        r == 400 || r == 429 || r == 500,
{
    match reason {
        ClaimError::InvalidAddress => 400,
        ClaimError::RateLimited => 429,
        ClaimError::InsufficientFunds { .. } => 500,
        ClaimError::SigningFailure => 500,
        ClaimError::SubmissionFailure => 500,
        ClaimError::NodeUnavailable => 500,
    }
}

/// A claim that has ended stays as it is, whatever happens.
pub proof fn ended_claims_stay_ended(state: ClaimState, event: ClaimEvent)
    requires
        is_terminal(state),
    ensures
        step_of(state, event).state == state,
        step_of(state, event).action is Wait,
{
}

/// A claim only moves forward: a step that changes the state changes it to
/// one further along. So nothing is tried twice within one claim.
pub proof fn claims_only_advance(state: ClaimState, event: ClaimEvent)
    ensures
        step_of(state, event).state == state || progress(step_of(state, event).state) > progress(
            state,
        ),
        step_of(state, event).state == state <==> step_of(state, event).action is Wait,
{
}

/// The wallet lock is taken in one step only, the one that answers
/// `LockAcquired` after the guard. It is held through every step up to the
/// end of the claim and is gone with the step that ends it: a failure asks
/// for the release together with the answer, a success has asked for it on
/// submission and ends when the release is reported.
pub proof fn wallet_lock_spans_fetch_to_submit(state: ClaimState, event: ClaimEvent)
    ensures
        ({
            let next = step_of(state, event);
            &&& !holds_wallet_lock(state) && holds_wallet_lock(next.state) <==> state
                is GuardChecked && event is LockAcquired
            &&& holds_wallet_lock(state) && !holds_wallet_lock(next.state) <==> holds_wallet_lock(
                state,
            ) && is_terminal(next.state)
            &&& holds_wallet_lock(state) && is_terminal(next.state) ==> next.action
                is ReleaseWalletLockAndRespond || (state is Submitted && event is LockReleased)
            &&& releases_wallet_lock(next.action) ==> holds_wallet_lock(state)
            &&& next.action is ReleaseWalletLock <==> state is Signed && event
                is SubmissionAccepted
            &&& next.action is ReleaseWalletLockAndRespond ==> next.state is Failed
            &&& is_terminal(next.state) ==> !holds_wallet_lock(next.state)
        }),
{
}

/// The wallet is only looked at and spent from under the lock: every action
/// from the fetch to the submission is asked for in a state that holds it.
pub proof fn wallet_is_touched_under_lock_only(state: ClaimState, event: ClaimEvent)
    ensures
        ({
            let next = step_of(state, event);
            (next.action is FetchUtxos || next.action is SelectInputs || next.action
                is AssembleTransaction || next.action is SignTransaction || next.action
                is SubmitTransaction) ==> holds_wallet_lock(next.state)
        }),
{
}

/// A rejected address and a rejected requester end the claim before the
/// wallet lock is asked for; and the guard is consulted only once the
/// address has been accepted.
pub proof fn requester_errors_never_reach_the_wallet(state: ClaimState, event: ClaimEvent)
    ensures
        ({
            let next = step_of(state, event);
            &&& next.state == ClaimState::Failed(ClaimError::InvalidAddress) && next.state != state
                ==> state is Received && next.action is Respond
            &&& next.state == ClaimState::Failed(ClaimError::RateLimited) && next.state != state
                ==> state is AddressValidated && next.action is Respond
            &&& next.action is ConsultGuard <==> state is Received && event is AddressAccepted
            &&& next.action is AcquireWalletLock <==> state is AddressValidated && event
                is GuardAdmitted
        }),
{
}

/// Once the node has taken the transaction the claim cannot fail any more.
pub proof fn submitted_claims_are_not_rolled_back(event: ClaimEvent)
    ensures
        !(step_of(ClaimState::Submitted, event).state is Failed),
        step_of(ClaimState::Submitted, event).state is Submitted || step_of(
            ClaimState::Submitted,
            event,
        ).state is Succeeded,
{
}

/// The number of claims among `claims` that hold the wallet lock.
pub open spec fn lock_holders(claims: Seq<ClaimState>) -> nat
    decreases claims.len(),
{
    if claims.len() == 0 {
        0
    } else {
        lock_holders(claims.drop_last()) + if holds_wallet_lock(claims.last()) {
            1nat
        } else {
            0nat
        }
    }
}

/// Replacing one claim's state changes the count of lock holders by that
/// claim alone.
proof fn lock_holders_after_update(claims: Seq<ClaimState>, i: int, state: ClaimState)
    requires
        0 <= i < claims.len(),
    ensures
        lock_holders(claims.update(i, state)) + (if holds_wallet_lock(claims[i]) {
            1nat
        } else {
            0nat
        }) == lock_holders(claims) + (if holds_wallet_lock(state) {
            1nat
        } else {
            0nat
        }),
    decreases claims.len(),
{
    let updated = claims.update(i, state);
    if i == claims.len() - 1 {
        assert(updated.drop_last() =~= claims.drop_last());
    } else {
        assert(updated.drop_last() =~= claims.drop_last().update(i, state));
        lock_holders_after_update(claims.drop_last(), i, state);
    }
}

/// Claims that run side by side never hold the wallet lock together, as
/// long as the lock itself is sound: if `LockAcquired` is only ever
/// reported while no claim holds the lock, then a step of any one claim
/// leaves at most one holder.
pub proof fn at_most_one_claim_holds_the_wallet_lock(
    claims: Seq<ClaimState>,
    i: int,
    event: ClaimEvent,
)
    requires
        0 <= i < claims.len(),
        lock_holders(claims) <= 1,
        event is LockAcquired ==> lock_holders(claims) == 0,
    ensures
        lock_holders(claims.update(i, step_of(claims[i], event).state)) <= 1,
{
    lock_holders_after_update(claims, i, step_of(claims[i], event).state);
    wallet_lock_spans_fetch_to_submit(claims[i], event);
}

} // verus!
