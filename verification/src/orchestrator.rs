//! One claim on its way through the service.
//!
//! A `Claim` holds the request, the state the claim is in, and what it has
//! gathered so far. Its methods are the steps: those that compute (check the
//! address, ask the guard, select, assemble, sign) do the work and move on;
//! those that report (lock taken, outputs received, submitted) take in what
//! happened outside. A step that is not due changes nothing.

use vstd::prelude::*;
use crate::address::{decoded_address, has_address_shape, parse_address, Address, AddressView};
use crate::assembler::{assemble, is_assembly};
use crate::claim::{step, step_of, ClaimAction, ClaimError, ClaimEvent, ClaimState, Step};
use crate::fee::fee_of;
use crate::rate_limiter::RateLimiter;
use crate::report::{claim_response, decimal_of, ClaimResponse};
use crate::selector::{capped, covers, is_first_cover, no_cover, select, Selection};
use crate::signer::{all_locked_to, is_signed_form_of};
use crate::transaction::{PendingTransaction, Transaction};
use crate::utxo::{total_amount, UnspentOutput};
use crate::wallet::{wallet_address_of, FaucetWallet};

verus! {

/// What a requester asks for.
#[derive(Debug)]
pub struct ClaimRequest {
    /// Who asks: the requester's network identity.
    pub identity: String,
    /// Where the payment is to go, as text.
    pub destination_address: String,
    /// How much is to be paid, in base units.
    pub requested_amount: u64,
}

/// A claim, as a mathematical value.
pub struct ClaimView {
    pub identity: Seq<char>,
    pub destination_text: Seq<char>,
    pub amount: u64,
    /// The state the claim is in and the action that is due.
    pub step: Step,
    pub destination: Option<AddressView>,
    pub available: Option<Seq<UnspentOutput>>,
    pub selection: Option<Selection>,
    pub pending: Option<PendingTransaction>,
    pub signed: Option<Transaction>,
    pub transaction_id: Option<Seq<char>>,
}

/// The action that is due in a state. A failed claim still has its answer
/// due, with or without the wallet lock to give back.
pub open spec fn is_due_in(action: ClaimAction, state: ClaimState) -> bool {
    match state {
        ClaimState::Received => action is ValidateAddress,
        ClaimState::AddressValidated => action is ConsultGuard,
        ClaimState::GuardChecked => action is AcquireWalletLock,
        ClaimState::WalletLockAcquired => action is FetchUtxos,
        ClaimState::UtxosFetched => action is SelectInputs,
        ClaimState::Selected => action is AssembleTransaction,
        ClaimState::Assembled => action is SignTransaction,
        ClaimState::Signed => action is SubmitTransaction,
        ClaimState::Submitted => action is ReleaseWalletLock,
        ClaimState::Succeeded => action is Respond,
        ClaimState::Failed(_) => action is Respond || action is ReleaseWalletLockAndRespond,
    }
}

/// Whether a claim holds what its state needs: the destination from the
/// moment it is accepted until the transaction is assembled, and at each
/// stage the product of the stage before.
pub open spec fn is_coherent(claim: ClaimView) -> bool {
    let state = claim.step.state;
    &&& is_due_in(claim.step.action, state)
    &&& (state is AddressValidated || state is GuardChecked || state is WalletLockAcquired || state
        is UtxosFetched || state is Selected) ==> claim.destination is Some
    &&& state is UtxosFetched ==> claim.available is Some
    &&& state is Selected ==> claim.selection is Some && claim.selection->0.total_in >= claim.amount
        + claim.selection->0.fee
    &&& state is Assembled ==> claim.pending is Some && claim.pending->0.is_paired()
    &&& state is Signed ==> claim.signed is Some
    &&& (state is Submitted || state is Succeeded) ==> claim.transaction_id is Some
}

/// The step that `event` makes a claim take; none where the event does not
/// belong to the state the claim is in.
pub open spec fn stepped(claim: ClaimView, event: ClaimEvent) -> Step {
    if step_of(claim.step.state, event).action is Wait {
        claim.step
    } else {
        step_of(claim.step.state, event)
    }
}

/// A claim on its way.
pub struct Claim {
    request: ClaimRequest,
    now: Step,
    destination: Option<Address>,
    available: Option<Vec<UnspentOutput>>,
    selection: Option<Selection>,
    pending: Option<PendingTransaction>,
    signed: Option<Transaction>,
    transaction_id: Option<String>,
}

impl View for Claim {
    type V = ClaimView;

    closed spec fn view(&self) -> ClaimView {
        ClaimView {
            identity: self.request.identity@,
            destination_text: self.request.destination_address@,
            amount: self.request.requested_amount,
            step: self.now,
            destination: match self.destination {
                Some(a) => Some(a@),
                None => None,
            },
            available: match self.available {
                Some(v) => Some(v@),
                None => None,
            },
            selection: self.selection,
            pending: self.pending,
            signed: self.signed,
            transaction_id: match self.transaction_id {
                Some(t) => Some(t@),
                None => None,
            },
        }
    }
}

impl Claim {
    #[verifier::type_invariant]
    spec fn well_formed(&self) -> bool {
        is_coherent(self@)
    }

    /// Takes in a request. The first thing due is to check the address.
    pub fn receive(request: ClaimRequest) -> (r: Claim)
        ensures
            r@ == (ClaimView {
                identity: request.identity@,
                destination_text: request.destination_address@,
                amount: request.requested_amount,
                step: Step { state: ClaimState::Received, action: ClaimAction::ValidateAddress },
                destination: None,
                available: None,
                selection: None,
                pending: None,
                signed: None,
                transaction_id: None,
            }),
            is_coherent(r@),
    {
        Claim {
            request,
            now: Step { state: ClaimState::Received, action: ClaimAction::ValidateAddress },
            destination: None,
            available: None,
            selection: None,
            pending: None,
            signed: None,
            transaction_id: None,
        }
    }

    /// The state the claim is in.
    pub fn state(&self) -> (r: ClaimState)
        ensures
            r == self@.step.state,
    {
        self.now.state
    }

    /// What is due.
    pub fn action(&self) -> (r: ClaimAction)
        ensures
            r == self@.step.action,
            is_coherent(self@),
    {
        proof {
            use_type_invariant(self);
        }
        self.now.action
    }

    /// Who asks.
    pub fn identity(&self) -> (r: &str)
        ensures
            r@ == self@.identity,
    {
        self.request.identity.as_str()
    }

    /// How much is to be paid.
    pub fn amount(&self) -> (r: u64)
        ensures
            r == self@.amount,
    {
        self.request.requested_amount
    }

    /// The signed transaction, while the claim is waiting to submit it.
    pub fn signed_transaction(&self) -> (r: Option<&Transaction>)
        ensures
            r is Some <==> self@.signed is Some,
            r matches Some(t) ==> self@.signed == Some(*t),
            self@.step.state is Signed ==> r is Some,
    {
        proof {
            use_type_invariant(self);
        }
        self.signed.as_ref()
    }

    /// Checks the destination, if that is due.
    pub fn validate_address(self) -> (r: Claim)
        ensures
            is_coherent(r@),
            !(self@.step.action is ValidateAddress) ==> r@ == self@,
            self@.step.action is ValidateAddress ==> {
                let found = if has_address_shape(self@.destination_text) {
                    decoded_address(self@.destination_text)
                } else {
                    None
                };
                r@ == (ClaimView {
                    step: step_of(
                        self@.step.state,
                        if found is Some {
                            ClaimEvent::AddressAccepted
                        } else {
                            ClaimEvent::AddressRejected
                        },
                    ),
                    destination: found,
                    ..self@
                })
            },
    {
        proof {
            use_type_invariant(&self);
        }
        match self.now.action {
            ClaimAction::ValidateAddress => {},
            _ => {
                return self;
            },
        }
        let Claim { request, now, destination: _, available, selection, pending, signed, transaction_id } =
            self;
        let destination = parse_address(request.destination_address.as_str());
        let event = if destination.is_some() {
            ClaimEvent::AddressAccepted
        } else {
            ClaimEvent::AddressRejected
        };
        Claim {
            request,
            now: step(now.state, event),
            destination,
            available,
            selection,
            pending,
            signed,
            transaction_id,
        }
    }

    /// Asks the guard, if that is due. What the guard says depends on the
    /// clock and on the claims it has seen.
    pub fn consult_guard(self, guard: &RateLimiter) -> (r: Claim)
        ensures
            is_coherent(r@),
            !(self@.step.action is ConsultGuard) ==> r@ == self@,
            self@.step.action is ConsultGuard ==> {
                ||| r@ == (ClaimView {
                    step: step_of(self@.step.state, ClaimEvent::GuardAdmitted),
                    ..self@
                })
                ||| guard.cooldown_nanos() != 0 && r@ == (ClaimView {
                    step: step_of(self@.step.state, ClaimEvent::GuardRejected),
                    ..self@
                })
            },
    {
        proof {
            use_type_invariant(&self);
        }
        match self.now.action {
            ClaimAction::ConsultGuard => {},
            _ => {
                return self;
            },
        }
        let Claim { request, now, destination, available, selection, pending, signed, transaction_id } =
            self;
        let event = if guard.try_claim(request.identity.as_str()) {
            ClaimEvent::GuardAdmitted
        } else {
            ClaimEvent::GuardRejected
        };
        Claim {
            request,
            now: step(now.state, event),
            destination,
            available,
            selection,
            pending,
            signed,
            transaction_id,
        }
    }

    /// Takes in an event that brings nothing with it: the lock taken or
    /// given back, the node failing, the submission refused. Other events,
    /// and events that do not belong to the state, change nothing.
    pub fn notify(self, event: ClaimEvent) -> (r: Claim)
        ensures
            is_coherent(r@),
            (event is LockAcquired || event is NodeFailed || event is SubmissionFailed || event
                is LockReleased) ==> r@ == (ClaimView { step: stepped(self@, event), ..self@ }),
            !(event is LockAcquired || event is NodeFailed || event is SubmissionFailed || event
                is LockReleased) ==> r@ == self@,
    {
        proof {
            use_type_invariant(&self);
        }
        match event {
            ClaimEvent::LockAcquired
            | ClaimEvent::NodeFailed
            | ClaimEvent::SubmissionFailed
            | ClaimEvent::LockReleased => {},
            _ => {
                return self;
            },
        }
        let next = step(self.now.state, event);
        match next.action {
            ClaimAction::Wait => {
                return self;
            },
            _ => {},
        }
        let Claim { request, now: _, destination, available, selection, pending, signed, transaction_id } =
            self;
        Claim {
            request,
            now: next,
            destination,
            available,
            selection,
            pending,
            signed,
            transaction_id,
        }
    }

    /// Takes in the wallet's unspent outputs, if the claim is waiting for
    /// them.
    pub fn utxos_received(self, available: Vec<UnspentOutput>) -> (r: Claim)
        ensures
            is_coherent(r@),
            !(self@.step.action is FetchUtxos) ==> r@ == self@,
            self@.step.action is FetchUtxos ==> r@ == (ClaimView {
                step: step_of(self@.step.state, ClaimEvent::UtxosReceived),
                available: Some(available@),
                ..self@
            }),
    {
        proof {
            use_type_invariant(&self);
        }
        match self.now.action {
            ClaimAction::FetchUtxos => {},
            _ => {
                return self;
            },
        }
        let Claim { request, now, destination, available: _, selection, pending, signed, transaction_id } =
            self;
        Claim {
            request,
            now: step(now.state, ClaimEvent::UtxosReceived),
            destination,
            available: Some(available),
            selection,
            pending,
            signed,
            transaction_id,
        }
    }

    /// Selects the inputs, if that is due: the shortest prefix of the
    /// outputs received that covers the payment and its fee. Where nothing
    /// covers, the claim fails with what there is and what would be needed.
    pub fn select_inputs(self) -> (r: Claim)
        ensures
            is_coherent(r@),
            !(self@.step.action is SelectInputs) ==> r@ == self@,
            self@.step.action is SelectInputs ==> {
                let outputs = self@.available->0;
                if no_cover(outputs, self@.amount) {
                    r@ == (ClaimView {
                        step: step_of(
                            self@.step.state,
                            ClaimEvent::FundsShort {
                                have: capped(total_amount(outputs)),
                                need: capped(self@.amount as nat + fee_of(outputs.len())),
                            },
                        ),
                        available: None,
                        ..self@
                    })
                } else {
                    &&& r@ == (ClaimView {
                        step: step_of(self@.step.state, ClaimEvent::InputsSelected),
                        available: None,
                        selection: r@.selection,
                        ..self@
                    })
                    &&& r@.selection matches Some(sel)
                    &&& is_first_cover(outputs, self@.amount, sel.inputs@.len() as int)
                    &&& sel.inputs@ == outputs.take(sel.inputs@.len() as int)
                    &&& sel.fee == fee_of(sel.inputs@.len())
                    &&& sel.total_in == capped(total_amount(sel.inputs@))
                }
            },
    {
        proof {
            use_type_invariant(&self);
        }
        match self.now.action {
            ClaimAction::SelectInputs => {},
            _ => {
                return self;
            },
        }
        let Claim { request, now, destination, available, selection, pending, signed, transaction_id } =
            self;
        let outputs = match available {
            Some(outputs) => outputs,
            None => Vec::new(),
        };
        let ghost all = outputs@;
        match select(outputs, request.requested_amount) {
            Ok(selection) => {
                assert(covers(all, request.requested_amount, selection.inputs@.len() as int));
                Claim {
                    request,
                    now: step(now.state, ClaimEvent::InputsSelected),
                    destination,
                    available: None,
                    selection: Some(selection),
                    pending,
                    signed,
                    transaction_id,
                }
            },
            Err(e) => Claim {
                request,
                now: step(now.state, ClaimEvent::FundsShort { have: e.have, need: e.need }),
                destination,
                available: None,
                selection,
                pending,
                signed,
                transaction_id,
            },
        }
    }

    /// Assembles the transaction, if that is due: the payment to the
    /// destination, the change to the wallet.
    pub fn assemble_transaction(self, wallet: &FaucetWallet) -> (r: Claim)
        ensures
            is_coherent(r@),
            !(self@.step.action is AssembleTransaction) ==> r@ == self@,
            self@.step.action is AssembleTransaction ==> {
                let sel = self@.selection->0;
                &&& r@ == (ClaimView {
                    step: step_of(self@.step.state, ClaimEvent::TransactionAssembled),
                    selection: None,
                    pending: r@.pending,
                    ..self@
                })
                &&& r@.pending matches Some(tx)
                &&& is_assembly(
                    tx,
                    sel.inputs@,
                    sel.fee,
                    sel.total_in,
                    self@.amount,
                    self@.destination->0,
                    wallet_address_of(wallet.key_bytes()),
                )
            },
    {
        proof {
            use_type_invariant(&self);
        }
        match self.now.action {
            ClaimAction::AssembleTransaction => {},
            _ => {
                return self;
            },
        }
        let Claim { request, now, destination, available, selection, pending: _, signed, transaction_id } =
            self;
        match (selection, &destination) {
            (Some(selection), Some(target)) => {
                let tx = assemble(
                    selection.inputs,
                    selection.fee,
                    selection.total_in,
                    request.requested_amount,
                    target,
                    wallet.address(),
                );
                Claim {
                    request,
                    now: step(now.state, ClaimEvent::TransactionAssembled),
                    destination,
                    available,
                    selection: None,
                    pending: Some(tx),
                    signed,
                    transaction_id,
                }
            },
            (selection, _) => Claim {
                request,
                now,
                destination,
                available,
                selection,
                pending: None,
                signed,
                transaction_id,
            },
        }
    }

    /// Signs the transaction, if that is due. The claim fails exactly if
    /// one of the selected outputs is not locked to the wallet's key.
    pub fn sign_transaction(self, wallet: &FaucetWallet) -> (r: Claim)
        ensures
            is_coherent(r@),
            !(self@.step.action is SignTransaction) ==> r@ == self@,
            self@.step.action is SignTransaction ==> {
                let tx = self@.pending->0;
                if all_locked_to(tx.selected_inputs@, wallet.key_bytes()) {
                    &&& r@ == (ClaimView {
                        step: step_of(self@.step.state, ClaimEvent::TransactionSigned),
                        pending: None,
                        signed: r@.signed,
                        ..self@
                    })
                    &&& r@.signed matches Some(signed)
                    &&& is_signed_form_of(signed, tx.unsigned)
                } else {
                    r@ == (ClaimView {
                        step: step_of(self@.step.state, ClaimEvent::SigningFailed),
                        pending: None,
                        ..self@
                    })
                }
            },
    {
        proof {
            use_type_invariant(&self);
        }
        match self.now.action {
            ClaimAction::SignTransaction => {},
            _ => {
                return self;
            },
        }
        let Claim { request, now, destination, available, selection, pending, signed, transaction_id } =
            self;
        let tx = match pending {
            Some(tx) => tx,
            None => {
                return Claim {
                    request,
                    now,
                    destination,
                    available,
                    selection,
                    pending: None,
                    signed,
                    transaction_id,
                };
            },
        };
        match wallet.sign(tx) {
            Ok(done) => Claim {
                request,
                now: step(now.state, ClaimEvent::TransactionSigned),
                destination,
                available,
                selection,
                pending: None,
                signed: Some(done),
                transaction_id,
            },
            Err(_) => Claim {
                request,
                now: step(now.state, ClaimEvent::SigningFailed),
                destination,
                available,
                selection,
                pending: None,
                signed,
                transaction_id,
            },
        }
    }

    /// Takes in the identifier under which the node took the transaction,
    /// if the claim is waiting for it.
    pub fn submission_accepted(self, transaction_id: String) -> (r: Claim)
        ensures
            is_coherent(r@),
            !(self@.step.action is SubmitTransaction) ==> r@ == self@,
            self@.step.action is SubmitTransaction ==> r@ == (ClaimView {
                step: step_of(self@.step.state, ClaimEvent::SubmissionAccepted),
                transaction_id: Some(transaction_id@),
                ..self@
            }),
    {
        proof {
            use_type_invariant(&self);
        }
        match self.now.action {
            ClaimAction::SubmitTransaction => {},
            _ => {
                return self;
            },
        }
        let Claim { request, now, destination, available, selection, pending, signed, transaction_id: _ } =
            self;
        Claim {
            request,
            now: step(now.state, ClaimEvent::SubmissionAccepted),
            destination,
            available,
            selection,
            pending,
            signed,
            transaction_id: Some(transaction_id),
        }
    }

    /// How the claim ended, if it has: the receipt, or the reason of the
    /// failure.
    pub fn outcome(self, next_claim_seconds: u64) -> (r: Option<Result<ClaimResponse, ClaimError>>)
        ensures
            match self@.step.state {
                ClaimState::Succeeded => {
                    &&& r matches Some(Ok(receipt))
                    &&& Some(receipt.transaction_id@) == self@.transaction_id
                    &&& receipt.amount_kas@ == decimal_of(self@.amount as nat)
                    &&& receipt.next_claim_seconds == next_claim_seconds
                },
                ClaimState::Failed(reason) => r == Some(
                    Err::<ClaimResponse, ClaimError>(reason),
                ),
                _ => r is None,
            },
    {
        proof {
            use_type_invariant(&self);
        }
        match self.now.state {
            ClaimState::Succeeded => match self.transaction_id {
                Some(id) => Some(
                    Ok(claim_response(self.request.requested_amount, next_claim_seconds, id)),
                ),
                None => None,
            },
            ClaimState::Failed(reason) => Some(Err(reason)),
            _ => None,
        }
    }
}

} // verus!
