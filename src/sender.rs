//! The sender's side: register, then encrypt and deliver to each receiver on
//! its own, so that one receiver's failure never stops the others.
use vstd::prelude::*;

use crate::auth::{generate_token, request_token};
use crate::model::{Receiver, Registration};
use crate::registry::RegistryError;

verus! {

/// Why a send request ends before any delivery.
#[derive(Clone, Copy, Debug, PartialEq, Eq, Structural)]
pub enum SendError {
    /// The request carried no receipt.
    MissingReceipt,
    /// The registry refused or failed the registration.
    RegistrationFailed(RegistryError),
    /// The registration's key is not base64 of 32 bytes.
    UnusableKey,
}

/// The HTTP status that a send error is answered with.
pub open spec fn send_error_status(e: SendError) -> u16 {
    match e {
        SendError::MissingReceipt => 400,
        _ => 503,
    }
}

impl SendError {
    /// The HTTP status of this error.
    pub fn status(&self) -> (r: u16)
        ensures
            r == send_error_status(*self),
    {
        match self {
            SendError::MissingReceipt => 400,
            _ => 503,
        }
    }
}

/// The first step of a send: a receipt must be there, and the registration
/// must have succeeded with a usable key; the raw key is handed back.
pub fn begin_send(has_receipt: bool, registration: &Result<Registration, RegistryError>) -> (r: Result<Vec<u8>, SendError>)
    ensures
        !has_receipt ==> r == Err::<Vec<u8>, SendError>(SendError::MissingReceipt),
        has_receipt ==> match registration {
            Err(e) => r == Err::<Vec<u8>, SendError>(SendError::RegistrationFailed(*e)),
            Ok(reg) => match r {
                Ok(k) => crate::envelope::is_key_text(reg.encryption_key@)
                    && crate::codec::base64_decoded(reg.encryption_key@) == Some(k@),
                Err(e) => e == SendError::UnusableKey && !crate::envelope::is_key_text(reg.encryption_key@),
            },
        },
{
    if !has_receipt {
        return Err(SendError::MissingReceipt);
    }
    match registration {
        Err(e) => Err(SendError::RegistrationFailed(*e)),
        Ok(reg) => match reg.key_bytes() {
            Some(k) => Ok(k),
            None => Err(SendError::UnusableKey),
        },
    }
}

/// The signature of a delivery body for a receiver, under that receiver's
/// own secret.
pub fn sign_delivery(body: &[u8], receiver: &Receiver) -> (r: String)
    ensures
        r@ == request_token(body@, receiver.secret@),
{
    generate_token(body, receiver.secret.as_str())
}

/// The number of `true` entries of a sequence.
pub open spec fn count_delivered(s: Seq<bool>) -> nat
    decreases s.len(),
{
    if s.len() == 0 {
        0
    } else {
        count_delivered(s.drop_last()) + if s.last() {
            1nat
        } else {
            0nat
        }
    }
}

/// The fan-out's state as a model: how many receivers there are, and the
/// outcome of each attempt so far, in the receivers' order.
pub struct FanOutView {
    pub total: nat,
    pub outcomes: Seq<bool>,
}

/// The model of a fresh fan-out over `total` receivers.
pub open spec fn fan_out_start(total: nat) -> FanOutView {
    FanOutView { total, outcomes: Seq::empty() }
}

/// The model after one more attempt, delivered or not.
pub open spec fn fan_out_after(v: FanOutView, delivered: bool) -> FanOutView {
    FanOutView { total: v.total, outcomes: v.outcomes.push(delivered) }
}

/// The model after attempts with the given outcomes, one after another.
pub open spec fn fan_out_replay(v: FanOutView, outcomes: Seq<bool>) -> FanOutView
    decreases outcomes.len(),
{
    if outcomes.len() == 0 {
        v
    } else {
        fan_out_after(fan_out_replay(v, outcomes.drop_last()), outcomes.last())
    }
}

/// The receiver to attempt next, if any is left.
pub open spec fn fan_out_next(v: FanOutView) -> Option<nat> {
    if v.outcomes.len() < v.total {
        Some(v.outcomes.len())
    } else {
        None
    }
}

/// Delivery to each receiver in turn. Each receiver gets exactly one attempt,
/// whatever became of the attempts before it; only the counts are shared.
pub struct FanOut {
    total: usize,
    outcomes: Vec<bool>,
    delivered: usize,
}

impl View for FanOut {
    type V = FanOutView;

    closed spec fn view(&self) -> FanOutView {
        FanOutView { total: self.total as nat, outcomes: self.outcomes@ }
    }
}

impl FanOut {
    /// The fan-out's internal consistency: no more outcomes than receivers,
    /// and the delivered count matches the outcomes.
    pub closed spec fn wf(&self) -> bool {
        &&& self.outcomes@.len() <= self.total
        &&& self.delivered == count_delivered(self.outcomes@)
    }

    /// A fan-out over `total` receivers, none attempted yet.
    pub fn new(total: usize) -> (r: FanOut)
        ensures
            r.wf(),
            r@ == fan_out_start(total as nat),
    {
        FanOut { total, outcomes: Vec::new(), delivered: 0 }
    }

    /// The index of the receiver to attempt next, or `None` once every
    /// receiver has had its attempt.
    pub fn next_receiver(&self) -> (r: Option<usize>)
        requires
            self.wf(),
        ensures
            r matches Some(i) ==> fan_out_next(self@) == Some(i as nat),
            r is None ==> fan_out_next(self@) is None,
    {
        if self.outcomes.len() < self.total {
            Some(self.outcomes.len())
        } else {
            None
        }
    }

    /// Records the outcome of the attempt on the next receiver.
    pub fn record(&mut self, delivered: bool)
        requires
            old(self).wf(),
            fan_out_next(old(self)@) is Some,
        ensures
            final(self).wf(),
            final(self)@ == fan_out_after(old(self)@, delivered),
    {
        let ghost before = self.outcomes@;
        proof {
            lemma_count_delivered_bound(before);
        }
        self.outcomes.push(delivered);
        proof {
            assert(self.outcomes@.drop_last() == before);
        }
        if delivered {
            self.delivered = self.delivered + 1;
        }
    }

    /// How many receivers were delivered to.
    pub fn delivered_count(&self) -> (r: usize)
        requires
            self.wf(),
        ensures
            r == count_delivered(self@.outcomes),
    {
        self.delivered
    }

    /// How many attempts failed.
    pub fn failed_count(&self) -> (r: usize)
        requires
            self.wf(),
        ensures
            r + count_delivered(self@.outcomes) == self@.outcomes.len(),
    {
        proof {
            lemma_count_delivered_bound(self.outcomes@);
        }
        self.outcomes.len() - self.delivered
    }

    /// The outcome of the attempt on receiver `i`.
    pub fn outcome(&self, i: usize) -> (r: Option<bool>)
        ensures
            i < self@.outcomes.len() ==> r == Some(self@.outcomes[i as int]),
            i >= self@.outcomes.len() ==> r is None,
    {
        if i < self.outcomes.len() {
            Some(self.outcomes[i])
        } else {
            None
        }
    }
}

/// At most every attempt was delivered.
proof fn lemma_count_delivered_bound(s: Seq<bool>)
    ensures
        count_delivered(s) <= s.len(),
    decreases s.len(),
{
    if s.len() > 0 {
        lemma_count_delivered_bound(s.drop_last());
    }
}

/// Partial failure does not stop a fan-out: whatever the outcomes of the
/// attempts, one per receiver, every receiver is attempted exactly once, in
/// order, each outcome is kept, and none is left to attempt.
pub proof fn lemma_every_receiver_attempted(total: nat, outcomes: Seq<bool>)
    requires
        outcomes.len() == total,
    ensures
        fan_out_replay(fan_out_start(total), outcomes).outcomes == outcomes,
        fan_out_replay(fan_out_start(total), outcomes).total == total,
        fan_out_next(fan_out_replay(fan_out_start(total), outcomes)) is None,
{
    lemma_replay_keeps_outcomes(total, outcomes);
}

/// Replaying outcomes from a fresh fan-out records exactly those outcomes.
proof fn lemma_replay_keeps_outcomes(total: nat, outcomes: Seq<bool>)
    ensures
        fan_out_replay(fan_out_start(total), outcomes).outcomes == outcomes,
        fan_out_replay(fan_out_start(total), outcomes).total == total,
    decreases outcomes.len(),
{
    if outcomes.len() > 0 {
        lemma_replay_keeps_outcomes(total, outcomes.drop_last());
        assert(outcomes.drop_last().push(outcomes.last()) == outcomes);
    } else {
        assert(outcomes == Seq::<bool>::empty());
    }
}

} // verus!
