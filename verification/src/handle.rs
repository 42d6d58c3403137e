//! The caller's token for one subscription: it can ask, once, for the
//! subscription to stop.

use futures::channel::oneshot::{Canceled, Receiver, Sender};
use vstd::prelude::*;

verus! {

/// `futures::channel::oneshot::Sender`, the end of a one-shot channel that
/// sends.
#[verifier::external_type_specification]
#[verifier::external_body]
#[verifier::reject_recursive_types(T)]
pub struct ExSender<T>(Sender<T>);

/// `futures::channel::oneshot::Receiver`, the end that receives. It is
/// handed to whoever runs the subscription's loop and never used here.
#[verifier::external_type_specification]
#[verifier::external_body]
#[verifier::reject_recursive_types(T)]
pub struct ExReceiver<T>(Receiver<T>);

/// `futures::channel::oneshot::Canceled`, what a receiver yields when its
/// sender is gone.
#[verifier::external_type_specification]
#[verifier::external_body]
pub struct ExCanceled(Canceled);

/// `futures::channel::oneshot::channel` for the unit signal: a new channel,
/// as its sending and its receiving end. Nothing is claimed of the two.
#[verifier::external_body]
fn signal_channel() -> (ends: (Sender<()>, Receiver<()>)) {
    futures::channel::oneshot::channel::<()>()
}

/// `futures::channel::oneshot::Sender::send` with the unit signal. It uses
/// the sender up and answers `Err` when the receiving end is already gone;
/// which of the two happens is the other end's doing, so nothing is claimed
/// of the answer.
#[verifier::external_body]
fn send_signal(sender: Sender<()>) -> (answer: Result<(), ()>) {
    sender.send(())
}

/// What one call of [`SubscriptionHandle::cancel`] did.
#[derive(Debug, Clone, Copy, PartialEq, Eq, Structural)]
pub enum CancelOutcome {
    /// The signal was sent and stored for the background task.
    Signalled,
    /// The signal was sent, but the background task had already gone.
    ReceiverGone,
    /// Nothing was sent: an earlier call had used the sender up.
    AlreadyCanceled,
}

impl CancelOutcome {
    /// Whether this call sent the signal.
    pub open spec fn sent(self) -> bool {
        self != CancelOutcome::AlreadyCanceled
    }
}

/// The caller's handle on a running subscription.
pub struct SubscriptionHandle {
    cancel_sender: Option<Sender<()>>,
}

/// One cancellation of a handle that is armed or not: whether it is armed
/// afterwards, which it never is, and whether the signal was sent, which it
/// was if and only if the handle was armed.
pub open spec fn cancel_once(armed: bool) -> (bool, bool) {
    (false, armed)
}

/// How many signals `calls` cancellations in a row send, starting from a
/// handle that is armed or not.
pub open spec fn signals_sent(armed: bool, calls: nat) -> nat
    decreases calls,
{
    if calls == 0 {
        0
    } else {
        let (armed_after, sent) = cancel_once(armed);
        (if sent { 1nat } else { 0nat }) + signals_sent(armed_after, (calls - 1) as nat)
    }
}

impl SubscriptionHandle {
    /// The sender the handle holds, until a cancellation uses it up.
    pub closed spec fn sender(&self) -> Option<Sender<()>> {
        self.cancel_sender
    }

    /// Whether the handle still holds its sender, so that the next
    /// cancellation sends the signal.
    pub open spec fn armed(&self) -> bool {
        self.sender() is Some
    }

    /// A handle that owns the sending end of a subscription's cancellation
    /// channel.
    pub fn new(cancel_sender: Sender<()>) -> (handle: SubscriptionHandle)
        ensures
            handle.sender() == Some(cancel_sender),
    {
        SubscriptionHandle { cancel_sender: Some(cancel_sender) }
    }

    /// A handle on a new cancellation channel, with the receiving end for the
    /// background task to watch.
    pub fn open() -> (ends: (SubscriptionHandle, Receiver<()>))
        ensures
            ends.0.armed(),
    {
        let (sender, receiver) = signal_channel();
        (SubscriptionHandle::new(sender), receiver)
    }

    /// Whether a cancellation would still send the signal.
    pub fn is_armed(&self) -> (armed: bool)
        ensures
            armed == self.armed(),
    {
        self.cancel_sender.is_some()
    }

    /// Asks the subscription to stop. The first call takes the sender out of
    /// the handle and sends the signal with it; every later call finds the
    /// handle empty and does nothing. The call returns at once: it does not
    /// wait for the background task to notice.
    pub fn cancel(&mut self) -> (outcome: CancelOutcome)
        ensures
            (final(self).armed(), outcome.sent()) == cancel_once(old(self).armed()),
    {
        match self.cancel_sender.take() {
            Some(sender) => match send_signal(sender) {
                Ok(()) => CancelOutcome::Signalled,
                Err(()) => CancelOutcome::ReceiverGone,
            },
            None => CancelOutcome::AlreadyCanceled,
        }
    }
}

/// However often a handle is cancelled, the signal is sent at most once:
/// exactly once if the handle was armed and cancelled at all, never
/// otherwise.
pub proof fn lemma_cancel_sends_at_most_once(armed: bool, calls: nat)
    ensures
        signals_sent(armed, calls) <= 1,
        signals_sent(armed, calls) == 1 <==> armed && calls >= 1,
    decreases calls,
{
    if calls > 0 {
        lemma_cancel_sends_at_most_once(false, (calls - 1) as nat);
    }
}

} // verus!
