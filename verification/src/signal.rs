//! The one-time shutdown notice that the signal handler hands to the WebSocket client.

use vstd::prelude::*;

verus! {

#[verifier::external_type_specification]
#[verifier::external_body]
#[verifier::reject_recursive_types(T)]
pub struct ExOneshotSender<T>(tokio::sync::oneshot::Sender<T>);

#[verifier::external_type_specification]
#[verifier::external_body]
#[verifier::reject_recursive_types(T)]
pub struct ExOneshotReceiver<T>(tokio::sync::oneshot::Receiver<T>);

/// The error of an awaited `oneshot::Receiver`. Nothing in this crate uses it,
/// but Verus refuses the receiver's type without it, since the receiver's
/// `Future` impl names it as part of its output.
#[verifier::external_type_specification]
#[verifier::external_body]
pub struct ExOneshotRecvError(tokio::sync::oneshot::error::RecvError);

/// The channel that a oneshot sender sends on (it holds a shared handle to it).
pub uninterp spec fn sender_channel(s: tokio::sync::oneshot::Sender<()>) -> int;

/// The channel that a oneshot receiver receives from (it holds a shared handle to it).
pub uninterp spec fn receiver_channel(r: tokio::sync::oneshot::Receiver<()>) -> int;

/// `tokio::sync::oneshot::channel`: a fresh channel's two ends, which share
/// that one channel (its source builds one `Arc<Inner>` and hands a clone of it to
/// both ends). Nothing else about the ends is stated.
#[verifier::external_body]
fn oneshot_channel() -> (ends: (tokio::sync::oneshot::Sender<()>, tokio::sync::oneshot::Receiver<()>))
    ensures
        sender_channel(ends.0) == receiver_channel(ends.1),
{
    tokio::sync::oneshot::channel()
}

/// `tokio::sync::oneshot::Sender::send`: hands the value to the receiver, or
/// gives it back where the receiver is gone. Which of the two happens depends
/// on the other task and is not stated.
#[verifier::external_body]
fn oneshot_send(sender: tokio::sync::oneshot::Sender<()>) -> (r: Result<(), ()>) {
    sender.send(())
}

/// The sending end of the shutdown notice; it can notify once.
pub struct ShutdownCoordinator {
    sender: Option<tokio::sync::oneshot::Sender<()>>,
}

/// The receiving end of the shutdown notice.
pub struct ShutdownReceiver {
    receiver: Option<tokio::sync::oneshot::Receiver<()>>,
}

impl ShutdownCoordinator {
    /// Whether the notice has not been sent yet.
    pub closed spec fn is_pending(&self) -> bool {
        self.sender is Some
    }

    /// Whether this coordinator's sender and `receiver`'s receiver are both
    /// present and are the two ends of one channel.
    pub closed spec fn paired_with(&self, receiver: ShutdownReceiver) -> bool {
        &&& self.sender is Some
        &&& receiver.receiver_end() is Some
        &&& sender_channel(self.sender->0) == receiver_channel(receiver.receiver_end()->0)
    }

    /// A coordinator and its receiver, connected, with nothing sent.
    pub fn new() -> (r: (Self, ShutdownReceiver))
        ensures
            r.0.is_pending(),
            !r.1.receiver_taken(),
            r.0.paired_with(r.1),
    {
        let (tx, rx) = oneshot_channel();
        let coordinator = ShutdownCoordinator { sender: Some(tx) };
        let receiver = ShutdownReceiver { receiver: Some(rx) };
        (coordinator, receiver)
    }

    /// Sends the notice. Only the first call sends; later calls do nothing.
    pub fn shutdown(&mut self)
        ensures
            !final(self).is_pending(),
            !old(self).is_pending() ==> *final(self) == *old(self),
    {
        if let Some(sender) = self.sender.take() {
            let _ = oneshot_send(sender);
        }
    }
}

impl ShutdownReceiver {
    /// The receiving end, while it has not been handed out.
    pub closed spec fn receiver_end(&self) -> Option<tokio::sync::oneshot::Receiver<()>> {
        self.receiver
    }

    /// Whether the receiving end has been handed out to wait on.
    pub open spec fn receiver_taken(&self) -> bool {
        self.receiver_end() is None
    }

    /// Whether the receiving end has been handed out to wait on.
    pub fn is_shutdown(&self) -> (b: bool)
        ensures
            b == self.receiver_taken(),
    {
        self.receiver.is_none()
    }

    /// Hands out the receiving end, the first time only, to wait on it.
    pub fn take_receiver(&mut self) -> (r: Option<tokio::sync::oneshot::Receiver<()>>)
        ensures
            r == old(self).receiver_end(),
            final(self).receiver_taken(),
    {
        self.receiver.take()
    }
}

} // verus!
