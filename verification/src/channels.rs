//! Declarations of the channel types the engine stores and the calls it
//! makes on them: a single-use slot per pending request and an unbounded
//! per-topic stream for subscribers.

use vstd::prelude::*;

verus! {

/// Declares tokio's single-use channel sender so values of it can live in
/// verified fields.
#[verifier::external_type_specification]
#[verifier::external_body]
#[verifier::reject_recursive_types(T)]
pub struct ExOneshotSender<T>(tokio::sync::oneshot::Sender<T>);

/// Declares tokio's single-use channel receiver so it can be handed to the
/// caller that awaits a reply.
#[verifier::external_type_specification]
#[verifier::external_body]
#[verifier::reject_recursive_types(T)]
pub struct ExOneshotReceiver<T>(tokio::sync::oneshot::Receiver<T>);

/// Declares the error the single-use receiver reports when its sender was
/// dropped; awaiting it is the caller's side, outside this crate.
#[verifier::external_type_specification]
#[verifier::external_body]
pub struct ExRecvError(tokio::sync::oneshot::error::RecvError);

/// Declares tokio's unbounded channel sender, the delivery side of one
/// topic subscription.
#[verifier::external_type_specification]
#[verifier::external_body]
#[verifier::reject_recursive_types(T)]
pub struct ExUnboundedSender<T>(tokio::sync::mpsc::UnboundedSender<T>);

/// Declares tokio's unbounded channel receiver, the stream a subscriber
/// consumes.
#[verifier::external_type_specification]
#[verifier::external_body]
#[verifier::reject_recursive_types(T)]
pub struct ExUnboundedReceiver<T>(tokio::sync::mpsc::UnboundedReceiver<T>);

/// Relies on tokio::sync::oneshot::channel: returns a fresh connected
/// sender/receiver pair; nothing about the pairing is visible here.
pub assume_specification<T>[ tokio::sync::oneshot::channel::<T> ]() -> (r: (
    tokio::sync::oneshot::Sender<T>,
    tokio::sync::oneshot::Receiver<T>,
));

/// Relies on tokio::sync::oneshot::Sender::send: consumes the sender and
/// either delivers `t` or, when the receiver is already gone, hands `t`
/// back unchanged.
pub assume_specification<T>[ tokio::sync::oneshot::Sender::<T>::send ](s: tokio::sync::oneshot::Sender<T>, t: T) -> (r: Result<(), T>)
    ensures
        (r matches Err(v) ==> v == t),
;

/// Relies on tokio::sync::mpsc::unbounded_channel: returns a fresh
/// connected sender/receiver pair; nothing about the pairing is visible
/// here.
pub assume_specification<T>[ tokio::sync::mpsc::unbounded_channel::<T> ]() -> (r: (
    tokio::sync::mpsc::UnboundedSender<T>,
    tokio::sync::mpsc::UnboundedReceiver<T>,
));

/// Relies on tokio::sync::mpsc::UnboundedSender::send: queues the payload
/// without blocking; the call fails only when the receiving half is gone.
/// Returns whether the payload was accepted.
#[verifier::external_body]
pub(crate) fn send_payload(s: &tokio::sync::mpsc::UnboundedSender<String>, payload: String) -> (ok:
    bool) {
    s.send(payload).is_ok()
}

} // verus!
