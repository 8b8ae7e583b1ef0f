//! Channels between the game and a worker thread. The channels are those of
//! the crate `crossbeam_channel`; what other threads do to a channel is not
//! known here, so nothing is claimed of what a call returns.

use vstd::prelude::*;

verus! {

/// The sending end of a channel of `crossbeam_channel`, taken as it is.
#[verifier::external_type_specification]
#[verifier::external_body]
#[verifier::reject_recursive_types(T)]
pub struct ExSender<T>(crossbeam_channel::Sender<T>);

/// The receiving end of a channel of `crossbeam_channel`, taken as it is.
#[verifier::external_type_specification]
#[verifier::external_body]
#[verifier::reject_recursive_types(T)]
pub struct ExReceiver<T>(crossbeam_channel::Receiver<T>);

/// Calls `crossbeam_channel::unbounded`, which makes a channel that holds
/// any number of messages. Nothing is claimed of the two ends.
#[verifier::external_body]
pub(crate) fn open<T>() -> (ends: (crossbeam_channel::Sender<T>, crossbeam_channel::Receiver<T>)) {
    crossbeam_channel::unbounded()
}

/// Calls `Receiver::try_recv`, which takes a message from the channel if one
/// waits there and never blocks. Whether one waits depends on the sender,
/// so nothing is claimed of the result; an empty and a disconnected channel
/// both give `None`.
#[verifier::external_body]
pub(crate) fn poll<T>(rx: &crossbeam_channel::Receiver<T>) -> (arrived: Option<T>) {
    match rx.try_recv() {
        Ok(message) => Some(message),
        Err(_) => None,
    }
}

/// Calls `Sender::try_send` with the empty message, which puts it into the
/// channel unless the channel is full or disconnected, and never blocks.
/// Tells whether the message went in; nothing is claimed of that.
#[verifier::external_body]
pub(crate) fn signal(tx: &crossbeam_channel::Sender<()>) -> (sent: bool) {
    match tx.try_send(()) {
        Ok(_) => true,
        Err(_) => false,
    }
}

} // verus!
