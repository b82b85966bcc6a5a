//! The single-use stop signal sent from the owning handle to the worker thread.
use vstd::prelude::*;

verus! {

/// tokio's one-shot sender, carried as an opaque value.
#[verifier::external_type_specification]
#[verifier::external_body]
#[verifier::reject_recursive_types(T)]
pub struct ExSender<T>(tokio::sync::oneshot::Sender<T>);

/// tokio's one-shot receiver, handed to the worker's final wait unread.
#[verifier::external_type_specification]
#[verifier::external_body]
#[verifier::reject_recursive_types(T)]
pub struct ExReceiver<T>(tokio::sync::oneshot::Receiver<T>);

/// The error of awaiting a one-shot receiver; declared because the receiver's
/// `Future` impl names it.
#[verifier::external_type_specification]
#[verifier::external_body]
pub struct ExRecvError(tokio::sync::oneshot::error::RecvError);

/// Relies on tokio::sync::oneshot::channel: a fresh sender and receiver of one value.
#[verifier::external_body]
fn oneshot_channel() -> (tokio::sync::oneshot::Sender<()>, tokio::sync::oneshot::Receiver<()>) {
    tokio::sync::oneshot::channel()
}

/// Relies on tokio::sync::oneshot::Sender::send: consumes the sender and hands the
/// value to the receiver if it is still alive; whether it was is reported.
#[verifier::external_body]
fn send_unit(sender: tokio::sync::oneshot::Sender<()>) -> (delivered: bool) {
    sender.send(()).is_ok()
}

/// The sending half of the stop signal, usable at most once.
pub struct StopSignal {
    sender: Option<tokio::sync::oneshot::Sender<()>>,
}

impl StopSignal {
    /// Whether the signal has not been sent yet.
    pub closed spec fn armed(&self) -> bool {
        self.sender is Some
    }

    /// Creates a stop signal together with the receiver that the worker waits on.
    pub fn new() -> (r: (StopSignal, tokio::sync::oneshot::Receiver<()>))
        ensures
            r.0.armed(),
    {
        let (s, r) = oneshot_channel();
        (StopSignal { sender: Some(s) }, r)
    }

    /// Whether the signal has not been sent yet.
    pub fn is_armed(&self) -> (r: bool)
        ensures
            r == self.armed(),
    {
        self.sender.is_some()
    }

    /// Sends the signal if it has not been sent yet. Returns whether a send was
    /// attempted; a receiver that is already gone is not an error.
    pub fn fire(&mut self) -> (attempted: bool)
        ensures
            attempted == old(self).armed(),
            !final(self).armed(),
    {
        match self.sender.take() {
            Some(s) => {
                let _ = send_unit(s);
                true
            },
            None => false,
        }
    }
}

} // verus!
