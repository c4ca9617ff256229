//! The one-shot channels of `tokio` that carry a result to a waiting adapter.
use crate::protocol::CommandResult;
use tokio::sync::oneshot;
use tokio::sync::oneshot::{Receiver, Sender};
use vstd::prelude::*;

verus! {

/// `tokio::sync::oneshot::Sender`, carried as an opaque value.
#[verifier::external_type_specification]
#[verifier::external_body]
#[verifier::reject_recursive_types(T)]
pub struct ExSender<T>(Sender<T>);

/// `tokio::sync::oneshot::Receiver`, carried as an opaque value.
#[verifier::external_type_specification]
#[verifier::external_body]
#[verifier::reject_recursive_types(T)]
pub struct ExReceiver<T>(Receiver<T>);

/// The error of a `Receiver` whose sender is gone, carried as an opaque value.
#[verifier::external_type_specification]
#[verifier::external_body]
pub struct ExRecvError(oneshot::error::RecvError);

/// The receiver that was made together with this sender.
pub uninterp spec fn receiver_of(sender: Sender<CommandResult>) -> Receiver<CommandResult>;

/// `tokio::sync::oneshot::channel`: the two ends of a new channel.
#[verifier::external_body]
pub(crate) fn open_channel() -> (r: (Sender<CommandResult>, Receiver<CommandResult>))
    ensures
        receiver_of(r.0) == r.1,
{
    oneshot::channel()
}

/// The evidence that a result was sent. Nothing but the call that sends makes
/// one.
pub struct Sending {
    sender: Ghost<Sender<CommandResult>>,
    result: Ghost<CommandResult>,
    reached: bool,
}

impl Sending {
    /// The end that the result was sent on.
    pub closed spec fn sender(&self) -> Sender<CommandResult> {
        self.sender@
    }

    /// The result that was sent.
    pub closed spec fn result(&self) -> CommandResult {
        self.result@
    }

    /// Whether the receiver was still there to get it.
    pub closed spec fn has_reached(&self) -> bool {
        self.reached
    }

    /// Whether the receiver was still there to get it.
    pub fn reached(&self) -> (r: bool)
        ensures
            r == self.has_reached(),
    {
        self.reached
    }
}

/// Whether anything was sent and got there.
pub fn reached_anyone(sending: &Option<Sending>) -> (r: bool)
    ensures
        r == (sending is Some && sending->0.has_reached()),
{
    match sending {
        Some(s) => s.reached(),
        None => false,
    }
}

/// `Sender::send`: hands the result to the receiver, if it is still there. The
/// evidence is for this end and this result.
///
/// Whether the receiver is still there is up to the task that holds it, so
/// nothing is claimed of that.
#[verifier::external_body]
pub(crate) fn send_result(sender: Sender<CommandResult>, result: CommandResult) -> (r: Sending)
    ensures
        r.sender() == sender,
        r.result() == result,
{
    let (end, value) = (Ghost(sender), Ghost(result));
    let reached = sender.send(result).is_ok();
    Sending { sender: end, result: value, reached }
}

} // verus!
