//! The outbound channel: locally produced messages on their way to the event
//! loop.
//!
//! The channel is shared with other tasks, so nothing can be said of what a
//! send will meet. What is fixed is how often a line is offered.

use futures::channel::mpsc::Receiver;
use futures::channel::mpsc::Sender;
use futures::channel::mpsc::TrySendError;
use vstd::prelude::*;

verus! {

/// The sending half of a bounded channel.
#[verifier::external_type_specification]
#[verifier::external_body]
#[verifier::reject_recursive_types(T)]
pub struct ExSender<T>(Sender<T>);

/// The receiving half of a bounded channel.
#[verifier::external_type_specification]
#[verifier::external_body]
#[verifier::reject_recursive_types(T)]
pub struct ExReceiver<T>(Receiver<T>);

/// The error of a send that did not go through. It carries the message
/// that was not sent.
#[verifier::external_type_specification]
#[verifier::external_body]
#[verifier::reject_recursive_types(T)]
pub struct ExTrySendError<T>(TrySendError<T>);

/// A message produced locally, to be published by the event loop.
pub type ClientMessage = String;

/// `futures::channel::mpsc::channel`: a fresh channel with `buffer` shared
/// slots and one slot per sender. The function refuses a buffer of a quarter
/// of the address space or more.
#[verifier::external_body]
pub(crate) fn open_channel(buffer: usize) -> (ends: (Sender<ClientMessage>, Receiver<ClientMessage>))
    requires
        buffer < usize::MAX / 4,
{
    futures::channel::mpsc::channel::<ClientMessage>(buffer)
}

/// The message that a failed send hands back: what
/// `TrySendError::into_inner` gives.
pub uninterp spec fn unsent(error: TrySendError<ClientMessage>) -> Seq<char>;

/// `Sender::try_send`: offers the message without waiting. Whether it is
/// taken depends on the other end; if it is not, the error carries the
/// message that was offered.
#[verifier::external_body]
fn try_send(sender: &mut Sender<ClientMessage>, message: ClientMessage) -> (r: Result<
    (),
    TrySendError<ClientMessage>,
>)
    ensures
        match r {
            Ok(_) => true,
            Err(error) => unsent(error) == message@,
        },
{
    sender.try_send(message)
}

/// `TrySendError::into_inner`: the message that was not sent.
#[verifier::external_body]
fn into_inner(error: TrySendError<ClientMessage>) -> (message: ClientMessage)
    ensures
        message@ == unsent(error),
{
    error.into_inner()
}

/// `Sender::close_channel`: closes the channel for every sender, so that the
/// receiver sees its end once the queue is drained.
#[verifier::external_body]
pub(crate) fn close_channel(sender: &mut Sender<ClientMessage>) {
    sender.close_channel()
}

/// `Sender::clone`: another handle on the same channel.
#[verifier::external_body]
pub(crate) fn clone_sender(sender: &Sender<ClientMessage>) -> (copy: Sender<ClientMessage>) {
    sender.clone()
}

/// How the forwarding of one line ended.
#[derive(Debug, PartialEq, Eq)]
pub enum Delivery {
    /// The channel took the line at the first offer.
    Sent,
    /// The first offer failed and the second went through.
    SentOnRetry,
    /// Both offers failed. The line was not sent and is handed back, to be
    /// reported.
    Dropped(ClientMessage),
}

/// How forwarding ends once the second offer has been made: the line is
/// sent, or it is dropped and what the failed offer hands back is kept for
/// the report.
pub fn delivery_after_retry(retry: Result<(), TrySendError<ClientMessage>>) -> (delivery: Delivery)
    ensures
        match retry {
            Ok(_) => delivery == Delivery::SentOnRetry,
            Err(error) => delivery matches Delivery::Dropped(line) && line@ == unsent(error),
        },
{
    match retry {
        Ok(_) => Delivery::SentOnRetry,
        Err(error) => Delivery::Dropped(into_inner(error)),
    }
}

/// How forwarding goes on once the first offer has been made. If the
/// channel took the line, it is sent, and nothing more is offered. If not,
/// what the failed offer hands back is offered once more, and that second
/// offer decides: the line is sent on retry, or dropped and handed back.
pub fn delivery_after_offer(
    sender: &mut Sender<ClientMessage>,
    first: Result<(), TrySendError<ClientMessage>>,
) -> (delivery: Delivery)
    ensures
        match first {
            Ok(_) => delivery == Delivery::Sent,
            Err(error) => delivery == Delivery::SentOnRetry || (delivery matches Delivery::Dropped(
                line,
            ) && line@ == unsent(error)),
        },
{
    match first {
        Ok(_) => Delivery::Sent,
        Err(error) => {
            let retry = try_send(sender, into_inner(error));
            delivery_after_retry(retry)
        },
    }
}

/// Forwards one line to the event loop: it is offered to the channel, and
/// what a failed first offer hands back is offered once more. There is no
/// third offer: a line that is dropped comes back as it was given.
pub fn forward_line(sender: &mut Sender<ClientMessage>, line: ClientMessage) -> (delivery:
    Delivery)
    ensures
        delivery matches Delivery::Dropped(dropped) ==> dropped@ == line@,
{
    let first = try_send(sender, line);
    delivery_after_offer(sender, first)
}

} // verus!
