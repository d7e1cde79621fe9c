use vstd::prelude::*;

use tokio::sync::mpsc::UnboundedSender;

use crate::session::Command;

verus! {

#[verifier::external_type_specification]
#[verifier::external_body]
#[verifier::reject_recursive_types(T)]
pub struct ExUnboundedSender<T>(UnboundedSender<T>);

/// `Clone` of `tokio::sync::mpsc::UnboundedSender`: another handle on the same
/// channel (it holds the same shared channel), so the copy is the sender itself.
pub assume_specification<T>[ <UnboundedSender<T> as Clone>::clone ](sender: &UnboundedSender<
    T,
>) -> (copy: UnboundedSender<T>)
    ensures
        copy == *sender,
;

/// The receipt of one send of a command to an event loop. Only
/// [`send_receipt`] makes one, so holding a receipt means that this command
/// was handed to this channel.
#[verifier::reject_recursive_types(T)]
pub struct Sent<T> {
    channel: Ghost<UnboundedSender<Command<T>>>,
    command: Ghost<Command<T>>,
}

impl<T> Sent<T> {
    /// The channel the command was handed to.
    pub closed spec fn channel(&self) -> UnboundedSender<Command<T>> {
        self.channel@
    }

    /// The command that was handed over.
    pub closed spec fn command(&self) -> Command<T> {
        self.command@
    }
}

/// Hands `command` to the event loop behind `channel`
/// (`tokio::sync::mpsc::UnboundedSender::send`) and returns the receipt.
///
/// Trusted: the receipt names `command` and `channel`, the very arguments of
/// the send. Whether the event loop still receives (the send fails, and the
/// command is dropped, once it has gone away) depends on the other task and is
/// not stated, nor is the order in which it receives queued commands. The send
/// aborts the process only when the channel's message counter overflows.
#[verifier::external_body]
pub(crate) fn send_receipt<T>(channel: &UnboundedSender<Command<T>>, command: Command<T>) -> (sent:
    Sent<T>)
    ensures
        sent.channel() == *channel,
        sent.command() == command,
{
    let sent = Sent { channel: Ghost(*channel), command: Ghost(command) };
    let _ = channel.send(command);
    sent
}

} // verus!
