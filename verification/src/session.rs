//! The session handle, its commands, and the supervisor's verdict.
use vstd::prelude::*;

pub mod channel;

use tokio::sync::mpsc::UnboundedSender;

use crate::ip_addr::IpAddr;
use crate::session::channel::{send_receipt, Sent};

verus! {

/// A request to the event loop of a running session. `T` is the type of the
/// TUN device handle.
#[derive(Debug, PartialEq, Eq)]
pub enum Command<T> {
    /// Close and re-open the portal connection, refresh all allocations and
    /// rebind the local UDP sockets.
    Reconnect,
    /// Replace the upstream DNS servers.
    SetDns(Vec<IpAddr>),
    /// Replace the TUN device.
    SetTun(T),
    /// Stop the session.
    Stop,
}

/// The entry point to a running connlib session: a handle on its event loop.
///
/// A session is started by the caller, which spawns the event loop and hands
/// its command channel to [`Session::new`]; [`Session::disconnect`] stops it.
/// Each request method hands one command to the event loop and returns the
/// receipt of that send: which command went to which channel.
#[verifier::reject_recursive_types(T)]
pub struct Session<T> {
    channel: UnboundedSender<Command<T>>,
}

impl<T> Clone for Session<T> {
    /// Another handle on the same event loop.
    fn clone(&self) -> (copy: Self)
        ensures
            copy.channel() == self.channel(),
    {
        Session { channel: self.channel.clone() }
    }
}

impl<T> Session<T> {
    /// The command channel of the session's event loop.
    pub closed spec fn channel(&self) -> UnboundedSender<Command<T>> {
        self.channel
    }

    /// A handle on the event loop that receives from `channel`.
    pub fn new(channel: UnboundedSender<Command<T>>) -> (session: Self)
        ensures
            session.channel() == channel,
    {
        Session { channel }
    }

    /// Asks the session to reconnect: close and re-open the portal
    /// connection, refresh all allocations and rebind the local UDP sockets.
    pub fn reconnect(&self) -> (sent: Sent<T>)
        ensures
            sent.channel() == self.channel(),
            sent.command() == Command::<T>::Reconnect,
    {
        send_receipt(&self.channel, Command::Reconnect)
    }

    /// Asks the session to use `new_dns` as its upstream DNS servers.
    pub fn set_dns(&self, new_dns: Vec<IpAddr>) -> (sent: Sent<T>)
        ensures
            sent.channel() == self.channel(),
            sent.command() == Command::<T>::SetDns(new_dns),
    {
        send_receipt(&self.channel, Command::SetDns(new_dns))
    }

    /// Hands the session a new TUN device.
    pub fn set_tun(&self, new_tun: T) -> (sent: Sent<T>)
        ensures
            sent.channel() == self.channel(),
            sent.command() == Command::<T>::SetTun(new_tun),
    {
        send_receipt(&self.channel, Command::SetTun(new_tun))
    }

    /// Stops the session; the handle is consumed.
    pub fn disconnect(self) -> (sent: Sent<T>)
        ensures
            sent.channel() == self.channel(),
            sent.command() == Command::<T>::Stop,
    {
        send_receipt(&self.channel, Command::Stop)
    }
}

/// What a panic carried.
#[derive(Debug, PartialEq, Eq)]
pub enum PanicPayload {
    /// A message, from a `&str` or a `String` payload.
    Message(String),
    /// Any other payload.
    NonString,
}

/// How the task that runs a session ended. `E` is the session's error type.
#[derive(Debug, PartialEq, Eq)]
pub enum TaskOutcome<E> {
    /// The task returned.
    Finished(Result<(), E>),
    /// The task panicked.
    Panicked(PanicPayload),
    /// The task was cancelled.
    Cancelled,
}

/// Why a session ended against the caller's will.
#[derive(Debug, PartialEq, Eq)]
pub enum DisconnectError<E> {
    /// The session failed with this error.
    Failed(E),
    /// The session panicked with this message.
    Panic(String),
    /// The session panicked with a payload that is not a string.
    PanicNonStringPayload,
    /// The session's task was cancelled.
    Cancelled,
}

/// The decision of the session supervisor: the error to report through the
/// `on_disconnect` callback when the session task ends, or `None` when it
/// exited gracefully.
pub fn supervise<E>(outcome: TaskOutcome<E>) -> (error: Option<DisconnectError<E>>)
    ensures
        error is None <==> outcome matches TaskOutcome::Finished(Ok(())),
        outcome matches TaskOutcome::Finished(Err(e)) ==> error == Some(DisconnectError::Failed(e)),
        outcome matches TaskOutcome::Panicked(PanicPayload::Message(m)) ==> error == Some(
            DisconnectError::<E>::Panic(m),
        ),
        outcome matches TaskOutcome::Panicked(PanicPayload::NonString) ==> error == Some(
            DisconnectError::<E>::PanicNonStringPayload,
        ),
        outcome matches TaskOutcome::Cancelled ==> error == Some(DisconnectError::<E>::Cancelled),
{
    match outcome {
        TaskOutcome::Finished(Ok(())) => None,
        TaskOutcome::Finished(Err(e)) => Some(DisconnectError::Failed(e)),
        TaskOutcome::Panicked(PanicPayload::Message(msg)) => Some(DisconnectError::Panic(msg)),
        TaskOutcome::Panicked(PanicPayload::NonString) => Some(DisconnectError::PanicNonStringPayload),
        TaskOutcome::Cancelled => Some(DisconnectError::Cancelled),
    }
}

} // verus!
