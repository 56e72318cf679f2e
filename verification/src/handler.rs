//! The connection handler: one client's session on the channel.
//!
//! The handler decides and its caller acts. [`ConnectionHandler::next`] says
//! whether there is a value to forward or whether to wait for the writer;
//! the caller sends the value over the client's connection and reports how
//! that went with [`ConnectionHandler::on_forwarded`]. A handler never asks
//! for a render: it only passes on what the channel holds.
use vstd::prelude::*;
use crate::channel::{caught_up, pending, BroadcastChannel, Subscription};

verus! {

/// Why a value could not be forwarded to a client.
#[derive(Clone, Copy, Debug, PartialEq, Eq, Structural)]
pub enum TransportError {
    /// The client has gone away.
    Disconnected,
    /// The connection failed while sending.
    SendFailed,
}

/// What the caller does next for a client.
#[derive(Debug)]
pub enum Step {
    /// Nothing new: wait until the writer has published, then ask again.
    Wait,
    /// Send this text to the client as one message, and report the outcome.
    Forward(String),
    /// The session is over: release the connection.
    Close,
}

/// A handler's state as a plain value.
pub struct HandlerState {
    /// The watermark of the handler's subscription.
    pub seen: nat,
    /// Whether the session is still running.
    pub open: bool,
}

/// One client's session.
#[derive(Debug)]
pub struct ConnectionHandler {
    subscription: Subscription,
    open: bool,
}

impl View for ConnectionHandler {
    type V = HandlerState;

    closed spec fn view(&self) -> HandlerState {
        HandlerState { seen: self.subscription@, open: self.open }
    }
}

impl ConnectionHandler {
    /// A running session that reads through `subscription`.
    pub fn new(subscription: Subscription) -> (handler: Self)
        ensures
            handler@ == (HandlerState { seen: subscription@, open: true }),
    {
        ConnectionHandler { subscription, open: true }
    }

    /// Whether the session is still running.
    pub fn is_open(&self) -> (open: bool)
        ensures
            open == self@.open,
    {
        self.open
    }

    /// The next step of the session.
    ///
    /// A running session forwards the channel's current value if it is newer
    /// than what the client has, and moves its watermark up to it; otherwise
    /// it waits. A session that has ended stays ended.
    pub fn next(&mut self, channel: &BroadcastChannel) -> (step: Step)
        ensures
            final(self)@.open == old(self)@.open,
            !old(self)@.open ==> step is Close && final(self)@ == old(self)@,
            old(self)@.open ==> {
                &&& final(self)@.seen == caught_up(channel@, old(self)@.seen)
                &&& match pending(channel@, old(self)@.seen) {
                    Some(value) => step matches Step::Forward(text) && text@ == value,
                    None => step is Wait,
                }
            },
    {
        if !self.open {
            return Step::Close;
        }
        match channel.take_change(&mut self.subscription) {
            Some(text) => Step::Forward(text),
            None => Step::Wait,
        }
    }

    /// Takes the outcome of forwarding a value to the client.
    ///
    /// A failure ends the session and is handed back to be logged. It
    /// concerns this client alone. After a success the session goes on.
    pub fn on_forwarded(&mut self, outcome: Result<(), TransportError>) -> (failure: Option<
        TransportError,
    >)
        ensures
            final(self)@.seen == old(self)@.seen,
            final(self)@.open == (old(self)@.open && outcome is Ok),
            failure == match outcome {
                Ok(_) => None,
                Err(error) => Some(error),
            },
    {
        match outcome {
            Ok(_) => None,
            Err(error) => {
                self.open = false;
                Some(error)
            },
        }
    }

    /// Ends the session, as when the client's connection is closed or the
    /// writer is gone.
    pub fn close(&mut self)
        ensures
            final(self)@.seen == old(self)@.seen,
            !final(self)@.open,
    {
        self.open = false;
    }
}

} // verus!
