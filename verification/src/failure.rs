//! How far each kind of failure reaches.
//!
//! A failure that concerns one client never reaches the detector or another
//! client. Losing the watched file ends the process, since nothing is left
//! to show.
use vstd::prelude::*;
use crate::detector::FileAccessError;
use crate::handler::TransportError;
use crate::render::RenderError;
use crate::startup::StartupError;

verus! {

/// The exit status of a process that ends on a failure.
pub const FAILURE_STATUS: i32 = 1;

/// Anything that can go wrong, by where it arises.
#[derive(Clone, Copy, Debug, PartialEq, Eq, Structural)]
pub enum Failure {
    /// The program was started with something it cannot work with.
    Startup(StartupError),
    /// The watched file could not be examined or read.
    FileAccess(FileAccessError),
    /// The document could not be rendered.
    Render(RenderError),
    /// A value could not be forwarded to a client.
    Transport(TransportError),
}

/// What a failure brings to an end.
#[derive(Clone, Copy, Debug, PartialEq, Eq, Structural)]
pub enum Reach {
    /// The process: it reports the failure and exits before serving.
    Startup,
    /// The process: it stops polling and serving, and exits.
    Process,
    /// One render attempt: the previous output stays current and polling
    /// goes on.
    RenderAttempt,
    /// One client's session: every other client is unaffected.
    Connection,
}

impl Failure {
    /// What the failure brings to an end.
    pub fn reach(&self) -> (reach: Reach)
        ensures
            reach == match self {
                Failure::Startup(_) => Reach::Startup,
                Failure::FileAccess(_) => Reach::Process,
                Failure::Render(_) => Reach::RenderAttempt,
                Failure::Transport(_) => Reach::Connection,
            },
    {
        match self {
            Failure::Startup(_) => Reach::Startup,
            Failure::FileAccess(_) => Reach::Process,
            Failure::Render(_) => Reach::RenderAttempt,
            Failure::Transport(_) => Reach::Connection,
        }
    }

    /// Whether the failure ends the process.
    pub fn is_fatal(&self) -> (fatal: bool)
        ensures
            fatal == (self is Startup || self is FileAccess),
    {
        match self {
            Failure::Startup(_) => true,
            Failure::FileAccess(_) => true,
            Failure::Render(_) => false,
            Failure::Transport(_) => false,
        }
    }

    /// The status the process exits with on this failure, if it exits.
    pub fn exit_status(&self) -> (status: Option<i32>)
        ensures
            status == if self is Startup || self is FileAccess {
                Some(FAILURE_STATUS)
            } else {
                None
            },
            status matches Some(code) ==> code != 0,
    {
        if self.is_fatal() {
            Some(FAILURE_STATUS)
        } else {
            None
        }
    }
}

} // verus!
