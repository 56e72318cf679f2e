//! The change detector: a poll-driven state machine that decides when the
//! watched document is rendered and published again.
//!
//! The detector never touches the file. On every timer tick the caller reads
//! the file's modification time and reports it with
//! [`ChangeDetector::on_tick`]; when the detector asks for the content, the
//! caller reads the file and reports it with
//! [`ChangeDetector::on_content`]. Each call answers with the [`Action`] the
//! caller takes next.
//!
//! Between two ticks the detector is idle. A tick that finds a new
//! modification time opens a check, which lasts until the content has been
//! reported; every other tick is over at once. However a check ends, the
//! detector is idle again afterwards.
//!
//! The decision rests on the modification time alone. A file that is written
//! again with the same content and a new time is rendered and published
//! again; a file whose time stands still is left alone whatever it holds.
use vstd::prelude::*;
use crate::channel::BroadcastChannel;
use crate::render::{markdown_html, render, RenderError};

verus! {

/// The recommended time between two polls, in milliseconds.
pub const POLL_INTERVAL_MILLIS: u64 = 100;

/// A file modification time, as its distance from the Unix epoch.
///
/// The detector only ever asks whether two timestamps are equal, and they
/// are when all fields agree. The epoch itself is written with
/// `before_epoch` false.
#[derive(Clone, Copy, Debug, PartialEq, Eq, Structural)]
pub struct Timestamp {
    /// Whether the time lies before the epoch.
    pub before_epoch: bool,
    /// The whole seconds between the time and the epoch.
    pub seconds: u64,
    /// The nanoseconds beyond the whole seconds.
    pub nanos: u32,
}

/// Why the watched file could not be examined or read.
#[derive(Clone, Copy, Debug, PartialEq, Eq, Structural)]
pub enum FileAccessError {
    /// The file does not exist.
    Missing,
    /// The file exists but cannot be read.
    Unreadable,
    /// The file's metadata or its modification time cannot be obtained.
    NoMetadata,
}

/// Where the detector stands between two calls.
#[derive(Clone, Copy, Debug, PartialEq, Eq, Structural)]
pub enum Phase {
    /// Waiting for the next tick.
    Idle,
    /// The file was found with the given new modification time, and its
    /// content is awaited.
    Checking(Timestamp),
}

/// What the caller does after reporting to the detector.
#[derive(Clone, Copy, Debug, PartialEq, Eq, Structural)]
pub enum Action {
    /// Nothing is left to do for this tick: wait for the next one.
    Sleep,
    /// Read the whole file and report it with `on_content`.
    ReadContent,
    /// The document could not be rendered. The previous output stays
    /// current: log the failure and wait for the next tick.
    LogRenderFailure(RenderError),
    /// The watched file is lost: stop polling and end the process with a
    /// failure status.
    Terminate(FileAccessError),
}

/// The detector's state as a plain value.
pub struct DetectorState {
    /// The modification time of the file when it was last handed to the
    /// renderer, or `None` before the first time. `None` differs from every
    /// timestamp, so the first successful poll always asks for the content.
    pub last_seen: Option<Timestamp>,
    /// Whether a check is open, and for which modification time.
    pub phase: Phase,
}

impl DetectorState {
    /// The state of a detector that has not polled yet.
    pub open spec fn initial() -> DetectorState {
        DetectorState { last_seen: None, phase: Phase::Idle }
    }

    /// Whether a file with modification time `modified` has to be rendered.
    pub open spec fn is_stale(self, modified: Timestamp) -> bool {
        self.last_seen != Some(modified)
    }

    /// The state after a tick on which reading the modification time gave
    /// `modified`.
    pub open spec fn after_tick(self, modified: Result<Timestamp, FileAccessError>) -> DetectorState {
        match modified {
            Ok(stamp) if self.is_stale(stamp) => DetectorState {
                last_seen: self.last_seen,
                phase: Phase::Checking(stamp),
            },
            _ => DetectorState { last_seen: self.last_seen, phase: Phase::Idle },
        }
    }

    /// The action that answers such a tick.
    pub open spec fn tick_action(self, modified: Result<Timestamp, FileAccessError>) -> Action {
        match modified {
            Err(error) => Action::Terminate(error),
            Ok(stamp) => if self.is_stale(stamp) {
                Action::ReadContent
            } else {
                Action::Sleep
            },
        }
    }

    /// The state after the renderer has run on the content that a check
    /// asked for, whether it succeeded or not. Outside a check nothing
    /// changes.
    pub open spec fn after_render(self) -> DetectorState {
        match self.phase {
            Phase::Idle => self,
            Phase::Checking(stamp) => DetectorState { last_seen: Some(stamp), phase: Phase::Idle },
        }
    }

    /// The state after reading the content failed.
    pub open spec fn after_read_failure(self) -> DetectorState {
        DetectorState { last_seen: self.last_seen, phase: Phase::Idle }
    }
}

/// The publications of a channel after a check has ended with the renderer's
/// result `rendered`: a successful result is appended, a failure and a result
/// outside a check leave the history as it was.
pub open spec fn published_after_render(
    state: DetectorState,
    published: Seq<Seq<char>>,
    rendered: Result<Seq<char>, RenderError>,
) -> Seq<Seq<char>> {
    match (state.phase, rendered) {
        (Phase::Checking(_), Ok(html)) => published.push(html),
        _ => published,
    }
}

/// The action that answers the renderer's result.
pub open spec fn render_action(state: DetectorState, rendered: Result<Seq<char>, RenderError>) -> Action {
    match (state.phase, rendered) {
        (Phase::Checking(_), Err(error)) => Action::LogRenderFailure(error),
        _ => Action::Sleep,
    }
}

/// The renderer's result with the text taken by its view.
pub open spec fn rendered_view(rendered: Result<String, RenderError>) -> Result<Seq<char>, RenderError> {
    match rendered {
        Ok(html) => Ok(html@),
        Err(error) => Err(error),
    }
}

/// Watches one file through the modification times its caller reports.
#[derive(Debug)]
pub struct ChangeDetector {
    last_seen: Option<Timestamp>,
    phase: Phase,
}

impl View for ChangeDetector {
    type V = DetectorState;

    closed spec fn view(&self) -> DetectorState {
        DetectorState { last_seen: self.last_seen, phase: self.phase }
    }
}

impl ChangeDetector {
    /// A detector that has seen nothing yet.
    pub fn new() -> (detector: Self)
        ensures
            detector@ == DetectorState::initial(),
    {
        ChangeDetector { last_seen: None, phase: Phase::Idle }
    }

    /// The modification time of the file when it was last rendered.
    pub fn last_seen(&self) -> (last_seen: Option<Timestamp>)
        ensures
            last_seen == self@.last_seen,
    {
        self.last_seen
    }

    /// The detector's phase.
    pub fn phase(&self) -> (phase: Phase)
        ensures
            phase == self@.phase,
    {
        self.phase
    }

    /// Takes the outcome of reading the file's modification time on a timer
    /// tick.
    ///
    /// A failure ends the watch. A time equal to the one last seen ends the
    /// tick with nothing done. Any other time starts a check and asks for
    /// the content. A check still open from an earlier tick is abandoned.
    pub fn on_tick(&mut self, modified: Result<Timestamp, FileAccessError>) -> (action: Action)
        ensures
            final(self)@ == old(self)@.after_tick(modified),
            action == old(self)@.tick_action(modified),
    {
        match modified {
            Err(error) => {
                self.phase = Phase::Idle;
                Action::Terminate(error)
            },
            Ok(stamp) => {
                let stale = match self.last_seen {
                    None => true,
                    Some(seen) => !(seen == stamp),
                };
                if stale {
                    self.phase = Phase::Checking(stamp);
                    Action::ReadContent
                } else {
                    self.phase = Phase::Idle;
                    Action::Sleep
                }
            },
        }
    }

    /// Takes the renderer's result for the content that the open check asked
    /// for, and ends the check.
    ///
    /// A rendered document is published on `channel`. A failure leaves the
    /// channel alone. Either way the checked modification time becomes the
    /// one last seen, so a document that cannot be rendered is not tried
    /// again until the file changes. Outside a check the call does nothing.
    pub fn on_rendered(
        &mut self,
        channel: &mut BroadcastChannel,
        rendered: Result<String, RenderError>,
    ) -> (action: Action)
        requires
            old(channel)@.len() < u64::MAX,
        ensures
            final(self)@ == old(self)@.after_render(),
            final(channel)@ == published_after_render(
                old(self)@,
                old(channel)@,
                rendered_view(rendered),
            ),
            action == render_action(old(self)@, rendered_view(rendered)),
    {
        match self.phase {
            Phase::Idle => Action::Sleep,
            Phase::Checking(stamp) => {
                self.last_seen = Some(stamp);
                self.phase = Phase::Idle;
                match rendered {
                    Ok(html) => {
                        channel.publish(html);
                        Action::Sleep
                    },
                    Err(error) => Action::LogRenderFailure(error),
                }
            },
        }
    }

    /// Takes the outcome of reading the file's content, and ends the check.
    ///
    /// A failure ends the watch and changes neither the channel nor the time
    /// last seen. Content that was read is rendered and handed to
    /// [`ChangeDetector::on_rendered`]. Outside a check the call does nothing.
    pub fn on_content(
        &mut self,
        channel: &mut BroadcastChannel,
        content: Result<String, FileAccessError>,
    ) -> (action: Action)
        requires
            old(channel)@.len() < u64::MAX,
        ensures
            match (old(self)@.phase, content) {
                (Phase::Idle, _) => {
                    &&& final(self)@ == old(self)@
                    &&& final(channel)@ == old(channel)@
                    &&& action == Action::Sleep
                },
                (Phase::Checking(_), Err(error)) => {
                    &&& final(self)@ == old(self)@.after_read_failure()
                    &&& final(channel)@ == old(channel)@
                    &&& action == Action::Terminate(error)
                },
                (Phase::Checking(_), Ok(text)) => {
                    &&& final(self)@ == old(self)@.after_render()
                    &&& final(channel)@ == old(channel)@.push(markdown_html(text@))
                    &&& action == Action::Sleep
                },
            },
    {
        match self.phase {
            Phase::Idle => Action::Sleep,
            Phase::Checking(_) => match content {
                Err(error) => {
                    self.phase = Phase::Idle;
                    Action::Terminate(error)
                },
                Ok(text) => {
                    let rendered = render(text.as_str());
                    self.on_rendered(channel, rendered)
                },
            },
        }
    }
}

} // verus!
