//! The detector and the channel taken together: what a run of polls
//! publishes.
//!
//! A [`Pipeline`] pairs a detector's state with a channel's history. One
//! [`Pipeline::poll`] stands for a whole tick on which the file could be
//! read: the report of the modification time and, where the detector asks
//! for it, the report of the content. The proof functions of this module
//! state what holds of every run of such polls.
use vstd::prelude::*;
use crate::channel::{caught_up, current_value, pending};
use crate::detector::{published_after_render, DetectorState, Phase, Timestamp};
use crate::render::markdown_html;

verus! {

/// The watched file as one poll finds it.
pub struct FileState {
    pub modified: Timestamp,
    pub content: Seq<char>,
}

/// A detector's state together with the history of the channel it
/// publishes on.
pub struct Pipeline {
    pub detector: DetectorState,
    pub published: Seq<Seq<char>>,
}

impl Pipeline {
    /// A detector that has seen nothing, on a channel with history
    /// `published`.
    pub open spec fn fresh(published: Seq<Seq<char>>) -> Pipeline {
        Pipeline { detector: DetectorState::initial(), published }
    }

    /// The pipeline after one tick on which the file was found as `file`.
    pub open spec fn poll(self, file: FileState) -> Pipeline {
        let ticked = self.detector.after_tick(Ok(file.modified));
        Pipeline {
            detector: ticked.after_render(),
            published: published_after_render(
                ticked,
                self.published,
                Ok(markdown_html(file.content)),
            ),
        }
    }

    /// The pipeline after one tick for each element of `files`, in order.
    pub open spec fn run(self, files: Seq<FileState>) -> Pipeline
        decreases files.len(),
    {
        if files.len() == 0 {
            self
        } else {
            self.run(files.drop_last()).poll(files.last())
        }
    }
}

/// The number of the poll that noticed the modification time the file is
/// left with: the first poll of the unbroken stretch of polls, up to the last
/// one, that all found that time.
pub open spec fn noticed_at(files: Seq<FileState>) -> int
    decreases files.len(),
{
    if files.len() <= 1 {
        0
    } else if files.last().modified == files[files.len() - 2].modified {
        noticed_at(files.drop_last())
    } else {
        files.len() - 1
    }
}

/// Whether the modification time tells every change of content between two
/// consecutive polls of `files`.
pub open spec fn changes_are_dated(files: Seq<FileState>) -> bool {
    forall|i: int|
        0 < i < files.len() && #[trigger] files[i].modified == files[i - 1].modified
            ==> files[i].content == files[i - 1].content
}

/// Every poll leaves the detector idle.
pub proof fn lemma_poll_ends_idle(pipeline: Pipeline, file: FileState)
    ensures
        pipeline.poll(file).detector.phase == Phase::Idle,
{
}

/// A poll that finds the modification time last seen does nothing beyond
/// the comparison: nothing is published and the time last seen stays,
/// whatever the file holds.
pub proof fn lemma_same_time_publishes_nothing(pipeline: Pipeline, file: FileState)
    requires
        pipeline.detector.last_seen == Some(file.modified),
    ensures
        pipeline.poll(file).published == pipeline.published,
        pipeline.poll(file).detector.last_seen == pipeline.detector.last_seen,
{
}

/// Polling is idempotent: a second poll that finds the file as the first one
/// found it changes nothing. What the first poll published is not published
/// again.
pub proof fn lemma_poll_twice_is_poll_once(pipeline: Pipeline, file: FileState)
    ensures
        pipeline.poll(file).poll(file) == pipeline.poll(file),
{
}

/// A poll that finds another modification time than the one last seen
/// publishes the rendering of the content it finds, whatever was published
/// before.
pub proof fn lemma_new_time_publishes(pipeline: Pipeline, file: FileState)
    requires
        pipeline.detector.last_seen != Some(file.modified),
    ensures
        pipeline.poll(file).published == pipeline.published.push(markdown_html(file.content)),
        pipeline.poll(file).detector.last_seen == Some(file.modified),
        current_value(pipeline.poll(file).published) == markdown_html(file.content),
{
}

/// A file that is touched, written again with the content it had and a new
/// modification time, goes through a full render cycle: the poll that finds
/// it publishes the same rendering once more. The current value stays what it
/// was. A reader that had seen neither publication is handed the value once,
/// not twice.
pub proof fn lemma_touch_publishes_again(
    pipeline: Pipeline,
    written: FileState,
    touched: FileState,
    seen: nat,
)
    requires
        pipeline.detector.last_seen != Some(written.modified),
        touched.modified != written.modified,
        touched.content == written.content,
        seen <= pipeline.published.len(),
    ensures
        ({
            let once = pipeline.poll(written);
            let twice = once.poll(touched);
            &&& once.published == pipeline.published.push(markdown_html(written.content))
            &&& twice.published == once.published.push(current_value(once.published))
            &&& current_value(twice.published) == current_value(once.published)
            &&& pending(twice.published, seen) == Some(current_value(once.published))
            &&& pending(twice.published, caught_up(twice.published, seen)) is None
        }),
{
}

/// The poll that noticed the file's final modification time is one of the
/// polls, and it found that time.
pub proof fn lemma_noticed_at_is_a_poll(files: Seq<FileState>)
    requires
        files.len() > 0,
    ensures
        0 <= noticed_at(files) < files.len(),
        files[noticed_at(files)].modified == files.last().modified,
    decreases files.len(),
{
    if files.len() > 1 && files.last().modified == files[files.len() - 2].modified {
        lemma_noticed_at_is_a_poll(files.drop_last());
    }
}

/// After any run of polls the channel's current value is the rendering of
/// what the file held when its present modification time was noticed, and
/// that time is the one last seen.
pub proof fn lemma_run_publishes_noticed_content(published: Seq<Seq<char>>, files: Seq<FileState>)
    requires
        files.len() > 0,
    ensures
        current_value(Pipeline::fresh(published).run(files).published) == markdown_html(
            files[noticed_at(files)].content,
        ),
        Pipeline::fresh(published).run(files).detector.last_seen == Some(files.last().modified),
        Pipeline::fresh(published).run(files).published.len() > published.len(),
    decreases files.len(),
{
    let earlier = files.drop_last();
    if earlier.len() > 0 {
        lemma_run_publishes_noticed_content(published, earlier);
        lemma_noticed_at_is_a_poll(earlier);
        assert(earlier.last() == files[files.len() - 2]);
        assert(earlier[noticed_at(earlier)] == files[noticed_at(earlier)]);
    } else {
        assert(Pipeline::fresh(published).run(earlier) == Pipeline::fresh(published));
    }
}

/// No stale output. After any run of polls the channel's current value is
/// the rendering of the content that the last poll found, provided the file
/// was not rewritten under the modification time it is left with: the
/// content is still what it was when that time was noticed.
pub proof fn lemma_run_publishes_latest_content(published: Seq<Seq<char>>, files: Seq<FileState>)
    requires
        files.len() > 0,
        files[noticed_at(files)].content == files.last().content,
    ensures
        current_value(Pipeline::fresh(published).run(files).published) == markdown_html(
            files.last().content,
        ),
        Pipeline::fresh(published).run(files).detector.last_seen == Some(files.last().modified),
{
    lemma_run_publishes_noticed_content(published, files);
}

/// Where every change of content comes with a change of the modification
/// time, the content that the last poll found is the content that was there
/// when the file's modification time was noticed.
pub proof fn lemma_dated_changes_are_noticed(files: Seq<FileState>)
    requires
        files.len() > 0,
        changes_are_dated(files),
    ensures
        files[noticed_at(files)].content == files.last().content,
    decreases files.len(),
{
    let last = files.len() - 1;
    if last > 0 && files[last].modified == files[last - 1].modified {
        let earlier = files.drop_last();
        assert(changes_are_dated(earlier)) by {
            assert forall|i: int|
                0 < i < earlier.len() && #[trigger] earlier[i].modified == earlier[i - 1].modified
            implies earlier[i].content == earlier[i - 1].content by {
                assert(files[i].modified == files[i - 1].modified);
            }
        }
        lemma_dated_changes_are_noticed(earlier);
        lemma_noticed_at_is_a_poll(earlier);
        assert(earlier[noticed_at(earlier)] == files[noticed_at(earlier)]);
        assert(files[last].content == files[last - 1].content);
    }
}

/// A file whose modification time never changes is published exactly once,
/// by the first poll, however many polls follow.
pub proof fn lemma_still_file_is_published_once(published: Seq<Seq<char>>, files: Seq<FileState>)
    requires
        files.len() > 0,
        forall|i: int| 0 <= i < files.len() ==> (#[trigger] files[i]).modified == files[0].modified,
    ensures
        Pipeline::fresh(published).run(files).published == published.push(
            markdown_html(files[0].content),
        ),
        Pipeline::fresh(published).run(files).detector.last_seen == Some(files[0].modified),
    decreases files.len(),
{
    let earlier = files.drop_last();
    if earlier.len() > 0 {
        assert(earlier[0] == files[0]);
        assert forall|i: int| 0 <= i < earlier.len() implies (#[trigger] earlier[i]).modified
            == earlier[0].modified by {
            assert(earlier[i] == files[i]);
        }
        lemma_still_file_is_published_once(published, earlier);
        assert(files.last() == files[files.len() - 1]);
    } else {
        assert(Pipeline::fresh(published).run(earlier) == Pipeline::fresh(published));
    }
}

} // verus!
