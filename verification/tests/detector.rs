use live_preview::channel::BroadcastChannel;
use live_preview::detector::{
    Action, ChangeDetector, FileAccessError, Phase, Timestamp, POLL_INTERVAL_MILLIS,
};
use live_preview::render::RenderError;

fn at(seconds: u64, nanos: u32) -> Timestamp {
    Timestamp { before_epoch: false, seconds, nanos }
}

fn before(seconds: u64, nanos: u32) -> Timestamp {
    Timestamp { before_epoch: true, seconds, nanos }
}

#[test]
fn poll_interval_is_a_tenth_of_a_second() {
    assert_eq!(POLL_INTERVAL_MILLIS, 100);
}

#[test]
fn new_detector_is_idle_and_has_seen_nothing() {
    let detector = ChangeDetector::new();
    assert_eq!(detector.last_seen(), None);
    assert_eq!(detector.phase(), Phase::Idle);
}

#[test]
fn first_tick_asks_for_the_content() {
    let mut detector = ChangeDetector::new();
    assert_eq!(detector.on_tick(Ok(at(1_700_000_000, 5))), Action::ReadContent);
    assert_eq!(detector.phase(), Phase::Checking(at(1_700_000_000, 5)));
    assert_eq!(detector.last_seen(), None);
}

#[test]
fn first_tick_asks_for_the_content_even_at_the_epoch() {
    let mut detector = ChangeDetector::new();
    assert_eq!(detector.on_tick(Ok(at(0, 0))), Action::ReadContent);
}

#[test]
fn first_tick_asks_for_the_content_even_before_the_epoch() {
    let mut detector = ChangeDetector::new();
    assert_eq!(detector.on_tick(Ok(before(u64::MAX, 999_999_999))), Action::ReadContent);
}

#[test]
fn content_is_rendered_and_published() {
    let mut detector = ChangeDetector::new();
    let mut channel = BroadcastChannel::new();
    assert_eq!(detector.on_tick(Ok(at(10, 0))), Action::ReadContent);
    assert_eq!(detector.on_content(&mut channel, Ok(String::from("*hi*"))), Action::Sleep);
    assert_eq!(channel.version(), 1);
    assert_eq!(channel.current(), "<p><em>hi</em></p>\n");
    assert_eq!(detector.last_seen(), Some(at(10, 0)));
    assert_eq!(detector.phase(), Phase::Idle);
}

#[test]
fn unchanged_time_means_sleep() {
    let mut detector = ChangeDetector::new();
    let mut channel = BroadcastChannel::new();
    detector.on_tick(Ok(at(10, 0)));
    detector.on_content(&mut channel, Ok(String::from("text")));
    for _ in 0..5 {
        assert_eq!(detector.on_tick(Ok(at(10, 0))), Action::Sleep);
        assert_eq!(detector.phase(), Phase::Idle);
    }
    assert_eq!(channel.version(), 1);
}

#[test]
fn any_other_time_is_a_change() {
    let mut detector = ChangeDetector::new();
    let mut channel = BroadcastChannel::new();
    detector.on_tick(Ok(at(10, 500)));
    detector.on_content(&mut channel, Ok(String::from("text")));
    // later, earlier, differing in the nanoseconds alone, and on the other
    // side of the epoch
    for stamp in [at(11, 500), at(9, 500), at(10, 501), at(10, 499), before(10, 500)] {
        let mut copy = ChangeDetector::new();
        copy.on_tick(Ok(at(10, 500)));
        copy.on_content(&mut BroadcastChannel::new(), Ok(String::new()));
        assert_eq!(copy.on_tick(Ok(stamp)), Action::ReadContent);
        assert_eq!(copy.phase(), Phase::Checking(stamp));
    }
    assert_eq!(detector.on_tick(Ok(at(10, 500))), Action::Sleep);
}

#[test]
fn missing_file_ends_the_watch() {
    let mut detector = ChangeDetector::new();
    assert_eq!(
        detector.on_tick(Err(FileAccessError::Missing)),
        Action::Terminate(FileAccessError::Missing)
    );
    assert_eq!(detector.phase(), Phase::Idle);
    assert_eq!(detector.last_seen(), None);
}

#[test]
fn unavailable_metadata_ends_the_watch() {
    let mut detector = ChangeDetector::new();
    let mut channel = BroadcastChannel::new();
    detector.on_tick(Ok(at(1, 0)));
    detector.on_content(&mut channel, Ok(String::from("x")));
    assert_eq!(
        detector.on_tick(Err(FileAccessError::NoMetadata)),
        Action::Terminate(FileAccessError::NoMetadata)
    );
    assert_eq!(detector.last_seen(), Some(at(1, 0)));
    assert_eq!(channel.version(), 1);
}

#[test]
fn unreadable_content_ends_the_watch_and_changes_nothing() {
    let mut detector = ChangeDetector::new();
    let mut channel = BroadcastChannel::new();
    detector.on_tick(Ok(at(1, 0)));
    detector.on_content(&mut channel, Ok(String::from("first")));
    assert_eq!(detector.on_tick(Ok(at(2, 0))), Action::ReadContent);
    assert_eq!(
        detector.on_content(&mut channel, Err(FileAccessError::Unreadable)),
        Action::Terminate(FileAccessError::Unreadable)
    );
    assert_eq!(detector.phase(), Phase::Idle);
    assert_eq!(detector.last_seen(), Some(at(1, 0)));
    assert_eq!(channel.version(), 1);
    assert_eq!(channel.current(), "<p>first</p>\n");
}

#[test]
fn render_failure_keeps_the_previous_output() {
    let mut detector = ChangeDetector::new();
    let mut channel = BroadcastChannel::new();
    detector.on_tick(Ok(at(1, 0)));
    detector.on_content(&mut channel, Ok(String::from("first")));
    assert_eq!(detector.on_tick(Ok(at(2, 0))), Action::ReadContent);
    assert_eq!(
        detector.on_rendered(&mut channel, Err(RenderError::Uninterpretable)),
        Action::LogRenderFailure(RenderError::Uninterpretable)
    );
    assert_eq!(channel.version(), 1);
    assert_eq!(channel.current(), "<p>first</p>\n");
    assert_eq!(detector.phase(), Phase::Idle);
}

#[test]
fn render_failure_is_not_retried_until_the_file_changes() {
    let mut detector = ChangeDetector::new();
    let mut channel = BroadcastChannel::new();
    detector.on_tick(Ok(at(2, 0)));
    detector.on_rendered(&mut channel, Err(RenderError::Uninterpretable));
    assert_eq!(detector.last_seen(), Some(at(2, 0)));
    assert_eq!(detector.on_tick(Ok(at(2, 0))), Action::Sleep);
    assert_eq!(detector.on_tick(Ok(at(3, 0))), Action::ReadContent);
    assert_eq!(channel.version(), 0);
}

#[test]
fn rendered_text_is_published_as_given() {
    let mut detector = ChangeDetector::new();
    let mut channel = BroadcastChannel::new();
    detector.on_tick(Ok(at(7, 7)));
    assert_eq!(detector.on_rendered(&mut channel, Ok(String::from("<hr />\n"))), Action::Sleep);
    assert_eq!(channel.version(), 1);
    assert_eq!(channel.current(), "<hr />\n");
    assert_eq!(detector.last_seen(), Some(at(7, 7)));
}

#[test]
fn content_outside_a_check_is_ignored() {
    let mut detector = ChangeDetector::new();
    let mut channel = BroadcastChannel::new();
    assert_eq!(detector.on_content(&mut channel, Ok(String::from("stray"))), Action::Sleep);
    assert_eq!(
        detector.on_content(&mut channel, Err(FileAccessError::Missing)),
        Action::Sleep
    );
    assert_eq!(detector.on_rendered(&mut channel, Ok(String::from("stray"))), Action::Sleep);
    assert_eq!(
        detector.on_rendered(&mut channel, Err(RenderError::Uninterpretable)),
        Action::Sleep
    );
    assert_eq!(channel.version(), 0);
    assert_eq!(detector.last_seen(), None);
    assert_eq!(detector.phase(), Phase::Idle);
}

#[test]
fn new_tick_abandons_an_open_check() {
    let mut detector = ChangeDetector::new();
    let mut channel = BroadcastChannel::new();
    assert_eq!(detector.on_tick(Ok(at(1, 0))), Action::ReadContent);
    assert_eq!(detector.on_tick(Ok(at(2, 0))), Action::ReadContent);
    assert_eq!(detector.phase(), Phase::Checking(at(2, 0)));
    detector.on_content(&mut channel, Ok(String::from("now")));
    assert_eq!(detector.last_seen(), Some(at(2, 0)));
    assert_eq!(channel.version(), 1);
}

#[test]
fn failed_tick_abandons_an_open_check() {
    let mut detector = ChangeDetector::new();
    let mut channel = BroadcastChannel::new();
    detector.on_tick(Ok(at(1, 0)));
    detector.on_tick(Err(FileAccessError::Unreadable));
    assert_eq!(detector.phase(), Phase::Idle);
    assert_eq!(detector.on_content(&mut channel, Ok(String::from("late"))), Action::Sleep);
    assert_eq!(channel.version(), 0);
}
