use qqmusic_reader::config::Config;
use qqmusic_reader::poll::{settle, song_changed, Action, Event, Phase, PollLoop, Publication};
use qqmusic_reader::song_info::SongInfo;

fn song(title: &str, artist: &str, current_time: u32) -> SongInfo {
    SongInfo {
        title: title.to_string(),
        artist: artist.to_string(),
        album: "Album".to_string(),
        lyrics: "words".to_string(),
        current_time,
        total_time: 200,
    }
}

fn started() -> PollLoop {
    let mut poll = PollLoop::new(&Config::default().settings, false);
    assert_eq!(poll.step(Event::Woke { cancelled: false }), Some(Action::Sample));
    poll
}

fn published(action: Option<Action>) -> Publication {
    match action {
        Some(Action::Publish(publication)) => publication,
        other => panic!("expected a publication, got {:?}", other),
    }
}

#[test]
fn fresh_loop_waits_without_a_snapshot() {
    let poll = PollLoop::new(&Config::default().settings, false);
    assert_eq!(poll.phase, Phase::Waiting);
    assert_eq!(poll.previous, None);
    assert_eq!(poll.cycles, 0);
    assert!(poll.outputs.txt);
    assert!(poll.outputs.json);
    assert!(poll.outputs.render);
    assert_eq!(poll.outputs.interval_ms, 500);
    assert_eq!(poll.latest(), None);
}

#[test]
fn first_snapshot_is_always_changed() {
    let mut poll = started();
    let publication = published(poll.step(Event::Sampled(song("A", "B", 1))));
    assert!(publication.changed);
    assert!(publication.write_txt);
    assert!(publication.write_json);

    let mut poll = started();
    let publication = published(poll.step(Event::Sampled(SongInfo::default())));
    assert!(publication.changed);
}

#[test]
fn same_title_and_artist_with_other_time_is_unchanged() {
    let mut poll = started();
    assert!(published(poll.step(Event::Sampled(song("A", "B", 1)))).changed);
    assert_eq!(poll.step(Event::Woke { cancelled: false }), Some(Action::Sample));
    let publication = published(poll.step(Event::Sampled(song("A", "B", 2))));
    assert!(!publication.changed);
    assert!(!publication.write_txt);
    assert!(!publication.write_json);
    assert!(publication.render);
    assert_eq!(poll.latest().unwrap().current_time, 2);
}

#[test]
fn album_and_lyrics_do_not_count_as_change() {
    let mut poll = started();
    published(poll.step(Event::Sampled(song("A", "B", 1))));
    poll.step(Event::Woke { cancelled: false });
    let mut next = song("A", "B", 1);
    next.album = "Other".to_string();
    next.lyrics = "other words".to_string();
    next.total_time = 7;
    assert!(!published(poll.step(Event::Sampled(next))).changed);
}

#[test]
fn other_title_or_artist_is_changed() {
    let mut poll = started();
    published(poll.step(Event::Sampled(song("A", "B", 1))));
    poll.step(Event::Woke { cancelled: false });
    assert!(published(poll.step(Event::Sampled(song("A2", "B", 1)))).changed);
    poll.step(Event::Woke { cancelled: false });
    assert!(published(poll.step(Event::Sampled(song("A2", "B2", 1)))).changed);
    poll.step(Event::Woke { cancelled: false });
    assert!(!published(poll.step(Event::Sampled(song("A2", "B2", 9)))).changed);
}

#[test]
fn song_changed_compares_title_and_artist() {
    assert!(song_changed(&None, &song("A", "B", 1)));
    assert!(!song_changed(&Some(song("A", "B", 1)), &song("A", "B", 99)));
    assert!(song_changed(&Some(song("A", "B", 1)), &song("a", "B", 1)));
    assert!(song_changed(&Some(song("A", "B", 1)), &song("A", "", 1)));
}

#[test]
fn writes_follow_the_configured_outputs() {
    let mut settings = Config::default().settings;
    settings.output_txt = false;
    settings.update_interval_ms = 1234;
    let mut poll = PollLoop::new(&settings, true);
    poll.step(Event::Woke { cancelled: false });
    let publication = published(poll.step(Event::Sampled(song("A", "B", 1))));
    assert_eq!(
        publication,
        Publication {
            cycle: 0,
            changed: true,
            write_txt: false,
            write_json: true,
            render: false,
            sleep_ms: 1234,
        }
    );
}

#[test]
fn invalid_snapshot_is_published_as_idle() {
    let mut poll = started();
    let mut nothing = song("", "Ghost", 5);
    nothing.total_time = 10;
    assert!(published(poll.step(Event::Sampled(nothing))).changed);
    let shown = poll.latest().unwrap();
    assert_eq!(shown.title, "No music playing");
    assert_eq!(shown.artist, "");
    assert_eq!(shown.album, "");
    assert_eq!(shown.lyrics, "");
    assert_eq!(shown.current_time, 0);
    assert_eq!(shown.total_time, 0);
    poll.step(Event::Woke { cancelled: false });
    assert!(!published(poll.step(Event::Sampled(SongInfo::default()))).changed);
}

#[test]
fn settle_keeps_a_valid_snapshot() {
    assert_eq!(settle(song("A", "B", 3)), song("A", "B", 3));
    let idle = settle(SongInfo::default());
    assert_eq!(idle.title, "No music playing");
    assert!(idle.is_valid());
}

#[test]
fn transition_to_tracking_happens_on_first_sample_whatever_its_validity() {
    let mut poll = started();
    assert_eq!(poll.previous, None);
    poll.step(Event::Sampled(SongInfo::default()));
    assert!(poll.previous.is_some());
    assert_eq!(poll.cycles, 1);
    assert_eq!(poll.phase, Phase::Waiting);
}

#[test]
fn cancellation_before_the_first_sample_stops_at_once() {
    let mut poll = PollLoop::new(&Config::default().settings, false);
    assert_eq!(poll.step(Event::Woke { cancelled: true }), Some(Action::Stop));
    assert_eq!(poll.phase, Phase::Stopped);
    assert_eq!(poll.cycles, 0);
}

#[test]
fn cancellation_during_sleep_stops_without_another_sample() {
    let mut poll = started();
    published(poll.step(Event::Sampled(song("A", "B", 1))));
    assert_eq!(poll.phase, Phase::Waiting);
    assert_eq!(poll.step(Event::Woke { cancelled: true }), Some(Action::Stop));
    assert_eq!(poll.phase, Phase::Stopped);
    assert_eq!(poll.cycles, 1);
}

#[test]
fn cancellation_is_not_honoured_while_a_snapshot_is_awaited() {
    let mut poll = started();
    assert_eq!(poll.step(Event::Woke { cancelled: true }), None);
    assert_eq!(poll.phase, Phase::Sampling);
    assert!(published(poll.step(Event::Sampled(song("A", "B", 1)))).changed);
    assert_eq!(poll.step(Event::Woke { cancelled: true }), Some(Action::Stop));
}

#[test]
fn events_that_do_not_fit_change_nothing() {
    let mut poll = PollLoop::new(&Config::default().settings, false);
    let before = poll.clone();
    assert_eq!(poll.step(Event::Sampled(song("A", "B", 1))), None);
    assert_eq!(poll, before);
    poll.step(Event::Woke { cancelled: true });
    let stopped = poll.clone();
    assert_eq!(poll.step(Event::Woke { cancelled: false }), None);
    assert_eq!(poll.step(Event::Sampled(song("A", "B", 1))), None);
    assert_eq!(poll, stopped);
}

#[test]
fn cycles_are_counted_and_stay_at_the_maximum() {
    let mut poll = started();
    assert_eq!(published(poll.step(Event::Sampled(song("A", "B", 1)))).cycle, 0);
    poll.step(Event::Woke { cancelled: false });
    assert_eq!(published(poll.step(Event::Sampled(song("A", "B", 2)))).cycle, 1);
    assert_eq!(poll.cycles, 2);
    poll.cycles = u64::MAX;
    poll.step(Event::Woke { cancelled: false });
    poll.step(Event::Sampled(song("A", "B", 3)));
    assert_eq!(poll.cycles, u64::MAX);
}
