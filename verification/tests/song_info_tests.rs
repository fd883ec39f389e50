use qqmusic_reader::song_info::{format_time, SongInfo, BAR_EMPTY, BAR_FILLED};

fn song(current_time: u32, total_time: u32) -> SongInfo {
    SongInfo {
        title: "Title".to_string(),
        artist: "Artist".to_string(),
        album: "Album".to_string(),
        lyrics: String::new(),
        current_time,
        total_time,
    }
}

#[test]
fn progress_is_zero_without_total_time() {
    assert_eq!(song(0, 0).progress_millipercent(), 0);
    assert_eq!(song(30, 0).progress_millipercent(), 0);
    assert_eq!(song(u32::MAX, 0).progress_millipercent(), 0);
}

#[test]
fn progress_of_30_in_120_is_25_percent() {
    assert_eq!(song(30, 120).progress_millipercent(), 25_000);
}

#[test]
fn progress_is_rounded_down_to_thousandths() {
    assert_eq!(song(1, 3).progress_millipercent(), 33_333);
    assert_eq!(song(2, 3).progress_millipercent(), 66_666);
    assert_eq!(song(120, 120).progress_millipercent(), 100_000);
    assert_eq!(song(0, 120).progress_millipercent(), 0);
    assert_eq!(song(130, 120).progress_millipercent(), 108_333);
    assert_eq!(song(u32::MAX, 1).progress_millipercent(), 429_496_729_500_000);
}

#[test]
fn bar_of_width_20_at_half_has_10_filled_and_10_empty() {
    let bar = song(60, 120).get_progress_bar(20);
    assert_eq!(bar, "\u{2588}".repeat(10) + &"\u{2591}".repeat(10));
    assert_eq!(bar.chars().filter(|c| *c == BAR_FILLED).count(), 10);
    assert_eq!(bar.chars().filter(|c| *c == BAR_EMPTY).count(), 10);
}

#[test]
fn bar_is_all_empty_glyphs_without_total_time() {
    assert_eq!(SongInfo::default().get_progress_bar(4), "\u{2591}\u{2591}\u{2591}\u{2591}");
    assert_eq!(song(30, 0).get_progress_bar(20), "\u{2591}".repeat(20));
    assert_eq!(song(u32::MAX, 0).get_progress_bar(3), "\u{2591}".repeat(3));
    assert_eq!(song(0, 0).get_progress_bar(0), "");
}

#[test]
fn bar_fills_in_proportion_rounded_down() {
    assert_eq!(song(0, 120).get_progress_bar(4), "\u{2591}\u{2591}\u{2591}\u{2591}");
    assert_eq!(song(30, 120).get_progress_bar(4), "\u{2588}\u{2591}\u{2591}\u{2591}");
    assert_eq!(song(119, 120).get_progress_bar(4), "\u{2588}\u{2588}\u{2588}\u{2591}");
    assert_eq!(song(120, 120).get_progress_bar(4), "\u{2588}\u{2588}\u{2588}\u{2588}");
    assert_eq!(song(1, 3).get_progress_bar(3), "\u{2588}\u{2591}\u{2591}");
    assert_eq!(song(60, 120).get_progress_bar(0), "");
    assert_eq!(song(60, 120).get_progress_bar(1), "\u{2591}");
}

#[test]
fn bar_is_full_when_the_position_is_past_the_end() {
    assert_eq!(song(500, 120).get_progress_bar(5), "\u{2588}".repeat(5));
    assert_eq!(song(u32::MAX, 1).get_progress_bar(3), "\u{2588}".repeat(3));
}

#[test]
fn formats_125_seconds_as_02_05() {
    assert_eq!(format_time(125), "02:05");
}

#[test]
fn format_time_pads_to_two_digits() {
    assert_eq!(format_time(0), "00:00");
    assert_eq!(format_time(9), "00:09");
    assert_eq!(format_time(59), "00:59");
    assert_eq!(format_time(60), "01:00");
    assert_eq!(format_time(600), "10:00");
    assert_eq!(format_time(3599), "59:59");
}

#[test]
fn format_time_lets_minutes_grow() {
    assert_eq!(format_time(5999), "99:59");
    assert_eq!(format_time(6000), "100:00");
    assert_eq!(format_time(u32::MAX), "71582788:15");
}

#[test]
fn snapshot_formats_its_times() {
    let info = song(125, 3725);
    assert_eq!(info.format_current_time(), "02:05");
    assert_eq!(info.format_total_time(), "62:05");
}

#[test]
fn validity_depends_on_the_title_alone() {
    let mut info = SongInfo::default();
    assert!(!info.is_valid());
    info.artist = "Artist".to_string();
    info.album = "Album".to_string();
    info.total_time = 100;
    assert!(!info.is_valid());
    info.title = "T".to_string();
    assert!(info.is_valid());
    info.artist.clear();
    info.album.clear();
    assert!(info.is_valid());
}

#[test]
fn completeness_needs_title_artist_and_album() {
    assert!(song(0, 0).is_complete());
    let mut info = song(0, 0);
    info.album.clear();
    assert!(!info.is_complete());
    let mut info = song(0, 0);
    info.artist.clear();
    assert!(!info.is_complete());
    let mut info = song(0, 0);
    info.title.clear();
    assert!(!info.is_complete());
}

#[test]
fn default_snapshot_is_empty() {
    let info = SongInfo::default();
    assert_eq!(info.title, "");
    assert_eq!(info.artist, "");
    assert_eq!(info.album, "");
    assert_eq!(info.lyrics, "");
    assert_eq!(info.current_time, 0);
    assert_eq!(info.total_time, 0);
}
