use qqmusic_reader::poll::Publication;
use qqmusic_reader::render::{
    format_percent, pad, render_panel, render_screen, split_visible_lines,
};
use qqmusic_reader::song_info::SongInfo;

fn song() -> SongInfo {
    SongInfo {
        title: "Title".to_string(),
        artist: "Artist".to_string(),
        album: "Album".to_string(),
        lyrics: String::new(),
        current_time: 30,
        total_time: 120,
    }
}

fn line(text: &str) -> String {
    format!("{:<80}", text)
}

#[test]
fn pad_fills_up_with_spaces() {
    assert_eq!(pad("ab".to_string(), 5), "ab   ");
    assert_eq!(pad("abcde".to_string(), 5), "abcde");
    assert_eq!(pad("abcdef".to_string(), 5), "abcdef");
    assert_eq!(pad(String::new(), 0), "");
    assert_eq!(pad("\u{6B4C}\u{66F2}".to_string(), 4), "\u{6B4C}\u{66F2}  ");
    assert_eq!(pad("x".to_string(), 80), format!("{:<80}", "x"));
}

#[test]
fn percent_has_one_decimal_place() {
    assert_eq!(format_percent(30, 120), "25.0");
    assert_eq!(format_percent(0, 120), "0.0");
    assert_eq!(format_percent(120, 120), "100.0");
    assert_eq!(format_percent(1, 3), "33.3");
    assert_eq!(format_percent(2, 3), "66.7");
    assert_eq!(format_percent(130, 120), "108.3");
    assert_eq!(format_percent(u32::MAX, 1), "429496729500.0");
    assert_eq!(format_percent(0, 0), "0.0");
    assert_eq!(format_percent(77, 0), "0.0");
}

#[test]
fn percent_ties_go_to_the_even_tenth() {
    assert_eq!(format_percent(1, 16), "6.2");
    assert_eq!(format_percent(3, 16), "18.8");
    assert_eq!(format_percent(1, 2000), "0.0");
    assert_eq!(format_percent(3, 2000), "0.2");
    assert_eq!(format_percent(1999, 2000), "100.0");
}

#[test]
fn song_with_known_length_shows_progress() {
    let lines = render_screen(&song(), "12:34:56");
    assert_eq!(
        lines,
        vec![
            line("Title-Artist"),
            line("\u{4E13}\u{8F91}:Album"),
            line(
                "\u{2588}\u{2588}\u{2588}\u{2588}\u{2588}\u{2591}\u{2591}\u{2591}\u{2591}\u{2591}\u{2591}\u{2591}\u{2591}\u{2591}\u{2591}\u{2591}\u{2591}\u{2591}\u{2591}\u{2591} 00:30 / 02:00 [25.0%]"
            ),
        ]
    );
    assert!(lines.iter().all(|shown| shown.chars().count() == 80));
}

#[test]
fn song_without_length_shows_the_clock() {
    let mut info = song();
    info.total_time = 0;
    let lines = render_screen(&info, "12:34:56");
    assert_eq!(lines[2], line("12:34:56"));
    assert_eq!(lines.len(), 3);
}

#[test]
fn missing_artist_and_album_show_placeholders() {
    let mut info = song();
    info.artist.clear();
    info.album.clear();
    let lines = render_screen(&info, "now");
    assert_eq!(lines[0], line("Title-<\u{6B4C}\u{624B}>"));
    assert_eq!(lines[1], line("\u{4E13}\u{8F91}:<\u{4E13}\u{8F91}>"));
}

#[test]
fn lyrics_are_filtered_and_shown_line_by_line() {
    let mut info = song();
    info.lyrics = "first http://a.b/c\r\n   \n\nsecond\n  third  \n".to_string();
    let lines = render_screen(&info, "now");
    assert_eq!(lines.len(), 6);
    assert_eq!(lines[3], line("first "));
    assert_eq!(lines[4], line("second"));
    assert_eq!(lines[5], line("  third"));
}

#[test]
fn lyrics_that_filter_to_nothing_show_no_line() {
    let mut info = song();
    info.lyrics = " https://only.an/address \n".to_string();
    assert_eq!(render_screen(&info, "now").len(), 3);
}

#[test]
fn long_lines_are_not_cut() {
    let mut info = song();
    info.title = "T".repeat(100);
    let lines = render_screen(&info, "now");
    assert_eq!(lines[0], "T".repeat(100) + "-Artist");
}

#[test]
fn silence_shows_placeholders() {
    let expected = vec![
        line("<\u{6B4C}\u{66F2}\u{540D}>-<\u{6B4C}\u{624B}>"),
        line("<\u{4E13}\u{8F91}>"),
        line("09:00:00"),
        line("<\u{6B4C}\u{8BCD}>"),
    ];
    assert_eq!(render_screen(&SongInfo::default(), "09:00:00"), expected);
    let mut idle = song();
    idle.title = "No music playing".to_string();
    assert_eq!(render_screen(&idle, "09:00:00"), expected);
}

#[test]
fn lines_are_split_as_the_standard_library_splits_them() {
    for text in [
        "", "a", "a\n", "a\nb", "a\r\nb", "a\rb", "a\r", "a\r\n", "\n", "\n\n", "\r\n", "\r",
        "a\n\nb", "x\r\r\ny", " \n\t\nz", "a\n \n", "\u{3000}\n\u{6B4C}\n", "one\ntwo\nthree",
    ] {
        let expected: Vec<String> = text
            .lines()
            .filter(|shown| !shown.trim().is_empty())
            .map(|shown| shown.to_string())
            .collect();
        assert_eq!(split_visible_lines(text), expected, "{:?}", text);
    }
}

#[test]
fn panel_shows_process_cycle_and_change() {
    let publication = Publication {
        cycle: 7,
        changed: true,
        write_txt: true,
        write_json: false,
        render: true,
        sleep_ms: 500,
    };
    assert_eq!(
        render_panel("QQMusic.exe", 4242, &publication),
        vec![
            "\u{2500}".repeat(80),
            "\u{8FDB}\u{7A0B}: QQMusic.exe | PID: 4242".to_string(),
            "\u{66F4}\u{65B0}: 7 | \u{95F4}\u{9694}: 500ms".to_string(),
            "\u{6B4C}\u{66F2}\u{53D8}\u{5316}: true".to_string(),
        ]
    );
    let quiet = Publication { cycle: 0, changed: false, sleep_ms: 0, ..publication };
    let lines = render_panel("", 0, &quiet);
    assert_eq!(lines[1], "\u{8FDB}\u{7A0B}:  | PID: 0");
    assert_eq!(lines[2], "\u{66F4}\u{65B0}: 0 | \u{95F4}\u{9694}: 0ms");
    assert_eq!(lines[3], "\u{6B4C}\u{66F2}\u{53D8}\u{5316}: false");
}
