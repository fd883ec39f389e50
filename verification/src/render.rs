//! What is shown on the console, line by line.
//!
//! Nothing here prints. The lines are handed to whoever owns the console,
//! together with the time of day that the caller has read from its clock.

use vstd::prelude::*;
use vstd::string::{StrSliceExecFns, StringExecFns};
use crate::lyrics::{filter_lyrics, filtered_lyrics, is_white_space, white_space};
use crate::poll::{idle_title, Publication};
use crate::song_info::{bar_text, clock_text, SongInfo, SongView};
use crate::text::{
    chars_of, decimal, find_char, first_index_of, lemma_first_index_bounds, push_decimal,
    push_repeated, repeated, string_from, texts,
};

verus! {

/// Width to which every line is filled up with spaces.
pub const LINE_WIDTH: usize = 80;

/// Number of cells of the progress bar.
pub const BAR_WIDTH: usize = 20;

/// `text` filled up with spaces to `width` characters; a longer text stays as
/// it is.
pub open spec fn padded(text: Seq<char>, width: nat) -> Seq<char> {
    if text.len() >= width {
        text
    } else {
        text + repeated(' ', (width - text.len()) as nat)
    }
}

/// `text`, or `placeholder` where there is no text.
pub open spec fn or_placeholder(text: Seq<char>, placeholder: Seq<char>) -> Seq<char> {
    if text.len() == 0 {
        placeholder
    } else {
        text
    }
}

/// Progress through a song in tenths of a percent, rounded to the nearest
/// tenth, a tie to the even one; zero where the total time is not known.
pub open spec fn percent_tenths(current_time: u32, total_time: u32) -> nat {
    let whole = current_time * 1000 / total_time as int;
    let rest = current_time * 1000 % total_time as int;
    if total_time == 0 {
        0
    } else if 2 * rest > total_time || (2 * rest == total_time && whole % 2 == 1) {
        (whole + 1) as nat
    } else {
        whole as nat
    }
}

/// Progress through a song as a percentage with one decimal place.
pub open spec fn percent_text(current_time: u32, total_time: u32) -> Seq<char> {
    decimal(percent_tenths(current_time, total_time) / 10) + seq!['.'] + decimal(
        percent_tenths(current_time, total_time) % 10,
    )
}

/// The first line of a song: title and artist.
pub open spec fn heading(song: SongView) -> Seq<char> {
    or_placeholder(song.title, "<歌曲名>"@) + seq!['-'] + or_placeholder(song.artist, "<歌手>"@)
}

/// The second line of a song: its album.
pub open spec fn album_line(song: SongView) -> Seq<char> {
    "专辑:"@ + or_placeholder(song.album, "<专辑>"@)
}

/// The third line of a song whose length is known: the progress bar, the
/// position, the length and the percentage.
pub open spec fn progress_line(song: SongView) -> Seq<char> {
    bar_text(song.current_time, song.total_time, BAR_WIDTH) + seq![' '] + clock_text(
        song.current_time as nat,
    ) + " / "@ + clock_text(song.total_time as nat) + " ["@ + percent_text(
        song.current_time,
        song.total_time,
    ) + "%]"@
}

/// Whether `line` holds nothing but white space.
pub open spec fn blank(line: Seq<char>) -> bool {
    forall|i: int| 0 <= i < line.len() ==> is_white_space(#[trigger] line[i])
}

/// `line` without the carriage return at its end, if it has one.
pub open spec fn without_return(line: Seq<char>) -> Seq<char> {
    if line.len() > 0 && line.last() == '\r' {
        line.drop_last()
    } else {
        line
    }
}

/// The lines of `text` that are not blank. A line ends at a line feed, with
/// or without a carriage return in front of it, or at the end of the text.
pub open spec fn visible_lines(text: Seq<char>) -> Seq<Seq<char>>
    decreases text.len(),
{
    if text.len() == 0 {
        Seq::empty()
    } else if first_index_of(text, '\n', 0) >= text.len() {
        if blank(text) {
            Seq::empty()
        } else {
            seq![text]
        }
    } else {
        proof {
            lemma_first_index_bounds(text, '\n', 0);
        }
        let line = without_return(text.take(first_index_of(text, '\n', 0)));
        let rest = visible_lines(text.skip(first_index_of(text, '\n', 0) + 1));
        if blank(line) {
            rest
        } else {
            seq![line] + rest
        }
    }
}

/// The lines that are shown of lyrics: of no lyrics none, and otherwise the
/// lines of the filtered lyrics that are not blank.
pub open spec fn lyric_lines(lyrics: Seq<char>) -> Seq<Seq<char>> {
    if lyrics.len() == 0 {
        Seq::empty()
    } else {
        visible_lines(filtered_lyrics(lyrics))
    }
}

/// Whether the snapshot is shown as a song: it has a title, and not the one
/// that stands for silence.
pub open spec fn shows_song(song: SongView) -> bool {
    song.title.len() > 0 && song.title != idle_title()
}

/// The lines of a snapshot before they are filled up.
///
/// A song is shown with its heading, its album, its progress or, where its
/// length is not known, the time of day, and the lines of its lyrics that
/// are left after filtering. Anything else is shown as four lines of
/// placeholders around the time of day.
pub open spec fn screen_lines(song: SongView, clock: Seq<char>) -> Seq<Seq<char>> {
    if shows_song(song) {
        seq![
            heading(song),
            album_line(song),
            if song.total_time > 0 {
                progress_line(song)
            } else {
                clock
            },
        ] + lyric_lines(song.lyrics)
    } else {
        seq!["<歌曲名>-<歌手>"@, "<专辑>"@, clock, "<歌词>"@]
    }
}

/// What is shown of a snapshot: its lines, each filled up to the line width.
pub open spec fn screen(song: SongView, clock: Seq<char>) -> Seq<Seq<char>> {
    screen_lines(song, clock).map_values(|line: Seq<char>| padded(line, LINE_WIDTH as nat))
}

/// Fills `text` up with spaces to `width` characters.
pub fn pad(text: String, width: usize) -> (line: String)
    ensures
        line@ == padded(text@, width as nat),
        line@.len() >= width,
{
    let length = text.as_str().unicode_len();
    let mut line = text;
    if length < width {
        push_repeated(&mut line, ' ', width - length);
    }
    line
}

/// Writes the progress through a song as a percentage with one decimal
/// place.
pub fn format_percent(current_time: u32, total_time: u32) -> (text: String)
    ensures
        text@ == percent_text(current_time, total_time),
{
    let tenths: u64 = if total_time == 0 {
        0
    } else {
        let scaled: u64 = current_time as u64 * 1000;
        let whole: u64 = scaled / total_time as u64;
        let rest: u64 = scaled % total_time as u64;
        if 2 * rest > total_time as u64 || (2 * rest == total_time as u64 && whole % 2 == 1) {
            whole + 1
        } else {
            whole
        }
    };
    let mut text = String::new();
    push_decimal(&mut text, tenths / 10);
    text.push('.');
    push_decimal(&mut text, tenths % 10);
    text
}

/// `text` as a string, or `placeholder` where there is no text.
fn text_or(text: &String, placeholder: &str) -> (shown: String)
    ensures
        shown@ == or_placeholder(text@, placeholder@),
{
    if text.as_str().is_empty() {
        placeholder.to_owned()
    } else {
        text.clone()
    }
}

/// Tells whether the characters of `chars` from `start` up to `end` are all
/// white space.
fn is_blank(chars: &Vec<char>, start: usize, end: usize) -> (yes: bool)
    requires
        start <= end <= chars@.len(),
    ensures
        yes == blank(chars@.subrange(start as int, end as int)),
{
    let mut i: usize = start;
    while i < end
        invariant
            start <= i <= end <= chars@.len(),
            forall|j: int| start <= j < i ==> is_white_space(#[trigger] chars@[j]),
        decreases end - i,
    {
        if !white_space(chars[i]) {
            assert(!is_white_space(chars@.subrange(start as int, end as int)[i - start]));
            return false;
        }
        i += 1;
    }
    true
}

/// Splits `text` into its lines and keeps those that are not blank.
pub fn split_visible_lines(text: &str) -> (lines: Vec<String>)
    ensures
        texts(lines@) == visible_lines(text@),
{
    let chars = chars_of(text);
    let mut lines: Vec<String> = Vec::new();
    let mut start: usize = 0;
    assert(chars@.skip(0) =~= chars@);
    while start < chars.len()
        invariant
            start <= chars@.len(),
            visible_lines(chars@) == texts(lines@) + visible_lines(chars@.skip(start as int)),
        decreases chars@.len() - start,
    {
        let ghost rest = chars@.skip(start as int);
        let cut = find_char(&chars, '\n', start);
        proof {
            lemma_first_index_shift(chars@, '\n', start as int, start as int);
        }
        let end: usize = if cut < chars.len() && cut > start && chars[cut - 1] == '\r' {
            cut - 1
        } else {
            cut
        };
        proof {
            if cut < chars@.len() {
                assert(without_return(rest.take(cut - start)) =~= chars@.subrange(
                    start as int,
                    end as int,
                ));
                assert(rest.skip(cut - start + 1) =~= chars@.skip(cut + 1));
            }
        }
        if !is_blank(&chars, start, end) {
            let shown = string_from(&chars, start, end);
            lines.push(shown);
        }
        start = if cut < chars.len() {
            cut + 1
        } else {
            cut
        };
    }
    lines
}

/// Searching a text from `from` on finds what searching its rest finds.
proof fn lemma_first_index_shift(text: Seq<char>, target: char, start: int, from: int)
    requires
        0 <= start <= from <= text.len(),
    ensures
        first_index_of(text, target, from) == start + first_index_of(
            text.skip(start),
            target,
            from - start,
        ),
    decreases text.len() - from,
{
    if from < text.len() {
        if text[from] != target {
            lemma_first_index_shift(text, target, start, from + 1);
        }
    }
}

/// Tells whether the snapshot is shown as a song.
fn is_song(info: &SongInfo) -> (yes: bool)
    ensures
        yes == shows_song(info@),
{
    let idle = "No music playing".to_owned();
    info.is_valid() && !(info.title == idle)
}

/// Puts together the first line of a song.
fn format_heading(info: &SongInfo) -> (line: String)
    ensures
        line@ == heading(info@),
{
    let mut line = text_or(&info.title, "<歌曲名>");
    line.push('-');
    let artist = text_or(&info.artist, "<歌手>");
    line.append(artist.as_str());
    line
}

/// Puts together the second line of a song.
fn format_album(info: &SongInfo) -> (line: String)
    ensures
        line@ == album_line(info@),
{
    let mut line = "专辑:".to_owned();
    let album = text_or(&info.album, "<专辑>");
    line.append(album.as_str());
    line
}

/// Puts together the third line of a song.
fn format_progress(info: &SongInfo) -> (line: String)
    ensures
        line@ == progress_line(info@),
{
    let mut line = info.get_progress_bar(BAR_WIDTH);
    line.push(' ');
    line.append(info.format_current_time().as_str());
    line.append(" / ");
    line.append(info.format_total_time().as_str());
    line.append(" [");
    line.append(format_percent(info.current_time, info.total_time).as_str());
    line.append("%]");
    line
}

/// What is shown of a snapshot, line by line. `clock` is the time of day as
/// it is to be shown where the song gives no progress.
pub fn render_screen(info: &SongInfo, clock: &str) -> (lines: Vec<String>)
    ensures
        texts(lines@) == screen(info@, clock@),
{
    let mut lines: Vec<String> = Vec::new();
    let ghost width = LINE_WIDTH as nat;
    if is_song(info) {
        lines.push(pad(format_heading(info), LINE_WIDTH));
        lines.push(pad(format_album(info), LINE_WIDTH));
        if info.total_time > 0 {
            lines.push(pad(format_progress(info), LINE_WIDTH));
        } else {
            lines.push(pad(clock.to_owned(), LINE_WIDTH));
        }
        let ghost head = screen_lines(info@, clock@).take(3);
        if !info.lyrics.as_str().is_empty() {
            let shown = filter_lyrics(info.lyrics.as_str());
            let lyric = split_visible_lines(shown.as_str());
            let ghost shown_texts = texts(lyric@);
            let mut i: usize = 0;
            while i < lyric.len()
                invariant
                    i <= lyric@.len(),
                    shown_texts == texts(lyric@),
                    width == LINE_WIDTH as nat,
                    texts(lines@) == (head + shown_texts.take(i as int)).map_values(
                        |line: Seq<char>| padded(line, width),
                    ),
                decreases lyric@.len() - i,
            {
                let ghost before = texts(lines@);
                lines.push(pad(lyric[i].clone(), LINE_WIDTH));
                assert(texts(lines@) =~= before.push(padded(shown_texts[i as int], width)));
                i += 1;
            }
        }
    } else {
        lines.push(pad("<歌曲名>-<歌手>".to_owned(), LINE_WIDTH));
        lines.push(pad("<专辑>".to_owned(), LINE_WIDTH));
        lines.push(pad(clock.to_owned(), LINE_WIDTH));
        lines.push(pad("<歌词>".to_owned(), LINE_WIDTH));
    }
    lines
}

/// The lines of the debug panel: a rule, the process and its identifier, the
/// number of the cycle and the interval, and whether the song changed.
pub open spec fn panel(process_name: Seq<char>, pid: u32, publication: Publication) -> Seq<
    Seq<char>,
> {
    seq![
        repeated('─', LINE_WIDTH as nat),
        "进程: "@ + process_name + " | PID: "@ + decimal(pid as nat),
        "更新: "@ + decimal(publication.cycle as nat) + " | 间隔: "@ + decimal(
            publication.sleep_ms as nat,
        ) + "ms"@,
        "歌曲变化: "@ + if publication.changed {
            "true"@
        } else {
            "false"@
        },
    ]
}

/// What the debug panel shows for one cycle, line by line.
pub fn render_panel(process_name: &str, pid: u32, publication: &Publication) -> (lines: Vec<String>)
    ensures
        texts(lines@) == panel(process_name@, pid, *publication),
{
    let mut rule = String::new();
    push_repeated(&mut rule, '─', LINE_WIDTH);
    let mut process = "进程: ".to_owned();
    process.append(process_name);
    process.append(" | PID: ");
    push_decimal(&mut process, pid as u64);
    let mut cycle = "更新: ".to_owned();
    push_decimal(&mut cycle, publication.cycle);
    cycle.append(" | 间隔: ");
    push_decimal(&mut cycle, publication.sleep_ms);
    cycle.append("ms");
    let mut change = "歌曲变化: ".to_owned();
    if publication.changed {
        change.append("true");
    } else {
        change.append("false");
    }
    let mut lines: Vec<String> = Vec::new();
    lines.push(rule);
    lines.push(process);
    lines.push(cycle);
    lines.push(change);
    lines
}

} // verus!
