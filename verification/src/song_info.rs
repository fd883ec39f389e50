//! The snapshot of what is playing, and how it is put into text.

use vstd::prelude::*;
use crate::text::{decimal, push_decimal, push_repeated, repeated};

verus! {

/// Glyph for the part of a progress bar that has been played.
pub const BAR_FILLED: char = '\u{2588}';

/// Glyph for the part of a progress bar that is still to come.
pub const BAR_EMPTY: char = '\u{2591}';

/// One snapshot of the song that is playing.
///
/// A snapshot is valid when it has a title and complete when it has a title,
/// an artist and an album. Times are whole seconds.
#[derive(Debug, Clone, PartialEq, Eq)]
pub struct SongInfo {
    pub title: String,
    pub artist: String,
    pub album: String,
    pub lyrics: String,
    pub current_time: u32,
    pub total_time: u32,
}

/// What a snapshot holds, as plain mathematical values.
pub struct SongView {
    pub title: Seq<char>,
    pub artist: Seq<char>,
    pub album: Seq<char>,
    pub lyrics: Seq<char>,
    pub current_time: u32,
    pub total_time: u32,
}

impl View for SongInfo {
    type V = SongView;

    open spec fn view(&self) -> SongView {
        SongView {
            title: self.title@,
            artist: self.artist@,
            album: self.album@,
            lyrics: self.lyrics@,
            current_time: self.current_time,
            total_time: self.total_time,
        }
    }
}

/// The numeral of `n` with at least two digits.
pub open spec fn two_digits(n: nat) -> Seq<char> {
    if n < 10 {
        seq!['0'] + decimal(n)
    } else {
        decimal(n)
    }
}

/// A duration of `seconds` written as minutes and seconds, each with at least
/// two digits, a colon between them.
pub open spec fn clock_text(seconds: nat) -> Seq<char> {
    two_digits(seconds / 60) + seq![':'] + two_digits(seconds % 60)
}

/// Progress through a song in thousandths of a percent, rounded down; zero
/// where the total time is not known.
pub open spec fn millipercent(current_time: u32, total_time: u32) -> nat {
    if total_time == 0 {
        0
    } else {
        (current_time * 100_000 / total_time as int) as nat
    }
}

/// The number of filled cells in a bar of `width` cells: the played share of
/// the width, rounded down, and never more than the width.
pub open spec fn filled_cells(current_time: u32, total_time: u32, width: usize) -> nat {
    if total_time == 0 {
        0
    } else if current_time * width / total_time as int >= width {
        width as nat
    } else {
        (current_time * width / total_time as int) as nat
    }
}

/// The progress bar of `width` cells: the filled cells followed by the empty
/// ones. Where the total time is not known no cell is filled.
pub open spec fn bar_text(current_time: u32, total_time: u32, width: usize) -> Seq<char> {
    repeated(BAR_FILLED, filled_cells(current_time, total_time, width)) + repeated(
        BAR_EMPTY,
        (width - filled_cells(current_time, total_time, width)) as nat,
    )
}

/// Progress lies between nothing and the whole for every position that is
/// not past the end, and is nothing whenever the total time is zero.
pub proof fn lemma_progress_range(current_time: u32, total_time: u32)
    ensures
        total_time == 0 ==> millipercent(current_time, total_time) == 0,
        current_time <= total_time ==> millipercent(current_time, total_time) <= 100_000,
        current_time == total_time && total_time > 0 ==> millipercent(current_time, total_time)
            == 100_000,
{
    if total_time > 0 && current_time <= total_time {
        assert(current_time * 100_000 / total_time as int <= 100_000) by (nonlinear_arith)
            requires
                0 <= current_time <= total_time,
                total_time > 0,
        ;
        if current_time == total_time {
            assert(total_time * 100_000 / total_time as int == 100_000) by (nonlinear_arith)
                requires
                    total_time > 0,
            ;
        }
    }
}

/// A bar never has more filled cells than cells, has none while nothing has
/// been played, and is full once the end is reached.
pub proof fn lemma_bar_cells(current_time: u32, total_time: u32, width: usize)
    ensures
        filled_cells(current_time, total_time, width) <= width,
        bar_text(current_time, total_time, width).len() == width,
        current_time == 0 ==> filled_cells(current_time, total_time, width) == 0,
        total_time > 0 && current_time >= total_time ==> filled_cells(
            current_time,
            total_time,
            width,
        ) == width,
{
    if total_time > 0 && current_time >= total_time {
        assert(current_time * width / total_time as int >= width) by (nonlinear_arith)
            requires
                current_time >= total_time,
                total_time > 0,
                width >= 0,
        ;
    }
    if total_time > 0 && current_time == 0 {
        assert(0 * width / total_time as int == 0) by (nonlinear_arith)
            requires
                total_time > 0,
        ;
    }
}

/// Appends the numeral of `n`, at least two digits wide, to `s`.
fn push_two_digits(s: &mut String, n: u32)
    ensures
        final(s)@ == old(s)@ + two_digits(n as nat),
{
    if n < 10 {
        s.push('0');
    }
    push_decimal(s, n as u64);
}

/// Writes a duration in seconds as `MM:SS`. Minutes beyond 99 take the digits
/// they need.
pub fn format_time(seconds: u32) -> (text: String)
    ensures
        text@ == clock_text(seconds as nat),
{
    let mut text = String::new();
    push_two_digits(&mut text, seconds / 60);
    text.push(':');
    push_two_digits(&mut text, seconds % 60);
    text
}

impl SongInfo {
    /// Whether the snapshot has a title.
    pub open spec fn valid(&self) -> bool {
        self.title@.len() > 0
    }

    /// Whether the snapshot has a title, an artist and an album.
    pub open spec fn complete(&self) -> bool {
        self.title@.len() > 0 && self.artist@.len() > 0 && self.album@.len() > 0
    }

    /// Tells whether the snapshot has a title. A snapshot without one is what
    /// sampling yields while nothing is playing.
    pub fn is_valid(&self) -> (valid: bool)
        ensures
            valid == self.valid(),
    {
        !self.title.as_str().is_empty()
    }

    /// Tells whether title, artist and album are all present.
    pub fn is_complete(&self) -> (complete: bool)
        ensures
            complete == self.complete(),
    {
        !self.title.as_str().is_empty() && !self.artist.as_str().is_empty()
            && !self.album.as_str().is_empty()
    }

    /// The playback position as `MM:SS`.
    pub fn format_current_time(&self) -> (text: String)
        ensures
            text@ == clock_text(self.current_time as nat),
    {
        format_time(self.current_time)
    }

    /// The length of the song as `MM:SS`.
    pub fn format_total_time(&self) -> (text: String)
        ensures
            text@ == clock_text(self.total_time as nat),
    {
        format_time(self.total_time)
    }

    /// Progress through the song in thousandths of a percent, rounded down.
    /// It is zero whenever the total time is zero.
    pub fn progress_millipercent(&self) -> (progress: u64)
        ensures
            progress == millipercent(self.current_time, self.total_time),
            self.total_time == 0 ==> progress == 0,
    {
        if self.total_time == 0 {
            0
        } else {
            (self.current_time as u64 * 100_000) / (self.total_time as u64)
        }
    }

    /// A textual progress bar of `width` cells. The filled cells take the
    /// played share of the width; a position past the end fills the bar, and
    /// where the total time is not known every cell is empty.
    pub fn get_progress_bar(&self, width: usize) -> (bar: String)
        ensures
            bar@ == bar_text(self.current_time, self.total_time, width),
            bar@.len() == width,
            self.total_time == 0 ==> bar@ == repeated(BAR_EMPTY, width as nat),
    {
        let filled: usize = if self.total_time == 0 {
            0
        } else {
            assert(self.current_time * width <= 0xFFFF_FFFF * 0xFFFF_FFFF_FFFF_FFFF)
                by (nonlinear_arith)
                requires
                    self.current_time <= 0xFFFF_FFFF,
                    width <= 0xFFFF_FFFF_FFFF_FFFF,
            ;
            let share: u128 = (self.current_time as u128 * width as u128) / (
            self.total_time as u128);
            if share >= width as u128 {
                width
            } else {
                share as usize
            }
        };
        let mut bar = String::new();
        push_repeated(&mut bar, BAR_FILLED, filled);
        push_repeated(&mut bar, BAR_EMPTY, width - filled);
        bar
    }
}

impl Default for SongInfo {
    /// The empty snapshot: no text, both times zero.
    fn default() -> (info: SongInfo)
        ensures
            info.title@.len() == 0,
            info.artist@.len() == 0,
            info.album@.len() == 0,
            info.lyrics@.len() == 0,
            info.current_time == 0,
            info.total_time == 0,
    {
        SongInfo {
            title: String::new(),
            artist: String::new(),
            album: String::new(),
            lyrics: String::new(),
            current_time: 0,
            total_time: 0,
        }
    }
}

} // verus!
