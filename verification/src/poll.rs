//! The polling loop as a state machine: when to sample, what to publish, and
//! when to stop.
//!
//! The loop itself does no work. Its driver samples, publishes and sleeps as
//! the machine says, and reports back what happened.

use vstd::prelude::*;
use crate::config::Settings;
use crate::song_info::{SongInfo, SongView};

verus! {

/// Where the loop stands.
#[derive(Debug, Clone, Copy, PartialEq, Eq, Structural)]
pub enum Phase {
    /// Between two cycles, or before the first: the loop waits to be woken.
    Waiting,
    /// A snapshot has been asked for and is awaited.
    Sampling,
    /// The loop has ended.
    Stopped,
}

/// What is to be done with the snapshot of one cycle before the loop sleeps.
#[derive(Debug, Clone, Copy, PartialEq, Eq, Structural)]
pub struct Publication {
    /// The number of the cycle, counted from zero.
    pub cycle: u64,
    /// Whether the song differs from that of the cycle before.
    pub changed: bool,
    /// Whether the text file is to be written.
    pub write_txt: bool,
    /// Whether the JSON file is to be written.
    pub write_json: bool,
    /// Whether the snapshot is to be shown.
    pub render: bool,
    /// Milliseconds to sleep afterwards.
    pub sleep_ms: u64,
}

/// What the driver is to do next.
#[derive(Debug, Clone, Copy, PartialEq, Eq, Structural)]
pub enum Action {
    /// Take a snapshot and report it.
    Sample,
    /// Publish the latest snapshot as told, sleep, and report the wake-up.
    Publish(Publication),
    /// Leave the loop.
    Stop,
}

/// What the driver reports.
#[derive(Debug, Clone, PartialEq, Eq)]
pub enum Event {
    /// The loop woke up, at its start or after a sleep, and found the
    /// cancellation flag as given.
    Woke { cancelled: bool },
    /// A snapshot was taken.
    Sampled(SongInfo),
}

/// An event as plain mathematical values.
pub enum EventView {
    Woke { cancelled: bool },
    Sampled(SongView),
}

impl View for Event {
    type V = EventView;

    open spec fn view(&self) -> EventView {
        match self {
            Event::Woke { cancelled } => EventView::Woke { cancelled: *cancelled },
            Event::Sampled(info) => EventView::Sampled(info@),
        }
    }
}

/// What is fixed for the whole run of a loop.
#[derive(Debug, Clone, Copy, PartialEq, Eq, Structural)]
pub struct Outputs {
    /// Whether a changed song is written to the text file.
    pub txt: bool,
    /// Whether a changed song is written to the JSON file.
    pub json: bool,
    /// Whether snapshots are shown.
    pub render: bool,
    /// Milliseconds between two cycles.
    pub interval_ms: u64,
}

/// The polling loop: its phase, the latest snapshot, which is kept only to be
/// compared with the next, and the number of cycles so far.
#[derive(Debug, Clone, PartialEq, Eq)]
pub struct PollLoop {
    pub phase: Phase,
    pub previous: Option<SongInfo>,
    pub cycles: u64,
    pub outputs: Outputs,
}

/// A polling loop as plain mathematical values.
pub struct LoopView {
    pub phase: Phase,
    pub previous: Option<SongView>,
    pub cycles: u64,
    pub outputs: Outputs,
}

impl View for PollLoop {
    type V = LoopView;

    open spec fn view(&self) -> LoopView {
        LoopView {
            phase: self.phase,
            previous: match self.previous {
                Some(info) => Some(info@),
                None => None,
            },
            cycles: self.cycles,
            outputs: self.outputs,
        }
    }
}

/// The title shown and published while nothing is playing.
pub open spec fn idle_title() -> Seq<char> {
    "No music playing"@
}

/// The snapshot as it is published: a valid one as it is, and in place of one
/// without a title the idle snapshot, which has the idle title and nothing
/// else.
pub open spec fn settled(snapshot: SongView) -> SongView {
    if snapshot.title.len() > 0 {
        snapshot
    } else {
        SongView {
            title: idle_title(),
            artist: Seq::empty(),
            album: Seq::empty(),
            lyrics: Seq::empty(),
            current_time: 0,
            total_time: 0,
        }
    }
}

/// Whether `current` counts as another song than `previous`: there was no
/// snapshot before, or title or artist differ. Times never count.
pub open spec fn differs(previous: Option<SongView>, current: SongView) -> bool {
    match previous {
        Some(last) => last.title != current.title || last.artist != current.artist,
        None => true,
    }
}

/// The cycle count after one more cycle. It stays at its maximum once there.
pub open spec fn next_count(cycles: u64) -> u64 {
    if cycles < u64::MAX {
        (cycles + 1) as u64
    } else {
        cycles
    }
}

/// What is done with a snapshot that did or did not change: it is shown every
/// cycle where showing is on, and written only when changed, to the outputs
/// that are on.
pub open spec fn publication(outputs: Outputs, cycle: u64, changed: bool) -> Publication {
    Publication {
        cycle,
        changed,
        write_txt: changed && outputs.txt,
        write_json: changed && outputs.json,
        render: outputs.render,
        sleep_ms: outputs.interval_ms,
    }
}

impl LoopView {
    /// Whether the loop has a snapshot to compare the next one with. A loop
    /// that has none is idle, one that has is tracking.
    pub open spec fn tracking(self) -> bool {
        self.previous is Some
    }

    /// The loop after `event`, and what its driver is to do. An event that
    /// does not fit the phase changes nothing and asks for nothing.
    ///
    /// Cancellation is honoured on waking only: while a snapshot is awaited,
    /// no event stops the loop.
    pub open spec fn next(self, event: EventView) -> (LoopView, Option<Action>) {
        match (self.phase, event) {
            (Phase::Waiting, EventView::Woke { cancelled }) => if cancelled {
                (LoopView { phase: Phase::Stopped, ..self }, Some(Action::Stop))
            } else {
                (LoopView { phase: Phase::Sampling, ..self }, Some(Action::Sample))
            },
            (Phase::Sampling, EventView::Sampled(snapshot)) => (
                LoopView {
                    phase: Phase::Waiting,
                    previous: Some(settled(snapshot)),
                    cycles: next_count(self.cycles),
                    outputs: self.outputs,
                },
                Some(
                    Action::Publish(
                        publication(
                            self.outputs,
                            self.cycles,
                            differs(self.previous, settled(snapshot)),
                        ),
                    ),
                ),
            ),
            _ => (self, None),
        }
    }
}

/// Puts a snapshot into the form in which it is published: a snapshot without
/// a title becomes the idle snapshot.
pub fn settle(snapshot: SongInfo) -> (published: SongInfo)
    ensures
        published@ == settled(snapshot@),
        published.valid(),
{
    proof {
        reveal_strlit("No music playing");
    }
    if snapshot.is_valid() {
        snapshot
    } else {
        SongInfo {
            title: "No music playing".to_owned(),
            artist: String::new(),
            album: String::new(),
            lyrics: String::new(),
            current_time: 0,
            total_time: 0,
        }
    }
}

/// Tells whether `current` counts as another song than `previous`.
pub fn song_changed(previous: &Option<SongInfo>, current: &SongInfo) -> (changed: bool)
    ensures
        changed == differs(
            match previous {
                Some(last) => Some(last@),
                None => None,
            },
            current@,
        ),
{
    match previous {
        Some(last) => !(last.title == current.title) || !(last.artist == current.artist),
        None => true,
    }
}

impl PollLoop {
    /// A loop that has not run yet: it waits for its first wake-up and has no
    /// snapshot to compare with. Snapshots are shown unless `quiet`.
    pub fn new(settings: &Settings, quiet: bool) -> (fresh: PollLoop)
        ensures
            fresh.phase == Phase::Waiting,
            fresh.previous is None,
            fresh.cycles == 0,
            fresh.outputs == (Outputs {
                txt: settings.output_txt,
                json: settings.output_json,
                render: !quiet,
                interval_ms: settings.update_interval_ms,
            }),
    {
        PollLoop {
            phase: Phase::Waiting,
            previous: None,
            cycles: 0,
            outputs: Outputs {
                txt: settings.output_txt,
                json: settings.output_json,
                render: !quiet,
                interval_ms: settings.update_interval_ms,
            },
        }
    }

    /// Takes the loop one step on: `event` is what the driver reports, the
    /// result is what it is to do next, or `None` for an event that does not
    /// fit the phase.
    pub fn step(&mut self, event: Event) -> (action: Option<Action>)
        ensures
            final(self)@ == old(self)@.next(event@).0,
            action == old(self)@.next(event@).1,
    {
        match self.phase {
            Phase::Waiting => match event {
                Event::Woke { cancelled } => {
                    if cancelled {
                        self.phase = Phase::Stopped;
                        Some(Action::Stop)
                    } else {
                        self.phase = Phase::Sampling;
                        Some(Action::Sample)
                    }
                },
                Event::Sampled(_) => None,
            },
            Phase::Sampling => match event {
                Event::Sampled(snapshot) => {
                    let current = settle(snapshot);
                    let changed = song_changed(&self.previous, &current);
                    let cycle = self.cycles;
                    self.previous = Some(current);
                    if self.cycles < u64::MAX {
                        self.cycles = self.cycles + 1;
                    }
                    self.phase = Phase::Waiting;
                    Some(
                        Action::Publish(
                            Publication {
                                cycle,
                                changed,
                                write_txt: changed && self.outputs.txt,
                                write_json: changed && self.outputs.json,
                                render: self.outputs.render,
                                sleep_ms: self.outputs.interval_ms,
                            },
                        ),
                    )
                },
                Event::Woke { .. } => None,
            },
            Phase::Stopped => None,
        }
    }

    /// The snapshot of the latest cycle, as it was published.
    pub fn latest(&self) -> (snapshot: Option<&SongInfo>)
        ensures
            match snapshot {
                Some(info) => self.previous == Some(*info),
                None => self.previous is None,
            },
    {
        self.previous.as_ref()
    }
}

/// The first snapshot of a run always counts as changed: a loop that has no
/// snapshot yet, woken without cancellation, answers its first snapshot with a
/// publication that is marked as changed.
pub proof fn lemma_first_snapshot_changed(fresh: LoopView, snapshot: SongView)
    requires
        fresh.phase == Phase::Waiting,
        fresh.previous is None,
    ensures
        fresh.next(EventView::Woke { cancelled: false }).1 == Some(Action::Sample),
        fresh.next(EventView::Woke { cancelled: false }).0.next(EventView::Sampled(snapshot)).1
            == Some(Action::Publish(publication(fresh.outputs, fresh.cycles, true))),
{
}

/// A loop starts tracking with its first snapshot, whether that snapshot is
/// valid or not, and never stops tracking again.
pub proof fn lemma_tracking(state: LoopView, event: EventView, snapshot: SongView)
    ensures
        state.phase == Phase::Sampling ==> state.next(EventView::Sampled(snapshot)).0.tracking(),
        state.tracking() ==> state.next(event).0.tracking(),
        !state.tracking() && state.next(event).0.tracking() ==> event is Sampled,
{
}

/// Playback time alone never counts as a change: of two snapshots in a row
/// that agree in title and artist, the second is published as unchanged and so
/// written to no file, whatever their times are.
pub proof fn lemma_same_song_unchanged(state: LoopView, first: SongView, second: SongView)
    requires
        state.phase == Phase::Sampling,
        first.title == second.title,
        first.artist == second.artist,
    ensures
        ({
            let after_first = state.next(EventView::Sampled(first)).0;
            let awake = after_first.next(EventView::Woke { cancelled: false }).0;
            awake.next(EventView::Sampled(second)).1 == Some(
                Action::Publish(publication(state.outputs, next_count(state.cycles), false)),
            )
        }),
        !publication(state.outputs, next_count(state.cycles), false).write_txt,
        !publication(state.outputs, next_count(state.cycles), false).write_json,
{
}

/// Cancellation is cooperative. While a snapshot is awaited no event stops
/// the loop, so a read is never cut off; a loop that wakes to a set flag stops
/// at once, without another sample; and so a flag set at any time ends the
/// loop after at most the cycle that is under way.
pub proof fn lemma_cancellation(state: LoopView, event: EventView, snapshot: SongView)
    ensures
        state.phase == Phase::Sampling ==> state.next(event).0.phase != Phase::Stopped,
        state.phase == Phase::Waiting ==> state.next(EventView::Woke { cancelled: true }) == (
            LoopView { phase: Phase::Stopped, ..state },
            Some(Action::Stop),
        ),
        state.phase == Phase::Sampling ==> state.next(EventView::Sampled(snapshot)).0.next(
            EventView::Woke { cancelled: true },
        ).0.phase == Phase::Stopped,
        state.phase == Phase::Stopped ==> state.next(event) == (state, None::<Action>),
{
}

} // verus!
