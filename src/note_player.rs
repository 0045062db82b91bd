use vstd::prelude::*;

use crate::notes::{Duration, Note};
use crate::track::valid_track;

verus! {

/// Which half of the square wave a channel is in, or `Start` before the
/// current note's timer has been programmed.
#[derive(PartialEq, Eq, Structural, Clone, Copy, Debug)]
pub enum NotePlayerStatus {
    Start,
    Up,
    Down,
}

/// What the hardware has to do after a `tick`.
#[derive(PartialEq, Eq, Structural, Clone, Copy, Debug)]
pub enum TickAction {
    /// Program the note timer to elapse at this rate, in hertz (twice the
    /// note's frequency, so that each elapse ends one half-period), and drive
    /// the output high.
    StartNote(u32),
    /// Poll the note timer; if it has elapsed, call `note_timer_wrapped`.
    PollNoteTimer,
}

/// The level to drive the output to.
#[derive(PartialEq, Eq, Structural, Clone, Copy, Debug)]
pub enum PinLevel {
    High,
    Low,
}

/// Where a player stands in its track: the note, how many duration ticks of
/// it have elapsed, and the half of the square wave.
pub struct Position {
    pub index: nat,
    pub counter: nat,
    pub status: NotePlayerStatus,
}

/// A position that a player of `track` can be in: on a note of the track,
/// with fewer ticks counted than the note lasts.
pub open spec fn position_wf(track: Seq<(Note, Duration)>, pos: Position) -> bool {
    &&& valid_track(track)
    &&& pos.index < track.len()
    &&& pos.counter < track[pos.index as int].1.spec_ticks()
}

/// The position once the duration clock has, or has not, elapsed. It counts
/// only once the current note has started; on reaching the note's length the
/// next note (the first after the last) is loaded, to be started.
pub open spec fn after_duration(
    track: Seq<(Note, Duration)>,
    pos: Position,
    has_duration_wrapped: bool,
) -> Position {
    if pos.status == NotePlayerStatus::Start || !has_duration_wrapped {
        pos
    } else if pos.counter + 1 == track[pos.index as int].1.spec_ticks() {
        Position {
            index: ((pos.index + 1) % track.len()) as nat,
            counter: 0,
            status: NotePlayerStatus::Start,
        }
    } else {
        Position { counter: pos.counter + 1, ..pos }
    }
}

/// One pass of the control loop: the new position, and what the hardware is
/// to do. A note that has not started is started.
pub open spec fn tick_step(
    track: Seq<(Note, Duration)>,
    pos: Position,
    has_duration_wrapped: bool,
) -> (Position, TickAction) {
    let p = after_duration(track, pos, has_duration_wrapped);
    if p.status == NotePlayerStatus::Start {
        (
            Position { status: NotePlayerStatus::Up, ..p },
            TickAction::StartNote((2 * track[p.index as int].0.spec_frequency()) as u32),
        )
    } else {
        (p, TickAction::PollNoteTimer)
    }
}

/// The position after `n` passes on each of which the duration clock has
/// elapsed.
pub open spec fn run(track: Seq<(Note, Duration)>, pos: Position, n: nat) -> Position
    decreases n,
{
    if n == 0 {
        pos
    } else {
        run(track, tick_step(track, pos, true).0, (n - 1) as nat)
    }
}

/// One channel: a track played as a square wave, one note after the other,
/// in a loop.
pub struct NotePlayer<'a> {
    notes: &'a [(Note, Duration)],
    duration_counter: u8,
    current_note_idx: usize,
    status: NotePlayerStatus,
}

impl<'a> NotePlayer<'a> {
    /// The track being played.
    pub closed spec fn track(self) -> Seq<(Note, Duration)> {
        self.notes@
    }

    /// Where the player stands in its track.
    pub closed spec fn position(self) -> Position {
        Position {
            index: self.current_note_idx as nat,
            counter: self.duration_counter as nat,
            status: self.status,
        }
    }

    pub open spec fn wf(self) -> bool {
        &&& position_wf(self.track(), self.position())
        &&& self.track().len() <= usize::MAX
    }

    /// A player at the first note of a valid track, before its timer is
    /// programmed.
    pub fn new(notes: &'a [(Note, Duration)]) -> (r: Self)
        requires
            valid_track(notes@),
        ensures
            r.wf(),
            r.track() == notes@,
            r.position() == (Position { index: 0, counter: 0, status: NotePlayerStatus::Start }),
    {
        // A slice's length fits in `usize`; asking for it brings that fact in.
        let len = notes.len();
        assert(notes@.len() == len);
        NotePlayer { notes, duration_counter: 0, current_note_idx: 0, status: NotePlayerStatus::Start }
    }

    /// Advances the player by one pass of the control loop.
    pub fn tick(&mut self, has_duration_wrapped: bool) -> (r: TickAction)
        requires
            old(self).wf(),
        ensures
            final(self).wf(),
            final(self).track() == old(self).track(),
            (final(self).position(), r) == tick_step(
                old(self).track(),
                old(self).position(),
                has_duration_wrapped,
            ),
    {
        self.increment_note_if_timer_wrapped(has_duration_wrapped);
        match self.status {
            NotePlayerStatus::Start => {
                let note = &self.notes[self.current_note_idx].0;
                let frequency = note.note_to_relay_frequence();
                self.status = NotePlayerStatus::Up;
                TickAction::StartNote(2 * frequency)
            },
            _ => TickAction::PollNoteTimer,
        }
    }

    /// Toggles the output once the note timer has elapsed: a half-period
    /// high is followed by one low, and the other way round.
    pub fn note_timer_wrapped(&mut self) -> (r: PinLevel)
        requires
            old(self).wf(),
            old(self).position().status != NotePlayerStatus::Start,
        ensures
            final(self).wf(),
            final(self).track() == old(self).track(),
            old(self).position().status == NotePlayerStatus::Up ==> r == PinLevel::Low
                && final(self).position() == (Position {
                status: NotePlayerStatus::Down,
                ..old(self).position()
            }),
            old(self).position().status == NotePlayerStatus::Down ==> r == PinLevel::High
                && final(self).position() == (Position {
                status: NotePlayerStatus::Up,
                ..old(self).position()
            }),
    {
        match self.status {
            NotePlayerStatus::Up => {
                self.status = NotePlayerStatus::Down;
                PinLevel::Low
            },
            _ => {
                self.status = NotePlayerStatus::Up;
                PinLevel::High
            },
        }
    }

    /// The note being played.
    pub fn get_current_note(&self) -> (r: &'a (Note, Duration))
        requires
            self.wf(),
        ensures
            *r == self.track()[self.position().index as int],
    {
        &self.notes[self.current_note_idx]
    }

    /// Counts one elapse of the duration clock, once the current note has
    /// started, and moves to the next note when its length is reached.
    pub fn increment_note_if_timer_wrapped(&mut self, has_duration_wrapped: bool)
        requires
            old(self).wf(),
        ensures
            final(self).wf(),
            final(self).track() == old(self).track(),
            final(self).position() == after_duration(
                old(self).track(),
                old(self).position(),
                has_duration_wrapped,
            ),
    {
        if self.status == NotePlayerStatus::Start {
            return ;
        }
        if has_duration_wrapped {
            let ticks = self.notes[self.current_note_idx].1.ticks();
            if self.duration_counter + 1 == ticks {
                self.increment_note();
            } else {
                self.duration_counter = self.duration_counter + 1;
            }
        }
    }

    /// Moves to the next note of the track, wrapping after the last one, and
    /// restarts its count.
    pub fn increment_note(&mut self)
        requires
            old(self).wf(),
        ensures
            final(self).wf(),
            final(self).track() == old(self).track(),
            final(self).position() == (Position {
                index: ((old(self).position().index + 1) % old(self).track().len()) as nat,
                counter: 0,
                status: NotePlayerStatus::Start,
            }),
    {
        let len = self.notes.len();
        let next = self.current_note_idx + 1;
        proof {
            vstd::arithmetic::div_mod::lemma_mod_self_0(len as int);
            if next < len {
                vstd::arithmetic::div_mod::lemma_small_mod(next as nat, len as nat);
            }
        }
        self.current_note_idx = if next == len {
            0
        } else {
            next
        };
        self.duration_counter = 0;
        self.status = NotePlayerStatus::Start;
    }

    /// The index of the note being played.
    pub fn current_note_idx(&self) -> (r: usize)
        ensures
            r as nat == self.position().index,
    {
        self.current_note_idx
    }

    /// How many duration ticks of the current note have elapsed.
    pub fn duration_counter(&self) -> (r: u8)
        ensures
            r as nat == self.position().counter,
    {
        self.duration_counter
    }

    /// The current state of the square wave.
    pub fn status(&self) -> (r: NotePlayerStatus)
        ensures
            r == self.position().status,
    {
        self.status
    }
}

/// The first pass after a note is loaded (the very first pass included)
/// programs the note timer for that note and drives the output high, whether
/// or not the duration clock has elapsed; the note and its count stay.
pub proof fn lemma_start_programs_current_note(
    track: Seq<(Note, Duration)>,
    pos: Position,
    has_duration_wrapped: bool,
)
    requires
        position_wf(track, pos),
        pos.status == NotePlayerStatus::Start,
    ensures
        tick_step(track, pos, has_duration_wrapped) == (
            Position { status: NotePlayerStatus::Up, ..pos },
            TickAction::StartNote((2 * track[pos.index as int].0.spec_frequency()) as u32),
        ),
{
}

/// While the duration clock has not elapsed, a started note only asks for the
/// note timer to be polled, and the position stays as it is however often
/// this repeats: the output changes only through `note_timer_wrapped`.
pub proof fn lemma_waits_for_note_timer(track: Seq<(Note, Duration)>, pos: Position)
    requires
        position_wf(track, pos),
        pos.status != NotePlayerStatus::Start,
    ensures
        tick_step(track, pos, false) == (pos, TickAction::PollNoteTimer),
{
}

/// Every pass keeps the position one that a player of the track can be in.
pub proof fn lemma_tick_step_wf(track: Seq<(Note, Duration)>, pos: Position, has_duration_wrapped: bool)
    requires
        position_wf(track, pos),
    ensures
        position_wf(track, tick_step(track, pos, has_duration_wrapped).0),
{
}

proof fn lemma_run_counts(track: Seq<(Note, Duration)>, pos: Position, n: nat)
    requires
        position_wf(track, pos),
        pos.status != NotePlayerStatus::Start,
        pos.counter + n < track[pos.index as int].1.spec_ticks(),
    ensures
        run(track, pos, n) == (Position { counter: pos.counter + n, ..pos }),
    decreases n,
{
    if n > 0 {
        let q = tick_step(track, pos, true).0;
        assert(q == (Position { counter: pos.counter + 1, ..pos }));
        lemma_run_counts(track, q, (n - 1) as nat);
    }
}

proof fn lemma_run_loads_next(track: Seq<(Note, Duration)>, pos: Position, n: nat)
    requires
        position_wf(track, pos),
        pos.status != NotePlayerStatus::Start,
        n > 0,
        pos.counter + n == track[pos.index as int].1.spec_ticks(),
    ensures
        run(track, pos, n) == (Position {
            index: ((pos.index + 1) % track.len()) as nat,
            counter: 0,
            status: NotePlayerStatus::Up,
        }),
    decreases n,
{
    let q = tick_step(track, pos, true).0;
    if n > 1 {
        assert(q == (Position { counter: pos.counter + 1, ..pos }));
        lemma_run_loads_next(track, q, (n - 1) as nat);
    } else {
        assert(run(track, q, 0) == q);
    }
}

/// From the start of a note that lasts `t` ticks, the index stays put and the
/// counter counts for `n < t` elapses of the duration clock; at exactly `t`
/// the index moves once, to the next note or from the last note back to the
/// first, and the counter restarts.
pub proof fn lemma_note_advances_after_its_ticks(track: Seq<(Note, Duration)>, pos: Position, n: nat)
    requires
        position_wf(track, pos),
        pos.status != NotePlayerStatus::Start,
        pos.counter == 0,
        n <= track[pos.index as int].1.spec_ticks(),
    ensures
        n < track[pos.index as int].1.spec_ticks() ==> run(track, pos, n) == (Position {
            counter: n,
            ..pos
        }),
        n == track[pos.index as int].1.spec_ticks() ==> run(track, pos, n) == (Position {
            index: if pos.index + 1 == track.len() {
                0
            } else {
                pos.index + 1
            },
            counter: 0,
            status: NotePlayerStatus::Up,
        }),
{
    let len = track.len();
    let next = pos.index + 1;
    vstd::arithmetic::div_mod::lemma_mod_self_0(len as int);
    if next < len {
        vstd::arithmetic::div_mod::lemma_small_mod(next, len);
    }
    if n < track[pos.index as int].1.spec_ticks() {
        lemma_run_counts(track, pos, n);
    } else {
        lemma_run_loads_next(track, pos, n);
    }
}

} // verus!
