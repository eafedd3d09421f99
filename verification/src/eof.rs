//! Advancing to the next file in folder order at the natural end of playback.
//!
//! Times are in milliseconds; `None` stands for a position the engine reports as not finite.
//! Each logical end advances at most once: a one-shot guard is consumed by the advance and
//! re-armed only when the load fails or playback leaves for the continue grid.
use vstd::prelude::*;

verus! {

/// Minimum span of observed positions (ms) before an end near the tail counts as played into.
pub const SIBLING_PLAY_SPAN_MIN_MS: i64 = 1000;

/// End-of-file bookkeeping of the current title.
#[derive(Clone, Copy, PartialEq, Eq, Structural, Debug)]
pub struct SiblingEofState {
    /// The advance for this logical end was started.
    pub done: bool,
    pub pos_min_ms: i64,
    pub pos_max_ms: i64,
    /// Some position was observed since the last load.
    pub pos_tracked: bool,
    /// Tail-stall run: the position it sits at and how many unchanged polls it had.
    pub stall_pos_ms: i64,
    pub stall_count: u8,
}

/// What an end-of-file signal asks for before the finished title is known.
#[derive(Clone, Copy, PartialEq, Eq, Structural, Debug)]
pub enum EofEntry {
    /// Not now: player busy or absent, grid preload, or the advance already ran.
    Ignore,
    /// "Exit after current video" is on: quit.
    QuitAfterCurrent,
    /// Find the finished title and advance.
    ResolveTarget,
}

/// What advancing past a finished title does.
#[derive(Clone, PartialEq, Eq, Debug)]
pub enum SiblingAdvance {
    /// No next file: drop the finished title from the continue list.
    DropFinished,
    /// The next file is the finished one itself: nothing to load.
    Nothing,
    /// Load this next file.
    Load(String),
}

/// The first step on an end-of-file signal, from the guard and the window state.
pub open spec fn spec_eof_entry(
    done: bool,
    player_available: bool,
    browse_overlay_active: bool,
    exit_after_current: bool,
) -> EofEntry {
    if !player_available || browse_overlay_active || done {
        EofEntry::Ignore
    } else if exit_after_current {
        EofEntry::QuitAfterCurrent
    } else {
        EofEntry::ResolveTarget
    }
}

impl SiblingEofState {
    pub fn new() -> (s: Self)
        ensures
            !s.done,
            !s.pos_tracked,
            s.pos_min_ms == 0,
            s.pos_max_ms == 0,
            s.stall_pos_ms == 0,
            s.stall_count == 0,
    {
        SiblingEofState {
            done: false,
            pos_min_ms: 0,
            pos_max_ms: 0,
            pos_tracked: false,
            stall_pos_ms: 0,
            stall_count: 0,
        }
    }

    /// A new title was loaded: forget the observed positions.
    pub fn reset_playback_span(&mut self)
        ensures
            *final(self) == (SiblingEofState {
                pos_tracked: false,
                pos_min_ms: 0,
                pos_max_ms: 0,
                ..*old(self)
            }),
    {
        self.pos_tracked = false;
        self.pos_min_ms = 0;
        self.pos_max_ms = 0;
    }

    /// Widen the observed position span by `pos`; non-finite or negative positions are ignored.
    pub fn note_transport_pos(&mut self, pos: Option<i64>)
        ensures
            final(self).done == old(self).done,
            final(self).stall_pos_ms == old(self).stall_pos_ms,
            final(self).stall_count == old(self).stall_count,
            match pos {
                Some(p) if p >= 0 => {
                    &&& final(self).pos_tracked
                    &&& final(self).pos_min_ms == (if old(self).pos_tracked && old(
                        self,
                    ).pos_min_ms <= p {
                        old(self).pos_min_ms
                    } else {
                        p
                    })
                    &&& final(self).pos_max_ms == (if old(self).pos_tracked && old(
                        self,
                    ).pos_max_ms >= p {
                        old(self).pos_max_ms
                    } else {
                        p
                    })
                },
                _ => *final(self) == *old(self),
            },
    {
        let p = match pos {
            Some(p) => p,
            None => {
                return;
            },
        };
        if p < 0 {
            return;
        }
        if !self.pos_tracked {
            self.pos_min_ms = p;
            self.pos_max_ms = p;
            self.pos_tracked = true;
            return;
        }
        if p < self.pos_min_ms {
            self.pos_min_ms = p;
        }
        if p > self.pos_max_ms {
            self.pos_max_ms = p;
        }
    }

    /// Playback ran naturally into the tail (or the engine reported end of file): the observed
    /// span exceeds one second and reaches the last `near_end_ms` of a title of length
    /// `duration_ms`. Opening a title whose resume point is already near the end does not count.
    pub fn played_into_tail(&self, duration_ms: i64, eof_reached: bool, near_end_ms: i64) -> (b: bool)
        ensures
            b == (eof_reached || (duration_ms > 0 && self.pos_tracked && self.pos_max_ms
                - self.pos_min_ms > SIBLING_PLAY_SPAN_MIN_MS && self.pos_max_ms >= (if duration_ms
                - near_end_ms > 0 {
                duration_ms - near_end_ms
            } else {
                0
            }))),
    {
        if eof_reached {
            return true;
        }
        if duration_ms <= 0 || !self.pos_tracked {
            return false;
        }
        let tail: i128 = if (duration_ms as i128) - (near_end_ms as i128) > 0 {
            (duration_ms as i128) - (near_end_ms as i128)
        } else {
            0
        };
        (self.pos_max_ms as i128) - (self.pos_min_ms as i128) > SIBLING_PLAY_SPAN_MIN_MS as i128
            && self.pos_max_ms as i128 >= tail
    }

    /// First step on an end-of-file signal.
    pub fn eof_entry(
        &self,
        player_available: bool,
        browse_overlay_active: bool,
        exit_after_current: bool,
    ) -> (e: EofEntry)
        ensures
            e == spec_eof_entry(self.done, player_available, browse_overlay_active, exit_after_current),
    {
        if !player_available || browse_overlay_active || self.done {
            EofEntry::Ignore
        } else if exit_after_current {
            EofEntry::QuitAfterCurrent
        } else {
            EofEntry::ResolveTarget
        }
    }

    /// The finished title: the engine's path, else the last opened one. With neither, the guard is
    /// consumed so the end is not retried.
    pub fn eof_finished_target(&mut self, engine_path: Option<String>, last_path: Option<String>) -> (t:
        Option<String>)
        ensures
            t == (if engine_path is Some {
                engine_path
            } else {
                last_path
            }),
            final(self).done == (old(self).done || t is None),
            final(self).pos_tracked == old(self).pos_tracked,
            final(self).pos_min_ms == old(self).pos_min_ms,
            final(self).pos_max_ms == old(self).pos_max_ms,
            final(self).stall_pos_ms == old(self).stall_pos_ms,
            final(self).stall_count == old(self).stall_count,
    {
        let t = match engine_path {
            Some(p) => Some(p),
            None => last_path,
        };
        if t.is_none() {
            self.done = true;
        }
        t
    }

    /// Advance past the finished title: consume the guard; `next` is the next file in folder
    /// order and `same_file` tells whether it is the finished file itself.
    pub fn advance_to_next_sibling(&mut self, next: Option<String>, same_file: bool) -> (a:
        SiblingAdvance)
        ensures
            final(self).done,
            final(self).pos_tracked == old(self).pos_tracked,
            final(self).pos_min_ms == old(self).pos_min_ms,
            final(self).pos_max_ms == old(self).pos_max_ms,
            final(self).stall_pos_ms == old(self).stall_pos_ms,
            final(self).stall_count == old(self).stall_count,
            a == (match next {
                None => SiblingAdvance::DropFinished,
                Some(np) => if same_file {
                    SiblingAdvance::Nothing
                } else {
                    SiblingAdvance::Load(np)
                },
            }),
    {
        self.done = true;
        match next {
            None => SiblingAdvance::DropFinished,
            Some(np) => {
                if same_file {
                    SiblingAdvance::Nothing
                } else {
                    SiblingAdvance::Load(np)
                }
            },
        }
    }

    /// Loading the next file failed: re-arm so a later end can try again, and restart the
    /// tail-stall run. Leaving playback for the grid re-arms the same way.
    pub fn rearm(&mut self)
        ensures
            *final(self) == (SiblingEofState { done: false, stall_pos_ms: 0, stall_count: 0, ..*old(self) }),
    {
        self.done = false;
        self.stall_pos_ms = 0;
        self.stall_count = 0;
    }
}

/// One advance per logical end: once the advance past a finished title has run (which leaves
/// the guard set, whatever the next file was), every further end signal is ignored until the
/// guard is re-armed; re-arming makes the next end count again.
pub proof fn law_one_advance_per_end(
    s: SiblingEofState,
    player_available: bool,
    overlay: bool,
    exit_after: bool,
)
    requires
        s.done,
    ensures
        spec_eof_entry(s.done, player_available, overlay, exit_after) == EofEntry::Ignore,
        player_available && !overlay ==> spec_eof_entry(
            (SiblingEofState { done: false, ..s }).done,
            player_available,
            overlay,
            exit_after,
        ) != EofEntry::Ignore,
{
}

/// What the window knows when an end-of-file signal arrives. The engine path, the last opened
/// path and the two folder facts are read by the caller; `hold_instead` and `next` concern the
/// finished title (the engine path, else the last opened one).
#[derive(Clone, PartialEq, Eq, Debug)]
pub struct EofFacts {
    pub player_available: bool,
    pub browse_overlay_active: bool,
    pub exit_after_current: bool,
    pub engine_path: Option<String>,
    pub last_path: Option<String>,
    /// An incomplete download keeps the finished title paused at its end instead of advancing.
    pub hold_instead: bool,
    /// Next file after the finished title in folder order.
    pub next: Option<String>,
    /// `next` is the finished file itself.
    pub next_is_finished: bool,
}

/// What an end-of-file signal led to.
#[derive(Clone, PartialEq, Eq, Debug)]
pub enum EofOutcome {
    /// Busy or absent player, grid preload, or this end was already handled.
    Ignored,
    /// "Exit after current video": run the quit persistence.
    QuitAfterCurrent,
    /// Neither the engine nor the window knows the finished title.
    NoTarget,
    /// The finished title is held at its end (incomplete download).
    Held,
    /// The advance ran.
    Advanced(SiblingAdvance),
}

/// The finished title of an end-of-file signal.
pub open spec fn spec_finished(f: EofFacts) -> Option<String> {
    if f.engine_path is Some {
        f.engine_path
    } else {
        f.last_path
    }
}

/// Outcome of an end-of-file signal with the guard `done`.
pub open spec fn spec_eof_outcome(done: bool, f: EofFacts) -> EofOutcome {
    match spec_eof_entry(done, f.player_available, f.browse_overlay_active, f.exit_after_current) {
        EofEntry::Ignore => EofOutcome::Ignored,
        EofEntry::QuitAfterCurrent => EofOutcome::QuitAfterCurrent,
        EofEntry::ResolveTarget => if spec_finished(f) is None {
            EofOutcome::NoTarget
        } else if f.hold_instead {
            EofOutcome::Held
        } else {
            EofOutcome::Advanced(
                match f.next {
                    None => SiblingAdvance::DropFinished,
                    Some(np) => if f.next_is_finished {
                        SiblingAdvance::Nothing
                    } else {
                        SiblingAdvance::Load(np)
                    },
                },
            )
        },
    }
}

/// Whether an outcome consumes the guard of the current end.
pub open spec fn spec_consumes_guard(o: EofOutcome) -> bool {
    o is NoTarget || o is Advanced
}

impl SiblingEofState {
    /// End-of-file signal: ignore it, quit after the current video, or resolve the finished title
    /// and advance past it (load the next file, or drop the finished one from the continue list
    /// when it has none). The guard is consumed by the advance and when no title is known.
    pub fn maybe_advance_sibling_on_eof(&mut self, f: EofFacts) -> (o: EofOutcome)
        ensures
            o == spec_eof_outcome(old(self).done, f),
            *final(self) == (SiblingEofState {
                done: old(self).done || spec_consumes_guard(o),
                ..*old(self)
            }),
    {
        let entry = self.eof_entry(f.player_available, f.browse_overlay_active, f.exit_after_current);
        match entry {
            EofEntry::Ignore => {
                return EofOutcome::Ignored;
            },
            EofEntry::QuitAfterCurrent => {
                return EofOutcome::QuitAfterCurrent;
            },
            EofEntry::ResolveTarget => {},
        }
        let target = self.eof_finished_target(f.engine_path, f.last_path);
        if target.is_none() {
            return EofOutcome::NoTarget;
        }
        if f.hold_instead {
            return EofOutcome::Held;
        }
        EofOutcome::Advanced(self.advance_to_next_sibling(f.next, f.next_is_finished))
    }
}

/// The end-of-file handler advances at most once per logical end: an outcome that consumed the
/// guard (an advance, or no known title) makes every further signal of the same end ignored,
/// whatever the window then reports; only re-arming lets a later end through.
pub proof fn law_eof_handler_advances_once(done: bool, f: EofFacts, g: EofFacts)
    requires
        spec_consumes_guard(spec_eof_outcome(done, f)),
    ensures
        spec_eof_outcome(done || spec_consumes_guard(spec_eof_outcome(done, f)), g)
            == EofOutcome::Ignored,
        !done,
{
}

/// Remaining time (ms) within which a stalled position counts as the end.
pub const SIBLING_END_SLACK_MS: i64 = 1750;

/// Consecutive unchanged polls that make a stall.
pub const SIBLING_POS_STALL_TICKS: u8 = 3;

/// Position change (ms) below which a poll counts as unchanged.
pub const SIBLING_POS_EPS_MS: i64 = 40;

/// One reading of the engine at a tail poll (every 200 ms near the end, and on end-of-file
/// signals of the direct load path). With `keep-open` the end-of-file flag can stay false while
/// the position sits just short of the end.
#[derive(Clone, Copy, PartialEq, Eq, Structural, Debug)]
pub struct TailSample {
    pub eof_reached: bool,
    pub pos: Option<i64>,
    pub dur_ms: i64,
    /// Pause flag (unknown counts as paused).
    pub paused: bool,
}

/// Whether `pos` lies within the end slack of a title of length `dur`.
pub open spec fn spec_in_slack(pos: Option<i64>, dur_ms: i64) -> bool {
    dur_ms > 0 && pos is Some && dur_ms - pos->0 <= SIBLING_END_SLACK_MS
}

/// The stall run starts over: paused, away from the end, or at the engine's end of file.
pub open spec fn spec_stall_reset(t: TailSample) -> bool {
    t.paused || !spec_in_slack(t.pos, t.dur_ms) || t.eof_reached
}

/// The stall run `(position, count)` after a poll.
pub open spec fn spec_stall_after(stall_pos: i64, count: u8, t: TailSample) -> (i64, u8) {
    if spec_stall_reset(t) {
        (0, 0)
    } else if t.pos->0 - stall_pos < SIBLING_POS_EPS_MS && stall_pos - t.pos->0 < SIBLING_POS_EPS_MS {
        (stall_pos, if count >= 249 { 250u8 } else { (count + 1) as u8 })
    } else {
        (t.pos->0, 0u8)
    }
}

/// Playback is at its end: the engine says so, or it stalled in the slack for three polls.
pub open spec fn spec_at_end(t: TailSample, count_after: u8) -> bool {
    t.eof_reached || (!spec_stall_reset(t) && count_after >= SIBLING_POS_STALL_TICKS)
}

/// What the window knows at a tail poll.
#[derive(Clone, PartialEq, Eq, Debug)]
pub struct TailFacts {
    /// The player exists and is free.
    pub player_available: bool,
    pub sample: TailSample,
    pub exit_after_current: bool,
    pub engine_path: Option<String>,
    pub last_path: Option<String>,
    /// Next file after the finished title (engine path, else last path) in folder order.
    pub next: Option<String>,
}

/// What a tail poll led to.
#[derive(Clone, PartialEq, Eq, Debug)]
pub enum TailOutcome {
    /// No player: nothing was read or changed.
    NoPlayer,
    /// Not at an end: the guard is re-armed.
    NotAtEnd,
    /// At an end that was already handled.
    AlreadyHandled,
    /// "Exit after current video": run the quit persistence.
    QuitAfterCurrent,
    /// At an end with no known finished title.
    NoTarget,
    /// Advance: load the next file, or drop the finished one from the continue list.
    Advanced(SiblingAdvance),
}

/// Outcome of a poll given the guard before it and whether playback is at its end.
pub open spec fn spec_tail_outcome(done: bool, at_end: bool, f: TailFacts) -> TailOutcome {
    if !at_end {
        TailOutcome::NotAtEnd
    } else if done {
        TailOutcome::AlreadyHandled
    } else if f.exit_after_current {
        TailOutcome::QuitAfterCurrent
    } else if f.engine_path is None && f.last_path is None {
        TailOutcome::NoTarget
    } else {
        TailOutcome::Advanced(
            match f.next {
                None => SiblingAdvance::DropFinished,
                Some(np) => SiblingAdvance::Load(np),
            },
        )
    }
}

impl SiblingEofState {
    /// One tail poll: update the stall run, then decide. At an end the guard is consumed, so the
    /// advance runs once per logical end; away from an end it is re-armed. Quitting and a missing
    /// finished title also restart the stall run. A failed load of the next file is followed by
    /// [`SiblingEofState::rearm`].
    pub fn maybe_advance_sibling_at_tail(&mut self, f: TailFacts) -> (o: TailOutcome)
        ensures
            !f.player_available ==> o == TailOutcome::NoPlayer && *final(self) == *old(self),
            f.player_available ==> ({
                let (sp, sc) = spec_stall_after(old(self).stall_pos_ms, old(self).stall_count, f.sample);
                let at_end = spec_at_end(f.sample, sc);
                &&& o == spec_tail_outcome(old(self).done, at_end, f)
                &&& final(self).done == at_end
                &&& (if o is QuitAfterCurrent || o is NoTarget {
                    final(self).stall_pos_ms == 0 && final(self).stall_count == 0
                } else {
                    final(self).stall_pos_ms == sp && final(self).stall_count == sc
                })
                &&& final(self).pos_tracked == old(self).pos_tracked
                &&& final(self).pos_min_ms == old(self).pos_min_ms
                &&& final(self).pos_max_ms == old(self).pos_max_ms
            }),
    {
        if !f.player_available {
            return TailOutcome::NoPlayer;
        }
        let t = f.sample;
        let in_slack = t.dur_ms > 0 && t.pos.is_some() && (t.dur_ms as i128) - (t.pos.unwrap() as i128)
            <= SIBLING_END_SLACK_MS as i128;
        let reset = t.paused || !in_slack || t.eof_reached;
        if reset {
            self.stall_pos_ms = 0;
            self.stall_count = 0;
        } else {
            let p = t.pos.unwrap();
            let d: i128 = (p as i128) - (self.stall_pos_ms as i128);
            if d < SIBLING_POS_EPS_MS as i128 && -d < SIBLING_POS_EPS_MS as i128 {
                self.stall_count = if self.stall_count >= 249 {
                    250
                } else {
                    self.stall_count + 1
                };
            } else {
                self.stall_pos_ms = p;
                self.stall_count = 0;
            }
        }
        let at_end = t.eof_reached || (!reset && self.stall_count >= SIBLING_POS_STALL_TICKS);
        if !at_end {
            self.done = false;
            return TailOutcome::NotAtEnd;
        }
        if self.done {
            return TailOutcome::AlreadyHandled;
        }
        self.done = true;
        if f.exit_after_current {
            self.stall_pos_ms = 0;
            self.stall_count = 0;
            return TailOutcome::QuitAfterCurrent;
        }
        if f.engine_path.is_none() && f.last_path.is_none() {
            self.stall_pos_ms = 0;
            self.stall_count = 0;
            return TailOutcome::NoTarget;
        }
        TailOutcome::Advanced(
            match f.next {
                None => SiblingAdvance::DropFinished,
                Some(np) => SiblingAdvance::Load(np),
            },
        )
    }
}

/// Whether a tail outcome handled the end (the guard stays consumed while it lasts).
pub open spec fn spec_tail_handled(o: TailOutcome) -> bool {
    o is QuitAfterCurrent || o is NoTarget || o is Advanced
}

/// A stalled tail is detected: whatever the stall run before, four polls that read the same
/// in-slack, unpaused position reach the end (the first may start the run, three more count it).
/// Once handled, a further poll of the same end is not handled again.
pub proof fn law_tail_stall_detected(stall_pos: i64, count: u8, t: TailSample, f: TailFacts)
    requires
        !spec_stall_reset(t),
    ensures
        ({
            let (p1, c1) = spec_stall_after(stall_pos, count, t);
            let (p2, c2) = spec_stall_after(p1, c1, t);
            let (p3, c3) = spec_stall_after(p2, c2, t);
            let (p4, c4) = spec_stall_after(p3, c3, t);
            &&& p1 == p4
            &&& spec_at_end(t, c4)
        }),
        spec_tail_handled(spec_tail_outcome(false, true, f)),
        spec_tail_outcome(true, true, f) == TailOutcome::AlreadyHandled,
{
}

/// At the natural end of a known title (guard armed, player there, no grid preload, no "exit
/// after current"): the title is held exactly when an incomplete download asks for it; otherwise
/// the next file in folder order is loaded when there is one other than the finished file, and
/// the finished title is dropped from the continue list when there is none. Holding leaves the
/// guard armed; advancing consumes it.
pub proof fn law_hold_iff_incomplete_download(f: EofFacts)
    requires
        f.player_available,
        !f.browse_overlay_active,
        !f.exit_after_current,
        f.engine_path is Some || f.last_path is Some,
    ensures
        (spec_eof_outcome(false, f) == EofOutcome::Held) == f.hold_instead,
        f.hold_instead ==> !spec_consumes_guard(spec_eof_outcome(false, f)),
        !f.hold_instead ==> spec_consumes_guard(spec_eof_outcome(false, f)),
        !f.hold_instead && f.next is Some && !f.next_is_finished ==> spec_eof_outcome(false, f)
            == EofOutcome::Advanced(SiblingAdvance::Load(f.next->0)),
        !f.hold_instead && f.next is None ==> spec_eof_outcome(false, f) == EofOutcome::Advanced(
            SiblingAdvance::DropFinished,
        ),
{
}

} // verus!
