//! Fullscreen and maximize rules of the player window.
//!
//! Maximizing a floating window (title bar, double click) enters fullscreen; leaving fullscreen
//! restores the floating size that the window had before. A latch (`skip_max_to_fs`) keeps the
//! maximize notifications that a fullscreen exit produces from re-entering fullscreen. Entering
//! fullscreen plays a paused title; leaving pauses it again when entering had unpaused it.
use vstd::prelude::*;
use crate::keys::Platform;

verus! {

/// Window sizes and the exit latch shared by the fullscreen and maximize handlers.
#[derive(Clone, Copy, Debug)]
pub struct WindowGeometry {
    /// Floating size to restore when fullscreen ends, saved once per fullscreen session.
    pub fs_restore: Option<(i32, i32)>,
    /// Last floating (not maximized, not fullscreen) size.
    pub last_unmax: (i32, i32),
    /// Set while leaving fullscreen: maximize notifications must not re-enter fullscreen.
    pub skip_max_to_fs: bool,
}

/// What a `maximized` notification asks for.
#[derive(Clone, Copy, PartialEq, Eq, Structural, Debug)]
pub enum MaxModeAction {
    /// Nothing to do.
    Nothing,
    /// The floating size was remembered.
    RememberedNormal,
    /// Un-maximized while fullscreen (Linux): leave fullscreen.
    LeaveFullscreen,
    /// Maximized a floating window: enter fullscreen on the next idle (see
    /// [`enter_fs_idle_allowed`]).
    EnterFullscreenOnIdle,
}

/// Saving the floating size for the fullscreen session, unless one is saved already.
pub open spec fn spec_save_restore(g: WindowGeometry, size: (i32, i32)) -> WindowGeometry {
    WindowGeometry {
        fs_restore: if g.fs_restore is None {
            Some(size)
        } else {
            g.fs_restore
        },
        ..g
    }
}

/// Geometry after a fullscreen-entered notification (see [`fs_notify_maybe_maximize`]).
pub open spec fn spec_notify_enter(
    g: WindowGeometry,
    maximized: bool,
    platform: Platform,
    normal_size: (i32, i32),
) -> WindowGeometry {
    let g0 = WindowGeometry { skip_max_to_fs: false, ..g };
    if !g.skip_max_to_fs && !maximized && platform == Platform::Linux {
        spec_save_restore(g0, normal_size)
    } else {
        g0
    }
}

/// The size a leave-fullscreen restore applies.
pub open spec fn spec_restored_size(g: WindowGeometry) -> (i32, i32) {
    match g.fs_restore {
        Some(s) => s,
        None => g.last_unmax,
    }
}

/// Route one `maximized` notification. `normal_size` is the window's current floating size.
pub fn max_mode_route(
    geom: &mut WindowGeometry,
    maximized: bool,
    fullscreen: bool,
    platform: Platform,
    normal_size: (i32, i32),
) -> (a: MaxModeAction)
    ensures
        !maximized && !fullscreen ==> {
            &&& a == (if old(geom).skip_max_to_fs {
                MaxModeAction::Nothing
            } else {
                MaxModeAction::RememberedNormal
            })
            &&& *final(geom) == (if old(geom).skip_max_to_fs {
                *old(geom)
            } else {
                (WindowGeometry { last_unmax: normal_size, ..*old(geom) })
            })
        },
        !maximized && fullscreen && platform == Platform::Linux ==> {
            &&& a == MaxModeAction::LeaveFullscreen
            &&& *final(geom) == (WindowGeometry { skip_max_to_fs: true, ..*old(geom) })
        },
        !maximized && fullscreen && platform == Platform::MacOs ==> {
            &&& a == MaxModeAction::Nothing
            &&& *final(geom) == *old(geom)
        },
        maximized && !fullscreen && !old(geom).skip_max_to_fs ==> {
            &&& a == MaxModeAction::EnterFullscreenOnIdle
            &&& *final(geom) == spec_save_restore(*old(geom), old(geom).last_unmax)
        },
        maximized && (fullscreen || old(geom).skip_max_to_fs) ==> {
            &&& a == MaxModeAction::Nothing
            &&& *final(geom) == *old(geom)
        },
{
    if !maximized {
        if !fullscreen {
            if !geom.skip_max_to_fs {
                geom.last_unmax = normal_size;
                MaxModeAction::RememberedNormal
            } else {
                MaxModeAction::Nothing
            }
        } else {
            match platform {
                Platform::Linux => {
                    geom.skip_max_to_fs = true;
                    MaxModeAction::LeaveFullscreen
                },
                Platform::MacOs => MaxModeAction::Nothing,
            }
        }
    } else if !fullscreen && !geom.skip_max_to_fs {
        if geom.fs_restore.is_none() {
            geom.fs_restore = Some(geom.last_unmax);
        }
        MaxModeAction::EnterFullscreenOnIdle
    } else {
        MaxModeAction::Nothing
    }
}

/// The deferred fullscreen after a maximize still applies only if no exit latched meanwhile and
/// the window is still maximized and not yet fullscreen.
pub fn enter_fs_idle_allowed(skip_max_to_fs: bool, maximized: bool, fullscreen: bool) -> (ok: bool)
    ensures
        ok == (!skip_max_to_fs && maximized && !fullscreen),
{
    !(skip_max_to_fs || !maximized || fullscreen)
}

/// Whether entering fullscreen also maximizes the window underneath.
#[derive(Clone, Copy, PartialEq, Eq, Structural, Debug)]
pub enum EnterMaximize {
    No,
    /// Maximize now (Linux); the floating size was saved if none was.
    Now,
    /// Maximize on the next idle (macOS), see [`macos_deferred_maximize`].
    OnIdle,
}

/// Fullscreen entered: clear the exit latch; unless this notification arrived during an
/// exit-and-re-enter (latch was set) or the window is maximized already, maximize it.
pub fn fs_notify_maybe_maximize(
    geom: &mut WindowGeometry,
    maximized: bool,
    platform: Platform,
    normal_size: (i32, i32),
) -> (e: EnterMaximize)
    ensures
        *final(geom) == spec_notify_enter(*old(geom), maximized, platform, normal_size),
        e == (if old(geom).skip_max_to_fs || maximized {
            EnterMaximize::No
        } else if platform == Platform::Linux {
            EnterMaximize::Now
        } else {
            EnterMaximize::OnIdle
        }),
{
    let defer_max_pair = geom.skip_max_to_fs;
    geom.skip_max_to_fs = false;
    if !defer_max_pair && !maximized {
        match platform {
            Platform::Linux => {
                if geom.fs_restore.is_none() {
                    geom.fs_restore = Some(normal_size);
                }
                EnterMaximize::Now
            },
            Platform::MacOs => EnterMaximize::OnIdle,
        }
    } else {
        EnterMaximize::No
    }
}

/// The deferred macOS maximize: skipped when the window left fullscreen or got maximized
/// meanwhile; otherwise save the floating size if none was saved and maximize.
pub fn macos_deferred_maximize(
    geom: &mut WindowGeometry,
    fullscreen: bool,
    maximized: bool,
    normal_size: (i32, i32),
) -> (do_max: bool)
    ensures
        do_max == (fullscreen && !maximized),
        *final(geom) == (if do_max {
            spec_save_restore(*old(geom), normal_size)
        } else {
            *old(geom)
        }),
{
    if !fullscreen || maximized {
        return false;
    }
    if geom.fs_restore.is_none() {
        geom.fs_restore = Some(normal_size);
    }
    true
}

/// Fullscreen left: latch the exit so the coming maximize notifications do not re-enter.
pub fn fs_leave_prep(geom: &mut WindowGeometry)
    ensures
        *final(geom) == (WindowGeometry { skip_max_to_fs: true, ..*old(geom) }),
{
    geom.skip_max_to_fs = true;
}

/// Floating size to restore after fullscreen: the saved one (consumed), else the last floating
/// size.
pub fn restore_windowed_size(geom: &mut WindowGeometry) -> (size: (i32, i32))
    ensures
        size == spec_restored_size(*old(geom)),
        *final(geom) == (WindowGeometry { fs_restore: None, ..*old(geom) }),
{
    match geom.fs_restore.take() {
        Some(s) => s,
        None => geom.last_unmax,
    }
}

/// The restore after leaving fullscreen finished: release the exit latch.
pub fn leave_restore_finished(geom: &mut WindowGeometry)
    ensures
        *final(geom) == (WindowGeometry { skip_max_to_fs: false, ..*old(geom) }),
{
    geom.skip_max_to_fs = false;
}

/// Maximizing a floating window of size `s` and then leaving fullscreen gives back `s`, whatever
/// size the fullscreen notification saw in between and on either platform; the restore consumes
/// the saved size.
pub proof fn law_fullscreen_round_trip_restores_size(
    g: WindowGeometry,
    maximized: bool,
    platform: Platform,
    seen: (i32, i32),
)
    requires
        g.fs_restore is None,
        !g.skip_max_to_fs,
    ensures
        ({
            let g1 = spec_save_restore(g, g.last_unmax);
            let g2 = spec_notify_enter(g1, maximized, platform, seen);
            let g3 = WindowGeometry { skip_max_to_fs: true, ..g2 };
            spec_restored_size(g3) == g.last_unmax
        }),
{
}

/// Fullscreen entered with a floating window (keyboard, menu) and left again gives back the
/// floating size it had on entry (Linux, where the notification saves it).
pub proof fn law_direct_fullscreen_restores_size(g: WindowGeometry, s: (i32, i32))
    requires
        g.fs_restore is None,
        !g.skip_max_to_fs,
    ensures
        ({
            let g2 = spec_notify_enter(g, false, Platform::Linux, s);
            let g3 = WindowGeometry { skip_max_to_fs: true, ..g2 };
            spec_restored_size(g3) == s
        }),
{
}

/// Session memory and whether to unpause, after a fullscreen entry.
pub open spec fn spec_enter_pause(stash: Option<bool>, pause_state: Option<bool>) -> (Option<bool>, bool) {
    if stash is Some {
        (stash, false)
    } else {
        (pause_state, pause_state == Some(true))
    }
}

/// Session memory and whether to pause, after leaving fullscreen.
pub open spec fn spec_exit_pause(stash: Option<bool>, pause_state: Option<bool>) -> (Option<bool>, bool) {
    (None, stash == Some(true) && pause_state == Some(false))
}

/// First fullscreen entry of a session: remember whether the title was paused and play it.
/// `pause_state` is `None` when no title is loaded or the grid covers the video. Returns
/// whether to unpause now.
pub fn fs_on_enter_pause(stash: &mut Option<bool>, pause_state: Option<bool>) -> (unpause: bool)
    ensures
        (*final(stash), unpause) == spec_enter_pause(*old(stash), pause_state),
{
    if stash.is_some() {
        return false;
    }
    match pause_state {
        None => false,
        Some(was_paused) => {
            *stash = Some(was_paused);
            was_paused
        },
    }
}

/// Leaving fullscreen: pause again only when entry had unpaused a paused title and it is still
/// playing. The session's memory is consumed. Returns whether to pause now.
pub fn fs_on_exit_pause(stash: &mut Option<bool>, pause_state: Option<bool>) -> (pause: bool)
    ensures
        (*final(stash), pause) == spec_exit_pause(*old(stash), pause_state),
{
    let s = stash.take();
    if s != Some(true) {
        return false;
    }
    pause_state == Some(false)
}

/// A title paused before fullscreen plays in fullscreen, repeated entry notifications change
/// nothing, and leaving pauses it again if it still plays; afterwards no session memory remains.
/// A title that was playing on entry is never paused by leaving.
pub proof fn law_fullscreen_pause_round_trip(was_paused: bool, later: Option<bool>)
    ensures
        ({
            let (s1, unpause) = spec_enter_pause(None, Some(was_paused));
            let (s2, again) = spec_enter_pause(s1, later);
            let (s3, pause) = spec_exit_pause(s2, Some(false));
            &&& unpause == was_paused
            &&& !again
            &&& pause == was_paused
            &&& s3 is None
        }),
{
}

/// Display-wide animation suppression with nesting: the setting saved when the first request
/// begins is restored when the last one ends.
#[derive(Clone, Copy, PartialEq, Eq, Structural, Debug)]
pub struct AnimSuppress {
    /// Pending requests.
    pub depth: u32,
    /// Setting to restore when the depth falls back to zero.
    pub saved: bool,
}

impl AnimSuppress {
    pub fn new() -> (s: Self)
        ensures
            s.depth == 0,
            s.saved,
    {
        AnimSuppress { depth: 0, saved: true }
    }

    /// One suppression request begins; `current` is the setting right now.
    pub fn anim_suppress_enter(&mut self, current: bool)
        requires
            old(self).depth < u32::MAX,
        ensures
            final(self).depth == old(self).depth + 1,
            final(self).saved == (if old(self).depth == 0 {
                current
            } else {
                old(self).saved
            }),
    {
        if self.depth == 0 {
            self.saved = current;
        }
        self.depth = self.depth + 1;
    }

    /// One suppression request ends; returns the setting to restore when it was the last.
    pub fn anim_suppress_exit_restore(&mut self) -> (restore: Option<bool>)
        ensures
            (*final(self), restore) == spec_exit(*old(self)),
    {
        self.depth = if self.depth == 0 {
            0
        } else {
            self.depth - 1
        };
        if self.depth == 0 {
            Some(self.saved)
        } else {
            None
        }
    }
}

/// State and setting to restore after one request ends.
pub open spec fn spec_exit(s: AnimSuppress) -> (AnimSuppress, Option<bool>) {
    let d: u32 = if s.depth == 0 {
        0
    } else {
        (s.depth - 1) as u32
    };
    (AnimSuppress { depth: d, saved: s.saved }, if d == 0 {
        Some(s.saved)
    } else {
        None
    })
}

/// State after `n` requests ended.
pub open spec fn spec_exit_n(s: AnimSuppress, n: nat) -> AnimSuppress
    decreases n,
{
    if n == 0 {
        s
    } else {
        spec_exit(spec_exit_n(s, (n - 1) as nat)).0
    }
}

proof fn lemma_exit_n(s: AnimSuppress, n: nat)
    requires
        n <= s.depth,
    ensures
        spec_exit_n(s, n).depth == s.depth - n,
        spec_exit_n(s, n).saved == s.saved,
    decreases n,
{
    if n > 0 {
        lemma_exit_n(s, (n - 1) as nat);
    }
}

/// Overlapping requests: after `k` begin (from none) and the same `k` end, only the last end
/// restores, and it restores the setting seen by the first request.
pub proof fn law_nested_suppression_restores(s: AnimSuppress, currents: Seq<bool>, j: nat)
    requires
        s.depth == 0,
        currents.len() > 0,
        currents.len() < u32::MAX,
        j < currents.len(),
    ensures
        ({
            let e = spec_enter_all(s, currents);
            spec_exit(spec_exit_n(e, j)).1 == (if j + 1 == currents.len() {
                Some(currents[0])
            } else {
                None
            })
        }),
        spec_exit_n(spec_enter_all(s, currents), currents.len()).depth == 0,
{
    law_nested_suppression_saves_first(s, currents);
    let e = spec_enter_all(s, currents);
    lemma_exit_n(e, j);
    lemma_exit_n(e, currents.len());
}

pub open spec fn spec_enter_all(s: AnimSuppress, currents: Seq<bool>) -> AnimSuppress
    decreases currents.len(),
{
    if currents.len() == 0 {
        s
    } else {
        let p = spec_enter_all(s, currents.drop_last());
        AnimSuppress {
            depth: (p.depth + 1) as u32,
            saved: if p.depth == 0 {
                currents.last()
            } else {
                p.saved
            },
        }
    }
}

/// Overlapping requests: however many begin, the saved setting is the one seen by the first, so
/// a nested request can never capture the already-disabled value.
pub proof fn law_nested_suppression_saves_first(s: AnimSuppress, currents: Seq<bool>)
    requires
        s.depth == 0,
        currents.len() > 0,
        currents.len() < u32::MAX,
    ensures
        spec_enter_all(s, currents).depth == currents.len(),
        spec_enter_all(s, currents).saved == currents[0],
    decreases currents.len(),
{
    let p = spec_enter_all(s, currents.drop_last());
    if currents.len() > 1 {
        law_nested_suppression_saves_first(s, currents.drop_last());
        assert(currents.drop_last()[0] == currents[0]);
        assert(p.depth == currents.len() - 1);
    } else {
        assert(currents.drop_last().len() == 0);
        assert(p == s);
    }
}

/// Outcome of one poll while waiting for the macOS exit transition to finish.
#[derive(Clone, Copy, PartialEq, Eq, Structural, Debug)]
pub enum LeaveTick {
    /// A newer fullscreen transition superseded this one: only release the exit latch.
    Superseded,
    /// Still fullscreen: poll again later with this count.
    PollAgain(u8),
    /// Restore pause state and floating geometry now.
    RestoreNow,
}

/// Polls before the restore runs anyway.
pub const MACOS_LEAVE_FS_POLL_MAX: u8 = 12;

/// Outcome of one poll: generation `gen` against the awaited `want_gen`, whether the window is
/// still fullscreen, and how many polls ran.
pub open spec fn spec_leave_tick(gen: u32, want_gen: u32, still_fullscreen: bool, polls: u8) -> LeaveTick {
    if gen != want_gen {
        LeaveTick::Superseded
    } else if still_fullscreen && polls < MACOS_LEAVE_FS_POLL_MAX {
        LeaveTick::PollAgain((polls + 1) as u8)
    } else {
        LeaveTick::RestoreNow
    }
}

/// One poll of the macOS leave-fullscreen restore.
pub fn macos_leave_fs_restore_tick(gen: u32, want_gen: u32, still_fullscreen: bool, polls: u8) -> (t:
    LeaveTick)
    ensures
        t == spec_leave_tick(gen, want_gen, still_fullscreen, polls),
{
    if gen != want_gen {
        return LeaveTick::Superseded;
    }
    if still_fullscreen && polls < MACOS_LEAVE_FS_POLL_MAX {
        return LeaveTick::PollAgain(polls + 1);
    }
    LeaveTick::RestoreNow
}

/// Waiting for the exit transition is bounded: a poll asks for another only below the limit,
/// with a strictly larger count, so at most twelve further polls run before the restore.
pub proof fn law_leave_polls_bounded(gen: u32, want_gen: u32, still: bool, polls: u8, next: u8)
    requires
        spec_leave_tick(gen, want_gen, still, polls) == LeaveTick::PollAgain(next),
    ensures
        polls < next <= MACOS_LEAVE_FS_POLL_MAX,
        polls == MACOS_LEAVE_FS_POLL_MAX ==> spec_leave_tick(gen, want_gen, still, polls)
            != LeaveTick::PollAgain(next),
{
}

/// The fullscreen wall clock ticks only while the window stays fullscreen.
pub fn fs_clock_timer_step(fullscreen: bool) -> (keep_ticking: bool)
    ensures
        keep_ticking == fullscreen,
{
    fullscreen
}

/// A deferred legacy-fullscreen leave is stale once a newer legacy session began or the window is
/// fullscreen again.
pub fn legacy_leave_stale(current_session: u32, session: u32, fullscreen: bool) -> (stale: bool)
    ensures
        stale == (current_session != session || fullscreen),
{
    current_session != session || fullscreen
}

} // verus!
