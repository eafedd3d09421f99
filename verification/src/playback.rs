//! Play / pause requests and the resume retries after unpausing.
use vstd::prelude::*;

verus! {

/// The engine's view of the loaded title: duration (ms) and pause flag.
#[derive(Clone, Copy, PartialEq, Eq, Structural, Debug)]
pub struct PlayerSnapshot {
    pub duration_ms: i64,
    pub paused: bool,
}

/// Outcome of a pause request before the engine is written.
#[derive(Clone, Copy, PartialEq, Eq, Structural, Debug)]
pub enum PauseRequest {
    /// Grid covers the video, no player, or no media: nothing happens (reported as failure).
    Refused,
    /// Already in the wanted state (reported as success).
    AlreadyThere,
    /// Write the pause flag; `unpausing_into_play` asks for the smooth-filter and
    /// incomplete-download bookkeeping first.
    Write { unpausing_into_play: bool },
}

pub open spec fn spec_pause_request(recent_visible: bool, player: Option<PlayerSnapshot>, want_pause: bool) -> PauseRequest {
    match player {
        None => PauseRequest::Refused,
        Some(p) => if recent_visible || p.duration_ms <= 0 {
            PauseRequest::Refused
        } else if p.paused == want_pause {
            PauseRequest::AlreadyThere
        } else {
            PauseRequest::Write { unpausing_into_play: !want_pause && p.paused }
        },
    }
}

pub open spec fn spec_toggle(recent_visible: bool, player: Option<PlayerSnapshot>) -> ToggleAction {
    match player {
        None => ToggleAction::Refused,
        Some(p) => if p.duration_ms <= 0 {
            ToggleAction::Refused
        } else if recent_visible {
            ToggleAction::OpenFromWarmGrid
        } else {
            ToggleAction::SetPause(!p.paused)
        },
    }
}

/// Decide a pause / unpause request (play button, media keys, system controls).
pub fn apply_mpv_pause(recent_visible: bool, player: Option<PlayerSnapshot>, want_pause: bool) -> (r:
    PauseRequest)
    ensures
        r == spec_pause_request(recent_visible, player, want_pause),
{
    if recent_visible {
        return PauseRequest::Refused;
    }
    let p = match player {
        None => {
            return PauseRequest::Refused;
        },
        Some(p) => p,
    };
    if p.duration_ms <= 0 {
        return PauseRequest::Refused;
    }
    if p.paused == want_pause {
        return PauseRequest::AlreadyThere;
    }
    PauseRequest::Write { unpausing_into_play: !want_pause && p.paused }
}

/// Whether a pause request succeeded, given whether the engine accepted the write.
pub fn pause_request_succeeded(r: PauseRequest, write_ok: bool) -> (ok: bool)
    ensures
        ok == (match r {
            PauseRequest::Refused => false,
            PauseRequest::AlreadyThere => true,
            PauseRequest::Write { .. } => write_ok,
        }),
{
    match r {
        PauseRequest::Refused => false,
        PauseRequest::AlreadyThere => true,
        PauseRequest::Write { .. } => write_ok,
    }
}

/// What the play/pause control does.
#[derive(Clone, Copy, PartialEq, Eq, Structural, Debug)]
pub enum ToggleAction {
    /// No player or no media.
    Refused,
    /// The grid covers a warm preloaded title: open it (delayed reveal).
    OpenFromWarmGrid,
    /// Request this pause state.
    SetPause(bool),
}

/// Play/pause control: over the grid it opens the warm title, else it flips the pause flag.
pub fn toggle_play_pause(recent_visible: bool, player: Option<PlayerSnapshot>) -> (a: ToggleAction)
    ensures
        a == spec_toggle(recent_visible, player),
{
    let p = match player {
        None => {
            return ToggleAction::Refused;
        },
        Some(p) => p,
    };
    if p.duration_ms <= 0 {
        return ToggleAction::Refused;
    }
    if recent_visible {
        return ToggleAction::OpenFromWarmGrid;
    }
    ToggleAction::SetPause(!p.paused)
}

/// Pause flag of loaded media; `None` over the grid, without player, or without duration.
pub fn mpv_pause_state(recent_visible: bool, player: Option<PlayerSnapshot>) -> (s: Option<bool>)
    ensures
        s == (match player {
            None => None,
            Some(p) => if recent_visible || p.duration_ms <= 0 {
                None
            } else {
                Some(p.paused)
            },
        }),
{
    if recent_visible {
        return None;
    }
    match player {
        None => None,
        Some(p) => if p.duration_ms <= 0 {
            None
        } else {
            Some(p.paused)
        },
    }
}

/// Over visible media the play control always writes the opposite pause state, and a second
/// press (after the engine took the first) writes the original state back.
pub proof fn law_toggle_twice_restores(p: PlayerSnapshot)
    requires
        p.duration_ms > 0,
    ensures
        spec_toggle(false, Some(p)) == ToggleAction::SetPause(!p.paused),
        spec_pause_request(false, Some(p), !p.paused) == (PauseRequest::Write {
            unpausing_into_play: p.paused,
        }),
        ({
            let q = PlayerSnapshot { paused: !p.paused, ..p };
            spec_toggle(false, Some(q)) == ToggleAction::SetPause(p.paused)
        }),
{
}

/// A pause request never touches the engine while the continue grid covers the video.
pub proof fn law_grid_blocks_pause_writes(player: Option<PlayerSnapshot>, want: bool)
    ensures
        spec_pause_request(true, player, want) == PauseRequest::Refused,
{
}

/// Delays (ms after unpausing) at which a pending resume seek is retried.
pub open spec fn spec_resume_delays() -> Seq<u64> {
    seq![0u64, 80, 200, 500, 1000]
}

/// Unpausing after an open: unpause first (so optical media report a duration), then retry the
/// resume seek at these delays.
pub struct ResumePlan {
    /// Write `pause = false` now: only with a player.
    pub unpause: bool,
    /// Retries are armed either way; each checks for the player itself
    /// (see [`resume_retry_runs`]).
    pub retry_delays_ms: Vec<u64>,
}

pub fn unpause_and_finish_resume(player_ready: bool) -> (p: ResumePlan)
    ensures
        p.unpause == player_ready,
        p.retry_delays_ms@ == spec_resume_delays(),
{
    let v: Vec<u64> = vec![0, 80, 200, 500, 1000];
    assert(v@ =~= spec_resume_delays());
    ResumePlan { unpause: player_ready, retry_delays_ms: v }
}

/// One resume retry: without a player nothing runs; later retries run only while a resume seek
/// is still pending (the first may still open the resume point from the database).
pub fn resume_retry_runs(delay_ms: u64, player_ready: bool, resume_pending: bool) -> (run: bool)
    ensures
        run == (player_ready && !(delay_ms > 0 && !resume_pending)),
{
    player_ready && !(delay_ms > 0 && !resume_pending)
}

/// Whether the smooth filter was stripped for the playing title; `None` without a player.
pub fn smooth_stripped_on_bundle(stripped: Option<bool>) -> (b: bool)
    ensures
        b == (stripped == Some(true)),
{
    match stripped {
        Some(s) => s,
        None => false,
    }
}

/// A local file (or disc tree) is loaded: a player exists and it resolves an open media path,
/// whether or not that path still exists on disk.
pub fn has_loaded_local_media(player_ready: bool, open_media_path: Option<&str>) -> (b: bool)
    ensures
        b == (player_ready && open_media_path is Some),
{
    player_ready && open_media_path.is_some()
}

/// Path of the playing local file; `None` while the player is busy or absent.
pub fn current_local_path(player_free: bool, player_ready: bool, local_file: Option<String>) -> (p:
    Option<String>)
    ensures
        p == (if player_free && player_ready {
            local_file
        } else {
            None
        }),
{
    if player_free && player_ready {
        local_file
    } else {
        None
    }
}

/// The file Previous/Next are computed for: the playing file, else the last opened one.
pub fn nav_current_path(current: Option<String>, last_path: Option<String>) -> (p: Option<String>)
    ensures
        p == (if current is Some {
            current
        } else {
            last_path
        }),
{
    match current {
        Some(c) => Some(c),
        None => last_path,
    }
}

/// The continue grid went away: drop the queued thumbnail backfill job and hand back the running
/// backfill so it can be shut down.
pub fn shutdown_recent_backfill<J, C>(pending: &mut Option<J>, running: &mut Option<C>) -> (stop:
    Option<C>)
    ensures
        *final(pending) is None,
        *final(running) is None,
        stop == *old(running),
{
    let _ = pending.take();
    running.take()
}

} // verus!
