//! Opening a file: how a load proceeds (warm preload hit or cold load), what happens to the
//! outgoing title, and returning to the continue grid.
use vstd::prelude::*;
use crate::eof::SiblingEofState;
use crate::undo::{DismissTimer, UndoBar, UndoStep};

verus! {

/// Options of one open.
#[derive(Clone, Copy, PartialEq, Eq, Structural, Debug)]
pub struct LoadFlags {
    /// Add the file to the recent history.
    pub record: bool,
    /// Start playing once loaded.
    pub play_on_start: bool,
    /// Set the speed back to 1× before loading (folder auto-advance).
    pub reset_speed_to_normal: bool,
    /// Paused preload behind the continue grid (card hover, first card).
    pub warm_preload: bool,
}

/// Options for replacing the playing media (menu, drag and drop, file manager, startup file,
/// folder advance): recorded in history, never a preload.
pub fn replace_media(play_on_start: bool, reset_speed_to_normal: bool) -> (f: LoadFlags)
    ensures
        f == (LoadFlags { record: true, play_on_start, reset_speed_to_normal, warm_preload: false }),
{
    LoadFlags { record: true, play_on_start, reset_speed_to_normal, warm_preload: false }
}

/// Folder auto-advance: play at once, speed back to 1×.
pub fn sibling_reload_opts() -> (f: LoadFlags)
    ensures
        f == (LoadFlags {
            record: true,
            play_on_start: true,
            reset_speed_to_normal: true,
            warm_preload: false,
        }),
{
    replace_media(true, true)
}

/// A file picked in the open dialog (or given at startup): play at once, keep the speed.
pub fn picked_load_opts() -> (f: LoadFlags)
    ensures
        f == (LoadFlags {
            record: true,
            play_on_start: true,
            reset_speed_to_normal: false,
            warm_preload: false,
        }),
{
    replace_media(true, false)
}

/// Steps of an open that depend on its options.
#[derive(Clone, Copy, PartialEq, Eq, Structural, Debug)]
pub struct TryLoadPlan {
    /// Check the file before loading and refuse unreadable media with a message.
    pub preflight: bool,
    /// Cancel a pending grid preload and mark playback as focused.
    pub claim_playback: bool,
    /// Append to the recent history after loading.
    pub record_history: bool,
    /// Re-sync the smooth filter one idle after the reveal.
    pub smooth_resync_after_reveal: bool,
}

pub open spec fn spec_try_load_plan(f: LoadFlags, smooth_60: bool) -> TryLoadPlan {
    TryLoadPlan {
        preflight: !f.warm_preload,
        claim_playback: f.play_on_start && !f.warm_preload,
        record_history: f.record,
        smooth_resync_after_reveal: f.play_on_start && smooth_60,
    }
}

pub fn try_load_plan(f: LoadFlags, smooth_60: bool) -> (p: TryLoadPlan)
    ensures
        p == spec_try_load_plan(f, smooth_60),
{
    TryLoadPlan {
        preflight: !f.warm_preload,
        claim_playback: f.play_on_start && !f.warm_preload,
        record_history: f.record,
        smooth_resync_after_reveal: f.play_on_start && smooth_60,
    }
}

/// Whether the open is served by the paused preload already in the player.
#[derive(Clone, Copy, PartialEq, Eq, Structural, Debug)]
pub enum WarmHit {
    /// Load the file.
    Cold,
    /// The preload serves it; `entity_change` when the outgoing media was another title (strip
    /// its smooth filter and reset the seek preview).
    Hit { entity_change: bool },
}

/// A warm hit needs a preload request over a visible grid with the engine ready for this very
/// file. `prev_is_other` tells that the outgoing media is a different title.
pub fn load_as_warm_hit(warm_preload: bool, recent_visible: bool, warm_ready: bool, prev_is_other: bool) -> (h:
    WarmHit)
    ensures
        h == (if warm_preload && recent_visible && warm_ready {
            WarmHit::Hit { entity_change: prev_is_other }
        } else {
            WarmHit::Cold
        }),
{
    if !(warm_preload && recent_visible && warm_ready) {
        return WarmHit::Cold;
    }
    WarmHit::Hit { entity_change: prev_is_other }
}

/// Finishing a warm hit: persistence of the title resumes when it is to play; otherwise it stays
/// paused. Returns (resume persistence, pause).
pub fn finish_warm_hit(play_on_start: bool) -> (r: (bool, bool))
    ensures
        r == (play_on_start, !play_on_start),
{
    (play_on_start, !play_on_start)
}

/// A cold load replaces the outgoing title's video filter graph only when the title changes.
pub fn reset_vf_for_entity_change(prev_is_other: bool) -> (reset: bool)
    ensures
        reset == prev_is_other,
{
    prev_is_other
}

/// How a cold load treats the outgoing title.
#[derive(Clone, Copy, PartialEq, Eq, Structural, Debug)]
pub struct ColdLoadPlan {
    /// Clear the outgoing title's resume point: it is finished and has no next file.
    pub clear_resume: bool,
    /// Drop the finished outgoing title from the continue list after the load.
    pub drop_prev: bool,
    /// Do not persist the new title (preload behind the grid).
    pub skip_media_persist: bool,
    /// Save the outgoing title's state before loading.
    pub snapshot_outgoing: bool,
}

pub open spec fn spec_cold_load(
    f: LoadFlags,
    outgoing_finished: bool,
    prev_has_next: Option<bool>,
    prev_is_other: bool,
    recent_visible: bool,
) -> ColdLoadPlan {
    ColdLoadPlan {
        clear_resume: outgoing_finished && prev_has_next == Some(false),
        drop_prev: drop_finished_spec(outgoing_finished && prev_is_other, f.warm_preload),
        skip_media_persist: recent_visible && f.warm_preload,
        snapshot_outgoing: !f.warm_preload,
    }
}

/// Cold-load decisions. `outgoing_finished`: the outgoing title counts as watched;
/// `prev_has_next`: whether the outgoing file (if any) has a next file in folder order;
/// `prev_is_other`: the outgoing file exists and is another title.
pub fn cold_load_into_player(
    f: LoadFlags,
    outgoing_finished: bool,
    prev_has_next: Option<bool>,
    prev_is_other: bool,
    recent_visible: bool,
) -> (p: ColdLoadPlan)
    ensures
        p == spec_cold_load(f, outgoing_finished, prev_has_next, prev_is_other, recent_visible),
{
    let clear_resume = outgoing_finished && match prev_has_next {
        Some(next_known) => !next_known,
        None => false,
    };
    let drop_prev = outgoing_finished && prev_is_other;
    ColdLoadPlan {
        clear_resume,
        drop_prev: drop_finished_prev(drop_prev, f.warm_preload),
        skip_media_persist: recent_visible && f.warm_preload,
        snapshot_outgoing: !f.warm_preload,
    }
}

/// A finished predecessor leaves the continue list after switching away, never on a preload.
pub fn drop_finished_prev(drop_prev: bool, warm_preload: bool) -> (d: bool)
    ensures
        d == drop_finished_spec(drop_prev, warm_preload),
{
    drop_prev && !warm_preload
}

/// A preload never changes the continue list and never claims playback: whatever the outgoing
/// title, its cold load drops nothing and saves nothing of it, and the open neither cancels other
/// preloads nor runs the file check.
pub proof fn law_preload_keeps_outgoing(
    f: LoadFlags,
    smooth_60: bool,
    outgoing_finished: bool,
    prev_has_next: Option<bool>,
    prev_is_other: bool,
    recent_visible: bool,
)
    requires
        f.warm_preload,
    ensures
        !spec_cold_load(f, outgoing_finished, prev_has_next, prev_is_other, recent_visible).drop_prev,
        !spec_cold_load(f, outgoing_finished, prev_has_next, prev_is_other, recent_visible).snapshot_outgoing,
        !spec_try_load_plan(f, smooth_60).claim_playback,
        !spec_try_load_plan(f, smooth_60).preflight,
{
}

pub open spec fn drop_finished_spec(drop_prev: bool, warm_preload: bool) -> bool {
    drop_prev && !warm_preload
}

/// A failed open: user-initiated opens (with a failure callback) drop hollow or corrupt titles
/// from the continue list and show the message. Returns (drop from list, notify).
pub fn fail_open(has_fail_callback: bool, should_drop: bool) -> (r: (bool, bool))
    ensures
        r == (has_fail_callback && should_drop, has_fail_callback),
{
    (has_fail_callback && should_drop, has_fail_callback)
}

/// How the window reveals a loaded title.
#[derive(Clone, Copy, PartialEq, Eq, Structural, Debug)]
pub struct RevealPlan {
    /// Warm hit that is to play: reveal after a short delay instead of now.
    pub delayed_warm: bool,
    /// Hide the grid, focus playback and show the video chrome now.
    pub hide_grid_now: bool,
    /// Unpause and finish the resume (now or after the delay).
    pub start_playback: bool,
}

pub fn reveal_ui_after_load(warm_hit: bool, play_on_start: bool) -> (p: RevealPlan)
    ensures
        p == (RevealPlan {
            delayed_warm: warm_hit && play_on_start,
            hide_grid_now: !(warm_hit && play_on_start),
            start_playback: play_on_start,
        }),
{
    let delayed_warm = warm_hit && play_on_start;
    RevealPlan { delayed_warm, hide_grid_now: !delayed_warm, start_playback: play_on_start }
}

/// Returning to the continue grid.
#[derive(Clone, PartialEq, Eq, Debug)]
pub struct BrowsePlan {
    /// Show the continue strip (history cards, or the Open tile on an empty-history launch).
    pub show_strip: bool,
    /// Keep the title loaded and paused as a warm reopen target and refill the cards.
    pub keep_warm_and_refill: bool,
    /// No strip: stop playback on an idle and bring Close Video in line.
    pub stop_on_idle: bool,
    /// A player exists: save its playback state and write pause now, so audio stops at once.
    pub save_and_pause: bool,
    /// Previous/Next keep working from the warm title on the grid.
    pub last_path: Option<String>,
    /// The undo bar's dismiss timer (always stopped).
    pub undo_timer: DismissTimer,
}

/// Leave playback for the continue grid: the undo bar's timer stops (its steps are dropped when
/// `clear_undo`), the end-of-file guard is re-armed with a fresh tail-stall run, and the plan says what the window does with
/// the player. `warm_path` is the open media path of the player, `history_len` the number of
/// history entries shown.
pub fn back_to_browse<T>(
    undo: &mut UndoBar<T>,
    eof: &mut SiblingEofState,
    clear_undo: bool,
    player_ready: bool,
    warm_path: Option<String>,
    history_len: usize,
    browse_has_strip: bool,
) -> (p: BrowsePlan)
    requires
        old(undo).wf(),
    ensures
        final(undo).wf(),
        !final(undo).timer_running(),
        final(undo).steps() == (if clear_undo {
            Seq::<UndoStep<T>>::empty()
        } else {
            old(undo).steps()
        }),
        *final(eof) == (SiblingEofState { done: false, stall_pos_ms: 0, stall_count: 0, ..*old(eof) }),
        p.show_strip == (history_len > 0 || browse_has_strip),
        p.keep_warm_and_refill == p.show_strip,
        p.stop_on_idle == !p.show_strip,
        p.save_and_pause == player_ready,
        p.last_path == (if player_ready {
            warm_path
        } else {
            None
        }),
        p.undo_timer == DismissTimer::Stopped,
{
    let t = undo.leave_for_browse(clear_undo);
    eof.rearm();
    let show = history_len > 0 || browse_has_strip;
    BrowsePlan {
        show_strip: show,
        keep_warm_and_refill: show,
        stop_on_idle: !show,
        save_and_pause: player_ready,
        last_path: if player_ready {
            warm_path
        } else {
            None
        },
        undo_timer: t,
    }
}

/// What the open dialog's choice leads to.
#[derive(Clone, PartialEq, Eq, Debug)]
pub enum PickedOpen {
    /// Dialog cancelled.
    Nothing,
    /// Not a video file or optical-disc folder: report unreadable media.
    Unreadable,
    /// Open this path with [`picked_load_opts`].
    Load(String),
}

pub fn open_picked_path(path: Option<String>, openable: bool) -> (r: PickedOpen)
    ensures
        r == (match path {
            None => PickedOpen::Nothing,
            Some(p) => if openable {
                PickedOpen::Load(p)
            } else {
                PickedOpen::Unreadable
            },
        }),
{
    match path {
        None => PickedOpen::Nothing,
        Some(p) => if openable {
            PickedOpen::Load(p)
        } else {
            PickedOpen::Unreadable
        },
    }
}

/// Plan of an open in the compact load path (no preflight, no preload flag: a hit is the same
/// file already loaded behind the visible grid).
#[derive(Clone, Copy, PartialEq, Eq, Structural, Debug)]
pub struct CompactLoadPlan {
    /// The file is already loaded behind the grid: no `loadfile`.
    pub warm_hit: bool,
    /// Clear the outgoing file's resume point on `loadfile` (it is done enough).
    pub clear_outgoing_resume: bool,
    /// Drop the outgoing title from the continue list after loading.
    pub drop_prev: bool,
    /// Re-apply the video preferences on the next idles.
    pub reapply_video: bool,
    /// Remember the canonical path as the last opened one and title the window after the file.
    pub set_last_path_and_title: bool,
    /// Add the file to the recent history.
    pub record_history: bool,
    /// Hide the grid and run the start hook now (not for a warm hit that is to play).
    pub hide_grid_now: bool,
    /// Reveal after a short delay (warm hit that is to play).
    pub delayed_warm: bool,
    /// Unpause now and once more after 100 ms (cold open that is to play).
    pub unpause_now: bool,
    /// Run the after-load hook on the next idle.
    pub run_on_loaded: bool,
}

pub open spec fn spec_compact_plan(
    recent_visible: bool,
    prev_same: bool,
    prev_is_other: bool,
    done_enough: bool,
    has_local_file: bool,
    has_video_reapply: bool,
    record: bool,
    play_on_start: bool,
) -> CompactLoadPlan {
    let warm = recent_visible && prev_same;
    CompactLoadPlan {
        warm_hit: warm,
        clear_outgoing_resume: !warm && done_enough && has_local_file,
        drop_prev: !warm && prev_is_other && done_enough,
        reapply_video: !warm && has_video_reapply,
        set_last_path_and_title: true,
        record_history: record,
        hide_grid_now: !(warm && play_on_start),
        delayed_warm: warm && play_on_start,
        unpause_now: !warm && play_on_start,
        run_on_loaded: !warm,
    }
}

/// Decide the compact open. `prev` facts: `prev_same` the outgoing file is this very target,
/// `prev_is_other` it is another one; `done_enough` the outgoing title counts as watched;
/// `has_local_file` the engine plays a local file; `record` the open goes into the history.
/// Fails when the player does not exist yet.
pub fn try_load(
    player_ready: bool,
    recent_visible: bool,
    prev_same: bool,
    prev_is_other: bool,
    done_enough: bool,
    has_local_file: bool,
    has_video_reapply: bool,
    record: bool,
    play_on_start: bool,
) -> (r: Result<CompactLoadPlan, &'static str>)
    ensures
        !player_ready ==> r is Err && r->Err_0@ == "Player not ready. Wait for GL init."@,
        player_ready ==> r == Ok::<CompactLoadPlan, &'static str>(
            spec_compact_plan(
                recent_visible,
                prev_same,
                prev_is_other,
                done_enough,
                has_local_file,
                has_video_reapply,
                record,
                play_on_start,
            ),
        ),
{
    if !player_ready {
        return Err("Player not ready. Wait for GL init.");
    }
    let warm_hit = recent_visible && prev_same;
    Ok(CompactLoadPlan {
        warm_hit,
        clear_outgoing_resume: !warm_hit && done_enough && has_local_file,
        drop_prev: !warm_hit && prev_is_other && done_enough,
        reapply_video: !warm_hit && has_video_reapply,
        set_last_path_and_title: true,
        record_history: record,
        hide_grid_now: !(warm_hit && play_on_start),
        delayed_warm: warm_hit && play_on_start,
        unpause_now: !warm_hit && play_on_start,
        run_on_loaded: !warm_hit,
    })
}

/// The `loadfile` of a cold open returned: on failure its error is the open's result and no
/// step of the plan runs (nothing is recorded, retitled, dropped or revealed); on success the
/// plan runs. A warm hit ran no `loadfile`, so its plan runs whatever is passed.
pub fn commit_compact_load(plan: CompactLoadPlan, loadfile: Result<(), String>) -> (r: Result<
    CompactLoadPlan,
    String,
>)
    ensures
        plan.warm_hit ==> r == Ok::<CompactLoadPlan, String>(plan),
        !plan.warm_hit ==> r == (match loadfile {
            Ok(_) => Ok::<CompactLoadPlan, String>(plan),
            Err(e) => Err::<CompactLoadPlan, String>(e),
        }),
{
    if plan.warm_hit {
        return Ok(plan);
    }
    match loadfile {
        Ok(_) => Ok(plan),
        Err(e) => Err(e),
    }
}

/// Only a finished outgoing title that is another file leaves the continue list, and never on a
/// preload: a half-watched title stays, and so does the file being reopened.
pub proof fn law_only_finished_outgoing_dropped(
    f: LoadFlags,
    outgoing_finished: bool,
    prev_has_next: Option<bool>,
    prev_is_other: bool,
    recent_visible: bool,
)
    ensures
        spec_cold_load(f, outgoing_finished, prev_has_next, prev_is_other, recent_visible).drop_prev
            <==> (outgoing_finished && prev_is_other && !f.warm_preload),
        !outgoing_finished ==> !spec_cold_load(f, outgoing_finished, prev_has_next, prev_is_other, recent_visible).drop_prev,
        spec_cold_load(f, outgoing_finished, prev_has_next, prev_is_other, recent_visible).clear_resume
            <==> (outgoing_finished && prev_has_next == Some(false)),
{
}

} // verus!
