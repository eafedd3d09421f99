//! Window chrome: the shell layout, revealing the bars on pointer motion, and the theater-mode
//! cursor over the video.
use vstd::prelude::*;
use crate::keys::Platform;

verus! {

/// True while a pointer sample falls inside a squelch window that ends at `deadline_ms`
/// (monotonic milliseconds).
pub fn motion_squelched(deadline_ms: Option<u64>, now_ms: u64) -> (b: bool)
    ensures
        b == (match deadline_ms {
            Some(t) => now_ms < t,
            None => false,
        }),
{
    match deadline_ms {
        Some(t) => now_ms < t,
        None => false,
    }
}

/// Pointer memory used to drop repeated motion samples: the end of the squelch window
/// (monotonic ms) and the last samples over the window and over the video (`P`: a position).
pub struct PointerMemory<P> {
    pub squelch_until_ms: Option<u64>,
    pub last_cap: Option<P>,
    pub last_gl: Option<P>,
}

pub open spec fn spec_pointer_forgotten<P>(m: PointerMemory<P>) -> bool {
    m.squelch_until_ms is None && m.last_cap is None && m.last_gl is None
}

/// Every fullscreen transition forgets the squelch window and the last pointer samples, so the
/// first real move afterwards counts.
pub fn fs_notify_reset<P>(m: &mut PointerMemory<P>)
    ensures
        spec_pointer_forgotten(*final(m)),
{
    m.squelch_until_ms = None;
    m.last_cap = None;
    m.last_gl = None;
}

/// A pointer sample is ignored when squelched or at the same position as the last one seen.
pub fn motion_sample_stale(squelched: bool, same_as_last: bool) -> (b: bool)
    ensures
        b == (squelched || same_as_last),
{
    squelched || same_as_last
}

/// Reveal the bars once per hide cycle: returns whether chrome must be re-applied.
pub fn reveal_bars_once(bars_shown: &mut bool) -> (apply: bool)
    ensures
        apply == !*old(bars_shown),
        *final(bars_shown),
{
    if *bars_shown {
        return false;
    }
    *bars_shown = true;
    true
}

/// A window motion sample reveals chrome (pointer, bars, auto-hide timer) unless the grid is up
/// or the sample is stale.
pub fn on_window_motion(recent_visible: bool, stale: bool) -> (reveal: bool)
    ensures
        reveal == (!recent_visible && !stale),
{
    !recent_visible && !stale
}

/// Pointer state over the video surface.
#[derive(Clone, Copy, PartialEq, Eq, Structural, Debug)]
pub struct GlPointer {
    /// The pointer is over the video.
    pub inside: bool,
    /// A cursor-hide timer is pending.
    pub hide_timer: bool,
}

/// Motion over the video: the pointer is inside; on real movement show it and re-arm the hide
/// timer. Returns whether the pointer was shown.
pub fn on_gl_motion(p: &mut GlPointer, stale: bool) -> (show: bool)
    ensures
        final(p).inside,
        show == !stale,
        final(p).hide_timer == (old(p).hide_timer || !stale),
{
    p.inside = true;
    if stale {
        return false;
    }
    p.hide_timer = true;
    true
}

/// Entering the video: like motion, but only the squelch window suppresses it.
pub fn on_gl_enter(p: &mut GlPointer, squelched: bool) -> (show: bool)
    ensures
        final(p).inside,
        show == !squelched,
        final(p).hide_timer == (old(p).hide_timer || !squelched),
{
    p.inside = true;
    if squelched {
        return false;
    }
    p.hide_timer = true;
    true
}

/// Pointer state after leaving the video.
pub open spec fn spec_gl_leave(p: GlPointer) -> GlPointer {
    GlPointer { inside: false, hide_timer: false }
}

/// Whether a firing hide timer hides the cursor.
pub open spec fn spec_hide_fires(p: GlPointer) -> bool {
    p.inside
}

/// Leaving the video: pointer outside, timer dropped, pointer shown.
pub fn on_gl_leave(p: &mut GlPointer)
    ensures
        *final(p) == spec_gl_leave(*old(p)),
{
    p.inside = false;
    p.hide_timer = false;
}

/// The hide timer fired: hide the cursor only if the pointer is still over the video.
pub fn cursor_hide_fires(p: &mut GlPointer) -> (hide: bool)
    ensures
        hide == spec_hide_fires(*old(p)),
        !final(p).hide_timer,
        final(p).inside == old(p).inside,
{
    p.hide_timer = false;
    p.inside
}

/// The cursor is never hidden while the pointer is outside the video: after leaving, a timer that
/// still fires hides nothing.
pub proof fn law_no_hide_after_leave(p: GlPointer)
    ensures
        !spec_hide_fires(spec_gl_leave(p)),
        !spec_gl_leave(p).hide_timer,
{
}

/// Theater mode is ready when the video is mapped and visible, the grid is hidden and the media
/// wants the cursor hidden.
pub fn theater_ready(gl_mapped: bool, gl_visible: bool, recent_visible: bool, media_hides_cursor: bool) -> (b:
    bool)
    ensures
        b == (gl_mapped && gl_visible && !recent_visible && media_hides_cursor),
{
    gl_mapped && gl_visible && !recent_visible && media_hides_cursor
}

/// What the inactive-window cursor watcher does on a global mouse move.
#[derive(Clone, Copy, PartialEq, Eq, Structural, Debug)]
pub enum UnfocusedTick {
    /// The window is active: GTK handles the pointer.
    Nothing,
    /// Restore the pointer and forget its position.
    Leave,
    /// Pointer over live theater video: show it and re-arm the hide timer (unless stale).
    Advance,
}

/// One global mouse-move tick while the window is inactive.
pub fn unfocused_tick(active: bool, ready: bool, pointer_known: bool, over_video: bool) -> (t:
    UnfocusedTick)
    ensures
        t == (if active {
            UnfocusedTick::Nothing
        } else if !ready || !pointer_known || !over_video {
            UnfocusedTick::Leave
        } else {
            UnfocusedTick::Advance
        }),
{
    if active {
        UnfocusedTick::Nothing
    } else if !ready || !pointer_known || !over_video {
        UnfocusedTick::Leave
    } else {
        UnfocusedTick::Advance
    }
}

/// Hide the cursor right away (window became inactive, video mapped, occlusion change) only when
/// theater mode is ready and the pointer is over the video; otherwise restore it.
pub fn hide_now_if_over_video(ready: bool, over_video: bool) -> (hide: bool)
    ensures
        hide == (ready && over_video),
{
    ready && over_video
}

/// One step of the window shell layout.
#[derive(Clone, Copy, PartialEq, Eq, Structural, Debug)]
pub enum ShellStep {
    /// Header bar as the toolbar's top bar.
    AddTopBar,
    /// Video handle as the toolbar's content.
    SetVideoContent,
    /// Bottom bar (macOS: its shell wrapper) as the toolbar's bottom bar.
    AddBottomBar { macos_shell: bool },
    /// Toolbar into the outer overlay.
    SetOverlayChild,
    /// Outer overlay as the window content.
    SetWindowContent,
}

pub open spec fn spec_shell_steps(platform: Platform) -> Seq<ShellStep> {
    seq![
        ShellStep::AddTopBar,
        ShellStep::SetVideoContent,
        ShellStep::AddBottomBar { macos_shell: platform == Platform::MacOs },
        ShellStep::SetOverlayChild,
        ShellStep::SetWindowContent,
    ]
}

/// Packing order of toolbar and video stack into the window.
pub fn attach_window_shell(platform: Platform) -> (steps: Vec<ShellStep>)
    ensures
        steps@ == spec_shell_steps(platform),
{
    let v = vec![
        ShellStep::AddTopBar,
        ShellStep::SetVideoContent,
        ShellStep::AddBottomBar { macos_shell: platform == Platform::MacOs },
        ShellStep::SetOverlayChild,
        ShellStep::SetWindowContent,
    ];
    assert(v@ =~= spec_shell_steps(platform));
    v
}

/// Packing runs once: a window that has content already is left alone.
pub fn w_in_set_shell(window_has_content: bool, platform: Platform) -> (steps: Vec<ShellStep>)
    ensures
        steps@ == (if window_has_content {
            Seq::<ShellStep>::empty()
        } else {
            spec_shell_steps(platform)
        }),
{
    if window_has_content {
        return Vec::new();
    }
    attach_window_shell(platform)
}

/// Subtitles sit above the bottom bar while it shows; over the grid it counts as shown.
pub fn sub_pos_bar_shown(recent_visible: bool, bars_shown: bool) -> (show: bool)
    ensures
        show == (recent_visible || bars_shown),
{
    recent_visible || bars_shown
}

/// Window focus came back: on macOS drop the cached layer snapshot; in fullscreen also re-apply
/// chrome and repaint now and once more on the next idle. Returns (invalidate layers, repaint).
pub fn wire_focus_return_repaint(active: bool, fullscreen: bool, platform: Platform) -> (r: (bool, bool))
    ensures
        r == (active && platform == Platform::MacOs, active && fullscreen),
{
    (active && platform == Platform::MacOs, active && fullscreen)
}

/// Frame render: when quit asked for teardown after the next draw, consume that request and tear
/// down instead of drawing.
pub fn take_teardown_after_draw(teardown_after_draw: &mut bool) -> (teardown: bool)
    ensures
        teardown == *old(teardown_after_draw),
        !*final(teardown_after_draw),
{
    let t = *teardown_after_draw;
    *teardown_after_draw = false;
    t
}

/// Quit persistence step: map the window once if hidden and realize the video area if needed so
/// the final paint can run; then request teardown after that draw. Returns (present window,
/// realize video area).
pub fn run_quit_persist_step(win_visible: bool, gl_realized: bool, teardown_after_draw: &mut bool) -> (r: (
    bool,
    bool,
))
    ensures
        r == (!win_visible, !gl_realized),
        *final(teardown_after_draw),
{
    *teardown_after_draw = true;
    (!win_visible, !gl_realized)
}

} // verus!
