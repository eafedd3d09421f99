//! The compact input wiring of the window: one bubble-phase key controller with the basic
//! shortcuts (Escape, Enter, M, arrows up/down, Space), direct fullscreen / maximize handlers,
//! and bar reveal on every real pointer move.
use vstd::prelude::*;
use crate::chrome::{fs_notify_reset, spec_pointer_forgotten, PointerMemory};
use crate::fullscreen::WindowGeometry;
use crate::keys::{Key, KeyCommand};

verus! {

/// What a `fullscreened` notification does in the compact wiring.
#[derive(Clone, Copy, Debug)]
pub struct CompactFsNotify {
    /// Maximize the window under fullscreen.
    pub maximize: bool,
    /// New state of the bars.
    pub bars_shown: bool,
    /// Floating size to restore on leaving (consumed), with whether to un-maximize first.
    pub restore: Option<(i32, i32)>,
    pub unmaximize: bool,
    /// Release the exit latch on the next idle (after the maximize notification of the leave).
    pub clear_skip_on_idle: bool,
}

/// Geometry after a `fullscreened` notification of the compact wiring.
pub open spec fn spec_compact_fs_geom(g: WindowGeometry, fullscreen: bool, maximized: bool, normal_size: (
    i32,
    i32,
)) -> WindowGeometry {
    if fullscreen {
        WindowGeometry {
            skip_max_to_fs: false,
            fs_restore: if maximized {
                g.fs_restore
            } else {
                Some(normal_size)
            },
            ..g
        }
    } else {
        WindowGeometry { fs_restore: None, ..g }
    }
}

/// Window actions of a `fullscreened` notification of the compact wiring.
pub open spec fn spec_compact_fs_notify(g: WindowGeometry, fullscreen: bool, maximized: bool) -> CompactFsNotify {
    if fullscreen {
        CompactFsNotify {
            maximize: !maximized,
            bars_shown: false,
            restore: None,
            unmaximize: false,
            clear_skip_on_idle: false,
        }
    } else {
        CompactFsNotify {
            maximize: false,
            bars_shown: true,
            restore: g.fs_restore,
            unmaximize: g.fs_restore is Some && maximized,
            clear_skip_on_idle: true,
        }
    }
}

/// `fullscreened` notification: both transitions forget the pointer memory; entering saves the
/// floating size and maximizes a floating window and hides the bars; leaving shows the bars and
/// restores the saved size.
pub fn fullscreened_notify<P>(
    geom: &mut WindowGeometry,
    pointer: &mut PointerMemory<P>,
    fullscreen: bool,
    maximized: bool,
    normal_size: (i32, i32),
) -> (n: CompactFsNotify)
    ensures
        *final(geom) == spec_compact_fs_geom(*old(geom), fullscreen, maximized, normal_size),
        n == spec_compact_fs_notify(*old(geom), fullscreen, maximized),
        spec_pointer_forgotten(*final(pointer)),
{
    fs_notify_reset(pointer);
    if fullscreen {
        geom.skip_max_to_fs = false;
        let maximize = !maximized;
        if maximize {
            geom.fs_restore = Some(normal_size);
        }
        CompactFsNotify {
            maximize,
            bars_shown: false,
            restore: None,
            unmaximize: false,
            clear_skip_on_idle: false,
        }
    } else {
        let restore = geom.fs_restore.take();
        let unmaximize = restore.is_some() && maximized;
        CompactFsNotify {
            maximize: false,
            bars_shown: true,
            restore,
            unmaximize,
            clear_skip_on_idle: true,
        }
    }
}

/// What a `maximized` notification does in the compact wiring.
#[derive(Clone, Copy, PartialEq, Eq, Structural, Debug)]
pub enum CompactMaxAction {
    Nothing,
    RememberedNormal,
    /// Un-maximized while fullscreen: leave fullscreen.
    LeaveFullscreen,
    /// Maximized a floating window: enter fullscreen now.
    EnterFullscreen,
}

/// `maximized` notification: remember the floating size; un-maximizing in fullscreen leaves it;
/// maximizing a floating window enters fullscreen unless an exit latched.
pub fn maximized_notify(geom: &mut WindowGeometry, maximized: bool, fullscreen: bool, normal_size: (
    i32,
    i32,
)) -> (a: CompactMaxAction)
    ensures
        !maximized && !fullscreen ==> a == CompactMaxAction::RememberedNormal
            && final(geom).last_unmax == normal_size && final(geom).fs_restore == old(geom).fs_restore
            && final(geom).skip_max_to_fs == old(geom).skip_max_to_fs,
        !maximized && fullscreen ==> a == CompactMaxAction::LeaveFullscreen && final(geom).skip_max_to_fs
            && final(geom).last_unmax == old(geom).last_unmax && final(geom).fs_restore == old(
            geom,
        ).fs_restore,
        maximized && !fullscreen && !old(geom).skip_max_to_fs ==> a == CompactMaxAction::EnterFullscreen
            && final(geom).fs_restore == (if old(geom).fs_restore is Some {
            old(geom).fs_restore
        } else {
            Some(old(geom).last_unmax)
        }) && final(geom).last_unmax == old(geom).last_unmax && final(geom).skip_max_to_fs
            == old(geom).skip_max_to_fs,
        maximized && (fullscreen || old(geom).skip_max_to_fs) ==> a == CompactMaxAction::Nothing
            && final(geom).fs_restore == old(geom).fs_restore && final(geom).last_unmax == old(
            geom,
        ).last_unmax && final(geom).skip_max_to_fs == old(geom).skip_max_to_fs,
{
    if !maximized && !fullscreen {
        geom.last_unmax = normal_size;
        CompactMaxAction::RememberedNormal
    } else if !maximized && fullscreen {
        geom.skip_max_to_fs = true;
        CompactMaxAction::LeaveFullscreen
    } else if maximized && !fullscreen {
        if geom.skip_max_to_fs {
            return CompactMaxAction::Nothing;
        }
        if geom.fs_restore.is_none() {
            geom.fs_restore = Some(geom.last_unmax);
        }
        CompactMaxAction::EnterFullscreen
    } else {
        CompactMaxAction::Nothing
    }
}

/// The compact key controller: Escape leaves fullscreen (latching the exit so the maximize
/// notifications of the leave do not re-enter), is consumed over the grid or without a player,
/// else returns to the grid; Enter toggles fullscreen; M mutes; Up/Down nudge the volume; Space
/// toggles pause; any other key passes.
pub fn window_key_command(
    key: Key,
    geom: &mut WindowGeometry,
    fullscreen: bool,
    recent_visible: bool,
    player_ready: bool,
) -> (c: KeyCommand)
    ensures
        *final(geom) == (WindowGeometry {
            skip_max_to_fs: old(geom).skip_max_to_fs || c == KeyCommand::ExitFullscreen,
            ..*old(geom)
        }),
        c == (if key == Key::Escape {
            if fullscreen {
                KeyCommand::ExitFullscreen
            } else if recent_visible || !player_ready {
                KeyCommand::Swallow
            } else {
                KeyCommand::BrowseBack
            }
        } else if key == Key::Return || key == Key::KpEnter {
            KeyCommand::ToggleFullscreen
        } else if key == Key::LowerM || key == Key::UpperM {
            KeyCommand::ToggleMute
        } else if key == Key::Up {
            KeyCommand::NudgeVolume(true)
        } else if key == Key::Down {
            KeyCommand::NudgeVolume(false)
        } else if key == Key::Space {
            KeyCommand::PlayPause
        } else {
            KeyCommand::Pass
        }),
{
    if key == Key::Escape {
        if fullscreen {
            geom.skip_max_to_fs = true;
            KeyCommand::ExitFullscreen
        } else if recent_visible || !player_ready {
            KeyCommand::Swallow
        } else {
            KeyCommand::BrowseBack
        }
    } else if key == Key::Return || key == Key::KpEnter {
        KeyCommand::ToggleFullscreen
    } else if key == Key::LowerM || key == Key::UpperM {
        KeyCommand::ToggleMute
    } else if key == Key::Up {
        KeyCommand::NudgeVolume(true)
    } else if key == Key::Down {
        KeyCommand::NudgeVolume(false)
    } else if key == Key::Space {
        KeyCommand::PlayPause
    } else {
        KeyCommand::Pass
    }
}

/// Capture-phase window motion: over the video (grid hidden) a real move shows the bars and
/// re-arms their auto-hide; squelched or repeated samples do nothing.
pub fn window_motion_reveals(recent_visible: bool, squelched: bool, same_as_last: bool) -> (reveal: bool)
    ensures
        reveal == (!recent_visible && !squelched && !same_as_last),
{
    !recent_visible && !squelched && !same_as_last
}

/// In the compact wiring, entering fullscreen from a floating window of size `s` and leaving it
/// again restores `s` and consumes the saved size.
pub proof fn law_compact_round_trip_restores_size(g: WindowGeometry, s: (i32, i32), seen_max: bool)
    ensures
        ({
            let g1 = spec_compact_fs_geom(g, true, false, s);
            let n = spec_compact_fs_notify(g1, false, seen_max);
            let g2 = spec_compact_fs_geom(g1, false, seen_max, s);
            &&& n.restore == Some(s)
            &&& g2.fs_restore is None
        }),
{
}

/// Entering fullscreen on a window that is already maximized keeps the saved floating size; so a
/// floating window of size `g.last_unmax` that is maximized (which saves that size), then enters
/// fullscreen and leaves it again gets its floating size back, un-maximized, and the saved size
/// is consumed.
pub proof fn law_maximized_entry_keeps_floating_size(g: WindowGeometry, s: (i32, i32), t: (i32, i32))
    requires
        g.fs_restore == Some(g.last_unmax),
    ensures
        spec_compact_fs_geom(g, true, true, s).fs_restore == g.fs_restore,
        !spec_compact_fs_notify(g, true, true).maximize,
        ({
            let g1 = spec_compact_fs_geom(g, true, true, s);
            let n = spec_compact_fs_notify(g1, false, true);
            &&& n.restore == Some(g.last_unmax)
            &&& n.unmaximize
            &&& spec_compact_fs_geom(g1, false, true, t).fs_restore is None
        }),
{
}

} // verus!
