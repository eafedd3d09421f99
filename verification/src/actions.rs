//! Application actions: keyboard accelerators and the enabled state of Close Video / Move to Trash.
use vstd::prelude::*;
use crate::keys::Platform;

verus! {

/// Accelerators of one application action.
pub struct AccelBinding {
    pub action: &'static str,
    pub accels: Vec<&'static str>,
}

pub open spec fn binding_view(b: AccelBinding) -> (Seq<char>, Seq<Seq<char>>) {
    (b.action@, b.accels@.map_values(|a: &'static str| a@))
}

/// The accelerator table of a platform. Plain `q` is no accelerator: it quits only through the
/// key controller, behind the text-focus guard, so typing a `q` never quits.
pub open spec fn spec_platform_accels(platform: Platform) -> Seq<(Seq<char>, Seq<Seq<char>>)> {
    match platform {
        Platform::MacOs => seq![
            ("app.open"@, seq!["<Meta>o"@]),
            ("app.close-video"@, seq!["<Meta>w"@]),
            ("app.move-to-trash"@, seq!["Delete"@, "KP_Delete"@, "<Meta>BackSpace"@]),
            ("app.quit"@, seq!["<Meta>q"@]),
            ("app.toggle-fullscreen"@, seq!["<Meta><Control>f"@]),
        ],
        Platform::Linux => seq![
            ("app.open"@, seq!["<Primary>o"@]),
            ("app.close-video"@, seq!["<Primary>w"@]),
            ("app.move-to-trash"@, seq!["Delete"@, "KP_Delete"@]),
            ("app.about"@, seq!["F1"@]),
            ("app.quit"@, seq!["<Primary>q"@]),
            ("app.toggle-fullscreen"@, seq!["F11"@]),
        ],
    }
}

fn binding(action: &'static str, accels: Vec<&'static str>) -> (b: AccelBinding)
    ensures
        b.action == action,
        b.accels == accels,
{
    AccelBinding { action, accels }
}

/// What the application installs for a platform: on macOS the main menu as the menu bar, and
/// the accelerators.
pub struct PlatformAccels {
    pub set_menubar: bool,
    pub bindings: Vec<AccelBinding>,
}

/// The menu bar and accelerators to install for `platform`.
pub fn wire_final_platform_accels(platform: Platform) -> (a: PlatformAccels)
    ensures
        a.set_menubar == (platform == Platform::MacOs),
        a.bindings@.map_values(|b: AccelBinding| binding_view(b)) == spec_platform_accels(platform),
{
    PlatformAccels { set_menubar: platform == Platform::MacOs, bindings: platform_accels(platform) }
}

fn platform_accels(platform: Platform) -> (r: Vec<AccelBinding>)
    ensures
        r@.map_values(|b: AccelBinding| binding_view(b)) == spec_platform_accels(platform),
{
    let mut r: Vec<AccelBinding> = Vec::new();
    match platform {
        Platform::MacOs => {
            r.push(binding("app.open", vec!["<Meta>o"]));
            r.push(binding("app.close-video", vec!["<Meta>w"]));
            r.push(binding("app.move-to-trash", vec!["Delete", "KP_Delete", "<Meta>BackSpace"]));
            r.push(binding("app.quit", vec!["<Meta>q"]));
            r.push(binding("app.toggle-fullscreen", vec!["<Meta><Control>f"]));
        },
        Platform::Linux => {
            r.push(binding("app.open", vec!["<Primary>o"]));
            r.push(binding("app.close-video", vec!["<Primary>w"]));
            r.push(binding("app.move-to-trash", vec!["Delete", "KP_Delete"]));
            r.push(binding("app.about", vec!["F1"]));
            r.push(binding("app.quit", vec!["<Primary>q"]));
            r.push(binding("app.toggle-fullscreen", vec!["F11"]));
        },
    }
    assert(r@.map_values(|b: AccelBinding| binding_view(b)) =~~= spec_platform_accels(platform));
    r
}

/// Close Video state: enabled with a player or over the grid; its tooltip says Quit over the
/// grid or with no local media, else names the platform's close shortcut.
pub fn sync_close_video_action(
    has_player: bool,
    grid_visible: bool,
    has_loaded_local_media: bool,
    platform: Platform,
) -> (r: (bool, &'static str))
    ensures
        r.0 == (has_player || grid_visible),
        r.1@ == (if grid_visible || !has_loaded_local_media {
            "Quit Rhino Player"@
        } else {
            match platform {
                Platform::MacOs => "Close Video (Cmd+W)"@,
                Platform::Linux => "Close Video (Ctrl+W)"@,
            }
        }),
{
    let tip = if grid_visible || !has_loaded_local_media {
        "Quit Rhino Player"
    } else {
        match platform {
            Platform::MacOs => "Close Video (Cmd+W)",
            Platform::Linux => "Close Video (Ctrl+W)",
        }
    };
    (has_player || grid_visible, tip)
}

/// Move to Trash is enabled for a local regular file in playback (not over the grid, not for
/// streams).
pub fn sync_trash_action(player_ready: bool, recent_visible: bool, local_is_file: bool) -> (b: bool)
    ensures
        b == (player_ready && !recent_visible && local_is_file),
{
    player_ready && !recent_visible && local_is_file
}

/// "Exit after current video" toggled: a boolean state is taken over, anything else ignored.
pub fn wire_final_exit_after_toggle(flag: &mut bool, requested: Option<bool>) -> (changed: bool)
    ensures
        changed == requested is Some,
        *final(flag) == (match requested {
            Some(on) => on,
            None => *old(flag),
        }),
{
    match requested {
        Some(on) => {
            *flag = on;
            true
        },
        None => false,
    }
}

/// The file the copy shortcut puts on the clipboard: the open media path, when a player has one
/// and it exists on disk.
pub fn try_copy_playing_path(player_ready: bool, media_path: Option<String>, exists: bool) -> (p:
    Option<String>)
    ensures
        p == (if player_ready && media_path is Some && exists {
            media_path
        } else {
            None
        }),
{
    if !player_ready {
        return None;
    }
    match media_path {
        None => None,
        Some(m) => if exists {
            Some(m)
        } else {
            None
        },
    }
}

} // verus!
