use rhino_player::actions::{
    sync_close_video_action, sync_trash_action, try_copy_playing_path, wire_final_exit_after_toggle,
    wire_final_platform_accels,
};
use rhino_player::keys::Platform;

#[test]
fn linux_accels() {
    let a = wire_final_platform_accels(Platform::Linux);
    assert!(!a.set_menubar);
    let r = a.bindings;
    let names: Vec<&str> = r.iter().map(|b| b.action).collect();
    assert_eq!(
        names,
        vec!["app.open", "app.close-video", "app.move-to-trash", "app.about", "app.quit", "app.toggle-fullscreen"]
    );
    assert_eq!(r[4].accels, vec!["<Primary>q"]);
    assert!(r.iter().all(|b| !b.accels.contains(&"q")));
    assert_eq!(r[5].accels, vec!["F11"]);
}

#[test]
fn macos_accels() {
    let a = wire_final_platform_accels(Platform::MacOs);
    assert!(a.set_menubar);
    let r = a.bindings;
    assert_eq!(r.len(), 5);
    assert_eq!(r[3].accels, vec!["<Meta>q"]);
    assert!(r.iter().all(|b| b.action != "app.about"));
    assert_eq!(r[2].accels, vec!["Delete", "KP_Delete", "<Meta>BackSpace"]);
    assert_eq!(r[4].accels, vec!["<Meta><Control>f"]);
}

#[test]
fn close_video_tooltips() {
    assert_eq!(sync_close_video_action(false, true, true, Platform::Linux), (true, "Quit Rhino Player"));
    assert_eq!(sync_close_video_action(true, false, false, Platform::Linux), (true, "Quit Rhino Player"));
    assert_eq!(sync_close_video_action(true, false, true, Platform::Linux), (true, "Close Video (Ctrl+W)"));
    assert_eq!(sync_close_video_action(true, false, true, Platform::MacOs), (true, "Close Video (Cmd+W)"));
    assert_eq!(sync_close_video_action(false, false, false, Platform::MacOs).0, false);
}

#[test]
fn trash_and_copy() {
    assert!(sync_trash_action(true, false, true));
    assert!(!sync_trash_action(true, true, true));
    assert_eq!(try_copy_playing_path(true, Some("/a.mkv".to_string()), true), Some("/a.mkv".to_string()));
    assert_eq!(try_copy_playing_path(true, Some("/a.mkv".to_string()), false), None);
    assert_eq!(try_copy_playing_path(false, Some("/a.mkv".to_string()), true), None);
}

#[test]
fn exit_after_toggle_takes_bool_only() {
    let mut f = false;
    assert!(wire_final_exit_after_toggle(&mut f, Some(true)));
    assert!(f);
    assert!(!wire_final_exit_after_toggle(&mut f, None));
    assert!(f);
}
