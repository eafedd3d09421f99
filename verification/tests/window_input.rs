use rhino_player::chrome::PointerMemory;
use rhino_player::fullscreen::WindowGeometry;
use rhino_player::keys::{Key, KeyCommand};
use rhino_player::window_input::{
    fullscreened_notify, maximized_notify, window_key_command, window_motion_reveals,
    CompactMaxAction,
};

#[test]
fn compact_fullscreen_round_trip() {
    let mut g = WindowGeometry { fs_restore: None, last_unmax: (640, 480), skip_max_to_fs: false };
    let mut m = PointerMemory { squelch_until_ms: Some(9), last_cap: Some((1.5f64, 2.0f64)), last_gl: Some((3.0, 4.0)) };
    let n = fullscreened_notify(&mut g, &mut m, true, false, (1024, 768));
    assert!(m.squelch_until_ms.is_none() && m.last_cap.is_none() && m.last_gl.is_none());
    m.last_cap = Some((5.0, 6.0));
    assert!(n.maximize && !n.bars_shown);
    assert_eq!(g.fs_restore, Some((1024, 768)));
    let n = fullscreened_notify(&mut g, &mut m, false, true, (1920, 1080));
    assert!(m.last_cap.is_none());
    assert!(n.bars_shown && n.unmaximize && n.clear_skip_on_idle);
    assert_eq!(n.restore, Some((1024, 768)));
    assert_eq!(g.fs_restore, None);
}

#[test]
fn compact_maximize_routes() {
    let mut g = WindowGeometry { fs_restore: None, last_unmax: (640, 480), skip_max_to_fs: false };
    assert_eq!(maximized_notify(&mut g, false, false, (700, 500)), CompactMaxAction::RememberedNormal);
    assert_eq!(g.last_unmax, (700, 500));
    assert_eq!(maximized_notify(&mut g, true, false, (1920, 1080)), CompactMaxAction::EnterFullscreen);
    assert_eq!(g.fs_restore, Some((700, 500)));
    assert_eq!(maximized_notify(&mut g, false, true, (1920, 1080)), CompactMaxAction::LeaveFullscreen);
    assert!(g.skip_max_to_fs);
    assert_eq!(maximized_notify(&mut g, true, false, (1920, 1080)), CompactMaxAction::Nothing);
}

#[test]
fn compact_keys() {
    let mut g = WindowGeometry { fs_restore: None, last_unmax: (640, 480), skip_max_to_fs: false };
    assert_eq!(window_key_command(Key::Escape, &mut g, false, false, true), KeyCommand::BrowseBack);
    assert!(!g.skip_max_to_fs);
    assert_eq!(window_key_command(Key::Escape, &mut g, true, false, true), KeyCommand::ExitFullscreen);
    assert!(g.skip_max_to_fs);
    assert_eq!(window_key_command(Key::Escape, &mut g, false, true, true), KeyCommand::Swallow);
    assert_eq!(window_key_command(Key::Escape, &mut g, false, false, true), KeyCommand::BrowseBack);
    assert_eq!(window_key_command(Key::Return, &mut g, false, false, true), KeyCommand::ToggleFullscreen);
    assert_eq!(window_key_command(Key::UpperM, &mut g, false, false, true), KeyCommand::ToggleMute);
    assert_eq!(window_key_command(Key::Up, &mut g, false, false, true), KeyCommand::NudgeVolume(true));
    assert_eq!(window_key_command(Key::Down, &mut g, false, false, true), KeyCommand::NudgeVolume(false));
    assert_eq!(window_key_command(Key::Space, &mut g, false, false, true), KeyCommand::PlayPause);
    assert_eq!(window_key_command(Key::LowerQ, &mut g, false, false, true), KeyCommand::Pass);
    assert!(window_motion_reveals(false, false, false));
    assert!(!window_motion_reveals(false, true, false));
}
