use rhino_player::keys::{
    command_propagation, copy_path_modifier_held, digit_speed_multiplier, digit_speed_unpause_first, digit_speed_value,
    key_command, quit_key, Key, KeyCommand, KeyContext, Modifiers, Platform, Propagation,
};

fn none() -> Modifiers {
    Modifiers { shift: false, control: false, alt: false, meta: false, super_key: false, other: false }
}

fn ctrl() -> Modifiers {
    Modifiers { control: true, ..none() }
}

fn playing() -> KeyContext {
    KeyContext {
        focus_wants_raw_keys: false,
        fullscreen: false,
        recent_visible: false,
        player_ready: true,
        seek_sensitive: true,
        platform: Platform::Linux,
    }
}

#[test]
fn escape_routes() {
    let c = playing();
    assert_eq!(key_command(Key::Escape, none(), c), KeyCommand::BrowseBack);
    assert_eq!(key_command(Key::Escape, none(), KeyContext { fullscreen: true, ..c }), KeyCommand::ExitFullscreen);
    assert_eq!(key_command(Key::Escape, none(), KeyContext { recent_visible: true, ..c }), KeyCommand::Swallow);
    assert_eq!(key_command(Key::Escape, none(), KeyContext { player_ready: false, ..c }), KeyCommand::Swallow);
    assert_eq!(
        key_command(Key::Escape, none(), KeyContext { focus_wants_raw_keys: true, fullscreen: true, ..c }),
        KeyCommand::Pass
    );
}

#[test]
fn typing_q_in_search_does_not_quit() {
    let c = KeyContext { focus_wants_raw_keys: true, ..playing() };
    assert_eq!(key_command(Key::LowerQ, none(), c), KeyCommand::Pass);
    assert_eq!(key_command(Key::Space, none(), c), KeyCommand::Pass);
    assert_eq!(key_command(Key::Digit(2), none(), c), KeyCommand::Pass);
    // media keys still work
    assert_eq!(key_command(Key::AudioNext, none(), c), KeyCommand::NextFile);
}

#[test]
fn plain_q_quits() {
    assert!(quit_key(Key::LowerQ, none()));
    assert!(!quit_key(Key::LowerQ, ctrl()));
    assert!(!quit_key(Key::LowerQ, Modifiers { shift: true, ..none() }));
    assert_eq!(key_command(Key::LowerQ, none(), playing()), KeyCommand::Quit);
    assert_eq!(key_command(Key::LowerQ, ctrl(), playing()), KeyCommand::Pass);
}

#[test]
fn copy_modifier_per_platform() {
    assert!(copy_path_modifier_held(ctrl(), Platform::Linux));
    assert!(!copy_path_modifier_held(ctrl(), Platform::MacOs));
    assert!(copy_path_modifier_held(Modifiers { meta: true, ..none() }, Platform::MacOs));
    assert_eq!(key_command(Key::UpperC, ctrl(), playing()), KeyCommand::CopyPlayingPath);
    assert_eq!(key_command(Key::LowerC, none(), playing()), KeyCommand::Pass);
}

#[test]
fn fullscreen_mute_volume_keys() {
    let c = playing();
    for k in [Key::Return, Key::KpEnter, Key::LowerF, Key::UpperF] {
        assert_eq!(key_command(k, none(), c), KeyCommand::ToggleFullscreen);
    }
    assert_eq!(key_command(Key::UpperM, none(), c), KeyCommand::ToggleMute);
    assert_eq!(key_command(Key::Up, none(), c), KeyCommand::NudgeVolume(true));
    assert_eq!(key_command(Key::Down, ctrl(), c), KeyCommand::NudgeVolume(false));
}

#[test]
fn digit_speeds() {
    assert_eq!(digit_speed_multiplier(Key::Digit(0)), None);
    assert_eq!(digit_speed_multiplier(Key::Digit(9)), None);
    assert_eq!(digit_speed_multiplier(Key::KpDigit(4)), Some(4));
    assert_eq!(digit_speed_value(3), 15);
    assert_eq!(digit_speed_value(2), 20);
    assert_eq!(digit_speed_value(8), 80);
    assert_eq!(digit_speed_value(9), 90);
    assert_eq!(digit_speed_unpause_first(true, Some(true)), Some(true));
    assert_eq!(digit_speed_unpause_first(true, Some(false)), Some(false));
    assert_eq!(digit_speed_unpause_first(true, None), Some(false));
    assert_eq!(digit_speed_unpause_first(false, Some(true)), None);
    assert_eq!(key_command(Key::Digit(3), none(), playing()), KeyCommand::SetSpeed(15));
    assert_eq!(key_command(Key::Digit(1), Modifiers { shift: true, ..none() }, playing()), KeyCommand::SetSpeed(10));
    assert_eq!(key_command(Key::Digit(1), ctrl(), playing()), KeyCommand::Pass);
    assert_eq!(key_command(Key::KpDigit(5), Modifiers { alt: true, ..none() }, playing()), KeyCommand::Pass);
}

#[test]
fn arrows_seek_or_navigate() {
    let c = playing();
    assert_eq!(key_command(Key::Left, none(), c), KeyCommand::SeekBy(-5));
    assert_eq!(key_command(Key::KpRight, none(), c), KeyCommand::SeekBy(5));
    assert_eq!(key_command(Key::Left, ctrl(), c), KeyCommand::PreviousFile);
    assert_eq!(key_command(Key::KpRight, ctrl(), c), KeyCommand::NextFile);
    assert_eq!(key_command(Key::Right, none(), KeyContext { recent_visible: true, ..c }), KeyCommand::Pass);
    assert_eq!(key_command(Key::Right, none(), KeyContext { seek_sensitive: false, ..c }), KeyCommand::Pass);
}

#[test]
fn media_keys_by_platform() {
    let c = playing();
    assert_eq!(key_command(Key::AudioPlay, none(), c), KeyCommand::MediaPlayPause);
    assert_eq!(key_command(Key::AudioPause, none(), c), KeyCommand::MediaPlayPause);
    assert_eq!(key_command(Key::AudioStop, none(), c), KeyCommand::MediaStop);
    assert_eq!(key_command(Key::AudioPrev, none(), c), KeyCommand::PreviousFile);
    let mac = KeyContext { platform: Platform::MacOs, ..c };
    assert_eq!(key_command(Key::AudioPlay, none(), mac), KeyCommand::Pass);
}

#[test]
fn space_and_other() {
    assert_eq!(key_command(Key::Space, none(), playing()), KeyCommand::PlayPause);
    assert_eq!(key_command(Key::Other, none(), playing()), KeyCommand::Pass);
}

#[test]
fn propagation_after_effect() {
    assert_eq!(command_propagation(KeyCommand::Pass, true), Propagation::Proceed);
    assert_eq!(command_propagation(KeyCommand::PlayPause, false), Propagation::Proceed);
    assert_eq!(command_propagation(KeyCommand::PlayPause, true), Propagation::Stop);
    assert_eq!(command_propagation(KeyCommand::MediaPlayPause, false), Propagation::Stop);
    assert_eq!(command_propagation(KeyCommand::ToggleMute, false), Propagation::Proceed);
    assert_eq!(command_propagation(KeyCommand::Swallow, false), Propagation::Stop);
    assert_eq!(command_propagation(KeyCommand::SeekBy(5), false), Propagation::Stop);
    assert_eq!(command_propagation(KeyCommand::CopyPlayingPath, false), Propagation::Proceed);
}
