use rhino_player::media_keys::{
    dispatch_macos_media_key, remote_command_action, MediaKeyCommand, RemoteAction, RemoteCommand,
    NX_KEYTYPE_FAST, NX_KEYTYPE_NEXT, NX_KEYTYPE_PLAY, NX_KEYTYPE_PREVIOUS, NX_KEYTYPE_REWIND,
};

fn word(code: i64, state: i64) -> i64 {
    (code << 16) | (state << 8)
}

#[test]
fn media_key_down_commands() {
    assert_eq!(dispatch_macos_media_key(true, true, word(NX_KEYTYPE_PLAY, 0x0a)), Some(MediaKeyCommand::PlayPause));
    assert_eq!(dispatch_macos_media_key(true, true, word(NX_KEYTYPE_NEXT, 0x0a)), Some(MediaKeyCommand::NextFile));
    assert_eq!(dispatch_macos_media_key(true, true, word(NX_KEYTYPE_FAST, 0x0a)), Some(MediaKeyCommand::NextFile));
    assert_eq!(
        dispatch_macos_media_key(true, true, word(NX_KEYTYPE_PREVIOUS, 0x0a)),
        Some(MediaKeyCommand::PreviousFile)
    );
    assert_eq!(
        dispatch_macos_media_key(true, true, word(NX_KEYTYPE_REWIND, 0x0a)),
        Some(MediaKeyCommand::PreviousFile)
    );
}

#[test]
fn media_key_other_events_ignored() {
    assert_eq!(dispatch_macos_media_key(true, true, word(NX_KEYTYPE_PLAY, 0x0b)), None);
    assert_eq!(dispatch_macos_media_key(false, true, word(NX_KEYTYPE_PLAY, 0x0a)), None);
    assert_eq!(dispatch_macos_media_key(true, false, word(NX_KEYTYPE_PLAY, 0x0a)), None);
    assert_eq!(dispatch_macos_media_key(true, true, word(3, 0x0a)), None);
}

#[test]
fn remote_commands() {
    assert_eq!(remote_command_action(RemoteCommand::TogglePlayPause), RemoteAction::TogglePlayPause);
    assert_eq!(remote_command_action(RemoteCommand::Play), RemoteAction::SetPause(false));
    assert_eq!(remote_command_action(RemoteCommand::Pause), RemoteAction::SetPause(true));
    assert_eq!(remote_command_action(RemoteCommand::Stop), RemoteAction::SetPause(true));
    assert_eq!(remote_command_action(RemoteCommand::NextTrack), RemoteAction::NextFile);
    assert_eq!(remote_command_action(RemoteCommand::PreviousTrack), RemoteAction::PreviousFile);
}
