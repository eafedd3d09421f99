//! Hardware media keys as macOS delivers them: system-defined events whose `data1` packs a key
//! code (bits 16 to 31) and a key state (bits 8 to 15).
use vstd::prelude::*;

verus! {

pub const NX_KEYTYPE_PLAY: i64 = 16;
pub const NX_KEYTYPE_NEXT: i64 = 17;
pub const NX_KEYTYPE_PREVIOUS: i64 = 18;
pub const NX_KEYTYPE_FAST: i64 = 19;
pub const NX_KEYTYPE_REWIND: i64 = 20;

/// Key state meaning "key down".
pub const MEDIA_KEY_DOWN: i64 = 0x0a;

/// What a media key asks for.
#[derive(Clone, Copy, PartialEq, Eq, Structural, Debug)]
pub enum MediaKeyCommand {
    PlayPause,
    PreviousFile,
    NextFile,
}

pub open spec fn spec_key_code(data1: i64) -> i64 {
    (data1 >> 16u64) & 0xffff
}

pub open spec fn spec_key_state(data1: i64) -> i64 {
    ((data1 & 0xffff) >> 8u64) & 0xff
}

/// The command of a system-defined event of the media-key subtype, `None` for anything else:
/// key up, other subtypes, other keys. Next and fast-forward mean next file; previous and rewind
/// mean previous file.
pub fn dispatch_macos_media_key(system_defined: bool, media_subtype: bool, data1: i64) -> (c:
    Option<MediaKeyCommand>)
    ensures
        c == (if !system_defined || !media_subtype || spec_key_state(data1) != MEDIA_KEY_DOWN {
            None
        } else if spec_key_code(data1) == NX_KEYTYPE_PLAY {
            Some(MediaKeyCommand::PlayPause)
        } else if spec_key_code(data1) == NX_KEYTYPE_PREVIOUS || spec_key_code(data1)
            == NX_KEYTYPE_REWIND {
            Some(MediaKeyCommand::PreviousFile)
        } else if spec_key_code(data1) == NX_KEYTYPE_NEXT || spec_key_code(data1) == NX_KEYTYPE_FAST {
            Some(MediaKeyCommand::NextFile)
        } else {
            None
        }),
{
    if !system_defined || !media_subtype {
        return None;
    }
    let key_code = (data1 >> 16u64) & 0xffff;
    let key_state = ((data1 & 0xffff) >> 8u64) & 0xff;
    if key_state != MEDIA_KEY_DOWN {
        return None;
    }
    if key_code == NX_KEYTYPE_PLAY {
        Some(MediaKeyCommand::PlayPause)
    } else if key_code == NX_KEYTYPE_PREVIOUS || key_code == NX_KEYTYPE_REWIND {
        Some(MediaKeyCommand::PreviousFile)
    } else if key_code == NX_KEYTYPE_NEXT || key_code == NX_KEYTYPE_FAST {
        Some(MediaKeyCommand::NextFile)
    } else {
        None
    }
}

/// The key code and state read from `data1` are its bytes: code = bits 16 to 31, state = bits 8
/// to 15, for non-negative words.
pub proof fn law_media_key_fields(data1: i64)
    requires
        data1 >= 0,
    ensures
        spec_key_code(data1) == (data1 / 65536) % 65536,
        spec_key_state(data1) == (data1 / 256) % 256,
{
    assert(((data1 >> 16u64) & 0xffff) == (data1 / 65536) % 65536) by (bit_vector)
        requires
            data1 >= 0,
    ;
    assert((((data1 & 0xffff) >> 8u64) & 0xff) == (data1 / 256) % 256) by (bit_vector)
        requires
            data1 >= 0,
    ;
}

/// Commands of the system remote-command center (Now Playing, headset buttons).
#[derive(Clone, Copy, PartialEq, Eq, Structural, Debug)]
pub enum RemoteCommand {
    TogglePlayPause,
    Play,
    Pause,
    Stop,
    NextTrack,
    PreviousTrack,
}

/// What a remote command does to playback.
#[derive(Clone, Copy, PartialEq, Eq, Structural, Debug)]
pub enum RemoteAction {
    TogglePlayPause,
    /// Request this pause state.
    SetPause(bool),
    NextFile,
    PreviousFile,
}

/// Handlers of the remote commands: Stop holds the position paused; tracks are files in folder
/// order.
pub fn remote_command_action(c: RemoteCommand) -> (a: RemoteAction)
    ensures
        a == (match c {
            RemoteCommand::TogglePlayPause => RemoteAction::TogglePlayPause,
            RemoteCommand::Play => RemoteAction::SetPause(false),
            RemoteCommand::Pause => RemoteAction::SetPause(true),
            RemoteCommand::Stop => RemoteAction::SetPause(true),
            RemoteCommand::NextTrack => RemoteAction::NextFile,
            RemoteCommand::PreviousTrack => RemoteAction::PreviousFile,
        }),
{
    match c {
        RemoteCommand::TogglePlayPause => RemoteAction::TogglePlayPause,
        RemoteCommand::Play => RemoteAction::SetPause(false),
        RemoteCommand::Pause => RemoteAction::SetPause(true),
        RemoteCommand::Stop => RemoteAction::SetPause(true),
        RemoteCommand::NextTrack => RemoteAction::NextFile,
        RemoteCommand::PreviousTrack => RemoteAction::PreviousFile,
    }
}

} // verus!
