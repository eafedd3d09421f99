//! Keyboard shortcuts of the player window.
//!
//! One capture-phase key handler routes every key press through a fixed precedence of key
//! families. [`key_command`] decides which command a press asks for; the window performs it and
//! [`command_propagation`] tells, from whether the command took effect, if the press is consumed.
use vstd::prelude::*;

verus! {

/// The keys the player reacts to; everything else is [`Key::Other`].
#[derive(Clone, Copy, PartialEq, Eq, Structural, Debug)]
pub enum Key {
    Escape,
    Return,
    KpEnter,
    /// `f`
    LowerF,
    /// `F`
    UpperF,
    /// `m`
    LowerM,
    /// `M`
    UpperM,
    /// `q`
    LowerQ,
    /// `c`
    LowerC,
    /// `C`
    UpperC,
    Space,
    Up,
    Down,
    Left,
    KpLeft,
    Right,
    KpRight,
    /// A digit on the main row, `0` to `9`.
    Digit(u8),
    /// A digit on the keypad, `0` to `9`.
    KpDigit(u8),
    AudioPlay,
    AudioPause,
    AudioStop,
    AudioPrev,
    AudioNext,
    Other,
}

/// Modifier state of a key press.
#[derive(Clone, Copy, PartialEq, Eq, Structural, Debug)]
pub struct Modifiers {
    pub shift: bool,
    pub control: bool,
    pub alt: bool,
    pub meta: bool,
    pub super_key: bool,
    /// Any other modifier bit (lock, hyper, held pointer buttons).
    pub other: bool,
}

/// Desktop platform: macOS routes hardware media keys elsewhere and copies with Cmd.
#[derive(Clone, Copy, PartialEq, Eq, Structural, Debug)]
pub enum Platform {
    MacOs,
    Linux,
}

/// Window state a key press is judged against.
#[derive(Clone, Copy, PartialEq, Eq, Structural, Debug)]
pub struct KeyContext {
    /// Focus sits in a widget that edits text (or one of its ancestors does).
    pub focus_wants_raw_keys: bool,
    pub fullscreen: bool,
    /// The continue grid (browse overlay) covers the video.
    pub recent_visible: bool,
    /// A player engine exists.
    pub player_ready: bool,
    /// The seek bar accepts input.
    pub seek_sensitive: bool,
    pub platform: Platform,
}

/// What a key press asks the window to do.
#[derive(Clone, Copy, PartialEq, Eq, Structural, Debug)]
pub enum KeyCommand {
    /// Not a shortcut here: let GTK handle the key.
    Pass,
    /// Consume the key without doing anything.
    Swallow,
    /// Leave fullscreen (when no other fullscreen transition is running).
    ExitFullscreen,
    /// Leave playback for the continue grid, clearing the undo stack.
    BrowseBack,
    /// Hardware play/pause key: toggle playback.
    MediaPlayPause,
    /// Hardware stop key: pause and hold position.
    MediaStop,
    /// Load the previous file in folder order.
    PreviousFile,
    /// Load the next file in folder order.
    NextFile,
    Quit,
    /// Put the playing file on the clipboard as a file.
    CopyPlayingPath,
    ToggleFullscreen,
    ToggleMute,
    /// Set the playback speed, in tenths (`15` is 1.5×).
    SetSpeed(u16),
    /// Change the volume by five points, up or down.
    NudgeVolume(bool),
    /// Step the playback position by this many seconds.
    SeekBy(i8),
    /// Space: toggle playback.
    PlayPause,
}

/// Whether GTK should keep handling a key press.
#[derive(Clone, Copy, PartialEq, Eq, Structural, Debug)]
pub enum Propagation {
    Proceed,
    Stop,
}

pub open spec fn mods_empty(m: Modifiers) -> bool {
    !m.shift && !m.control && !m.alt && !m.meta && !m.super_key && !m.other
}

/// The platform's copy modifier is held: Cmd on macOS, Ctrl elsewhere.
pub fn copy_path_modifier_held(m: Modifiers, platform: Platform) -> (held: bool)
    ensures
        held == (match platform {
            Platform::MacOs => m.meta,
            Platform::Linux => m.control,
        }),
{
    match platform {
        Platform::MacOs => m.meta,
        Platform::Linux => m.control,
    }
}

/// Plain `q` with no modifier at all quits.
pub fn quit_key(key: Key, m: Modifiers) -> (quit: bool)
    ensures
        quit == (key == Key::LowerQ && mods_empty(m)),
{
    key == Key::LowerQ && !m.shift && !m.control && !m.alt && !m.meta && !m.super_key && !m.other
}

pub open spec fn spec_digit_speed_multiplier(key: Key) -> Option<u8> {
    match key {
        Key::Digit(d) => if 1 <= d <= 8 { Some(d) } else { None },
        Key::KpDigit(d) => if 1 <= d <= 8 { Some(d) } else { None },
        _ => None,
    }
}

/// Digits `1` to `8` (main row or keypad) select a speed; `0` and `9` do not.
pub fn digit_speed_multiplier(key: Key) -> (n: Option<u8>)
    ensures
        n == spec_digit_speed_multiplier(key),
{
    match key {
        Key::Digit(d) => if 1 <= d && d <= 8 { Some(d) } else { None },
        Key::KpDigit(d) => if 1 <= d && d <= 8 { Some(d) } else { None },
        _ => None,
    }
}

pub open spec fn spec_digit_speed_value(n: u8) -> u16 {
    if n == 3 { 15 } else { (n * 10) as u16 }
}

/// Speed for a digit, in tenths: digit 3 means 1.5×, the others mean N×.
pub fn digit_speed_value(n: u8) -> (tenths: u16)
    ensures
        tenths == spec_digit_speed_value(n),
{
    if n == 3 {
        15
    } else {
        n as u16 * 10
    }
}

/// Digit speed shortcuts ignore presses with Ctrl, Alt, Meta or Super held.
pub open spec fn digit_speed_blocked(m: Modifiers) -> bool {
    m.control || m.alt || m.meta || m.super_key
}

pub open spec fn is_fullscreen_key(key: Key) -> bool {
    key == Key::Return || key == Key::KpEnter || key == Key::LowerF || key == Key::UpperF
}

pub open spec fn is_left_key(key: Key) -> bool {
    key == Key::Left || key == Key::KpLeft
}

pub open spec fn is_right_key(key: Key) -> bool {
    key == Key::Right || key == Key::KpRight
}

/// Escape: leave fullscreen first; over the grid or with no player it is only consumed;
/// during playback it returns to the continue grid.
pub open spec fn spec_escape_command(ctx: KeyContext) -> KeyCommand {
    if ctx.fullscreen {
        KeyCommand::ExitFullscreen
    } else if ctx.recent_visible || !ctx.player_ready {
        KeyCommand::Swallow
    } else {
        KeyCommand::BrowseBack
    }
}

/// Hardware media keys reported as key presses (not on macOS, which uses the system
/// remote-command center instead).
pub open spec fn spec_media_key_command(key: Key, platform: Platform) -> Option<KeyCommand> {
    if platform == Platform::MacOs {
        None
    } else if key == Key::AudioPlay || key == Key::AudioPause {
        Some(KeyCommand::MediaPlayPause)
    } else if key == Key::AudioStop {
        Some(KeyCommand::MediaStop)
    } else if key == Key::AudioPrev {
        Some(KeyCommand::PreviousFile)
    } else if key == Key::AudioNext {
        Some(KeyCommand::NextFile)
    } else {
        None
    }
}

/// The shortcut families, in precedence order: quit, copy file, fullscreen, mute, digit speed,
/// volume, Ctrl+arrow file navigation, arrow seek, Space.
pub open spec fn spec_shortcut_command(key: Key, m: Modifiers, ctx: KeyContext) -> KeyCommand {
    if key == Key::LowerQ && mods_empty(m) {
        KeyCommand::Quit
    } else if (key == Key::LowerC || key == Key::UpperC) && (match ctx.platform {
        Platform::MacOs => m.meta,
        Platform::Linux => m.control,
    }) {
        KeyCommand::CopyPlayingPath
    } else if is_fullscreen_key(key) {
        KeyCommand::ToggleFullscreen
    } else if key == Key::LowerM || key == Key::UpperM {
        KeyCommand::ToggleMute
    } else if spec_digit_speed_multiplier(key) is Some {
        if digit_speed_blocked(m) {
            KeyCommand::Pass
        } else {
            KeyCommand::SetSpeed(spec_digit_speed_value(spec_digit_speed_multiplier(key)->0))
        }
    } else if key == Key::Up || key == Key::Down {
        KeyCommand::NudgeVolume(key == Key::Up)
    } else if m.control && is_left_key(key) {
        KeyCommand::PreviousFile
    } else if m.control && is_right_key(key) {
        KeyCommand::NextFile
    } else if is_left_key(key) || is_right_key(key) {
        if ctx.recent_visible || !ctx.seek_sensitive {
            KeyCommand::Pass
        } else if is_left_key(key) {
            KeyCommand::SeekBy(-5i8)
        } else {
            KeyCommand::SeekBy(5i8)
        }
    } else if key == Key::Space {
        KeyCommand::PlayPause
    } else {
        KeyCommand::Pass
    }
}

/// Full routing of one key press: Escape is left to a text widget that owns focus; Escape and
/// the media keys come before the focus guard; the other shortcuts only run when focus is not
/// in a text widget.
pub open spec fn spec_key_command(key: Key, m: Modifiers, ctx: KeyContext) -> KeyCommand {
    if key == Key::Escape {
        if ctx.focus_wants_raw_keys {
            KeyCommand::Pass
        } else {
            spec_escape_command(ctx)
        }
    } else if spec_media_key_command(key, ctx.platform) is Some {
        spec_media_key_command(key, ctx.platform)->0
    } else if ctx.focus_wants_raw_keys {
        KeyCommand::Pass
    } else {
        spec_shortcut_command(key, m, ctx)
    }
}

/// Escape family (the caller has checked that `key` is Escape and focus is not in text).
pub fn propagation_escape_key(ctx: KeyContext) -> (cmd: KeyCommand)
    ensures
        cmd == spec_escape_command(ctx),
{
    if ctx.fullscreen {
        KeyCommand::ExitFullscreen
    } else if ctx.recent_visible || !ctx.player_ready {
        KeyCommand::Swallow
    } else {
        KeyCommand::BrowseBack
    }
}

/// Hardware media key family.
pub fn propagation_for_media_keys(key: Key, platform: Platform) -> (cmd: Option<KeyCommand>)
    ensures
        cmd == spec_media_key_command(key, platform),
{
    if platform == Platform::MacOs {
        None
    } else if key == Key::AudioPlay || key == Key::AudioPause {
        Some(KeyCommand::MediaPlayPause)
    } else if key == Key::AudioStop {
        Some(KeyCommand::MediaStop)
    } else if key == Key::AudioPrev {
        Some(KeyCommand::PreviousFile)
    } else if key == Key::AudioNext {
        Some(KeyCommand::NextFile)
    } else {
        None
    }
}

/// Digit speed family: `None` when the key is no speed digit.
pub fn try_digit_speed_shortcut(key: Key, m: Modifiers) -> (cmd: Option<KeyCommand>)
    ensures
        cmd == (match spec_digit_speed_multiplier(key) {
            Some(n) => Some(
                if digit_speed_blocked(m) {
                    KeyCommand::Pass
                } else {
                    KeyCommand::SetSpeed(spec_digit_speed_value(n))
                },
            ),
            None => None,
        }),
{
    match digit_speed_multiplier(key) {
        Some(n) => {
            if m.control || m.alt || m.meta || m.super_key {
                Some(KeyCommand::Pass)
            } else {
                Some(KeyCommand::SetSpeed(digit_speed_value(n)))
            }
        },
        None => None,
    }
}

/// Applying a digit speed: a paused title is unpaused first (the speed is meant to be watched);
/// then the speed is written. `paused` is the engine's pause flag (`None`: unreadable, counts as
/// playing). Returns whether to unpause first; `None` without a player (the key then passes).
pub fn digit_speed_unpause_first(player_ready: bool, paused: Option<bool>) -> (r: Option<bool>)
    ensures
        r == (if player_ready {
            Some(paused == Some(true))
        } else {
            None
        }),
{
    if !player_ready {
        return None;
    }
    Some(match paused {
        Some(p) => p,
        None => false,
    })
}

/// Left / Right arrows (without Ctrl) step the seek bar by five seconds while the grid is hidden
/// and the bar accepts input; `None` for other keys.
pub fn propagation_horizontal_seek(key: Key, grid_visible: bool, seek_sensitive: bool) -> (cmd:
    Option<KeyCommand>)
    ensures
        cmd == (if !(is_left_key(key) || is_right_key(key)) {
            None
        } else if grid_visible || !seek_sensitive {
            Some(KeyCommand::Pass)
        } else if is_left_key(key) {
            Some(KeyCommand::SeekBy(-5i8))
        } else {
            Some(KeyCommand::SeekBy(5i8))
        }),
{
    let delta: i8 = match key {
        Key::Left | Key::KpLeft => -5,
        Key::Right | Key::KpRight => 5,
        _ => {
            return None;
        },
    };
    if grid_visible || !seek_sensitive {
        return Some(KeyCommand::Pass);
    }
    Some(KeyCommand::SeekBy(delta))
}

/// The shortcut families after the focus guard, in precedence order.
pub fn dispatch_shortcuts(key: Key, m: Modifiers, ctx: KeyContext) -> (cmd: KeyCommand)
    ensures
        cmd == spec_shortcut_command(key, m, ctx),
{
    if quit_key(key, m) {
        return KeyCommand::Quit;
    }
    if (key == Key::LowerC || key == Key::UpperC) && copy_path_modifier_held(m, ctx.platform) {
        return KeyCommand::CopyPlayingPath;
    }
    if key == Key::Return || key == Key::KpEnter || key == Key::LowerF || key == Key::UpperF {
        return KeyCommand::ToggleFullscreen;
    }
    if key == Key::LowerM || key == Key::UpperM {
        return KeyCommand::ToggleMute;
    }
    if let Some(c) = try_digit_speed_shortcut(key, m) {
        return c;
    }
    if key == Key::Up || key == Key::Down {
        return KeyCommand::NudgeVolume(key == Key::Up);
    }
    if m.control {
        if key == Key::Left || key == Key::KpLeft {
            return KeyCommand::PreviousFile;
        }
        if key == Key::Right || key == Key::KpRight {
            return KeyCommand::NextFile;
        }
    }
    if let Some(c) = propagation_horizontal_seek(key, ctx.recent_visible, ctx.seek_sensitive) {
        return c;
    }
    if key == Key::Space {
        KeyCommand::PlayPause
    } else {
        KeyCommand::Pass
    }
}

/// Routes one key press to the command it asks for.
pub fn key_command(key: Key, m: Modifiers, ctx: KeyContext) -> (cmd: KeyCommand)
    ensures
        cmd == spec_key_command(key, m, ctx),
{
    if key == Key::Escape {
        if ctx.focus_wants_raw_keys {
            return KeyCommand::Pass;
        }
        return propagation_escape_key(ctx);
    }
    if let Some(c) = propagation_for_media_keys(key, ctx.platform) {
        return c;
    }
    if ctx.focus_wants_raw_keys {
        return KeyCommand::Pass;
    }
    dispatch_shortcuts(key, m, ctx)
}

/// Commands whose press is consumed only when they took effect (a player was there and accepted
/// the change, the clipboard took the file, playback toggled).
pub open spec fn needs_effect(cmd: KeyCommand) -> bool {
    match cmd {
        KeyCommand::CopyPlayingPath => true,
        KeyCommand::ToggleMute => true,
        KeyCommand::SetSpeed(_) => true,
        KeyCommand::NudgeVolume(_) => true,
        KeyCommand::PlayPause => true,
        _ => false,
    }
}

/// Whether the key press is consumed, given whether the command took effect.
pub fn command_propagation(cmd: KeyCommand, took_effect: bool) -> (p: Propagation)
    ensures
        p == (if cmd == KeyCommand::Pass || (needs_effect(cmd) && !took_effect) {
            Propagation::Proceed
        } else {
            Propagation::Stop
        }),
{
    match cmd {
        KeyCommand::Pass => Propagation::Proceed,
        KeyCommand::CopyPlayingPath | KeyCommand::ToggleMute | KeyCommand::SetSpeed(_)
        | KeyCommand::NudgeVolume(_) | KeyCommand::PlayPause => {
            if took_effect {
                Propagation::Stop
            } else {
                Propagation::Proceed
            }
        },
        _ => Propagation::Stop,
    }
}

/// Typing in a text widget never triggers a shortcut: with focus in an editable, every key
/// except the hardware media keys and Escape passes through untouched, and Escape too is left to
/// the text widget.
pub proof fn law_text_focus_passes_keys(key: Key, m: Modifiers, ctx: KeyContext)
    requires
        ctx.focus_wants_raw_keys,
        spec_media_key_command(key, ctx.platform) is None,
    ensures
        spec_key_command(key, m, ctx) == KeyCommand::Pass,
{
}

/// Plain `q` quits only while focus is not in a text widget; with any modifier held it never
/// quits.
pub proof fn law_quit_only_plain_q(key: Key, m: Modifiers, ctx: KeyContext)
    ensures
        spec_key_command(key, m, ctx) == KeyCommand::Quit <==> (key == Key::LowerQ && mods_empty(m)
            && !ctx.focus_wants_raw_keys),
{
}

/// A digit pressed together with Ctrl, Alt, Meta or Super never changes the playback speed.
pub proof fn law_blocked_digit_keeps_speed(key: Key, m: Modifiers, ctx: KeyContext)
    requires
        spec_digit_speed_multiplier(key) is Some,
        digit_speed_blocked(m),
    ensures
        !(spec_key_command(key, m, ctx) is SetSpeed),
{
}

/// The digit speeds: 1, 2, 4 to 8 mean that many times normal speed, 3 means 1.5×.
pub proof fn law_digit_speeds()
    ensures
        forall|n: u8| #![auto] 1 <= n <= 8 ==> spec_digit_speed_value(n) == (if n == 3 { 15 } else { 10 * n }),
{
}

/// Both letter cases of M toggle mute, whatever modifiers are held, unless a text widget owns
/// focus.
pub proof fn law_m_toggles_mute(m: Modifiers, ctx: KeyContext)
    requires
        !ctx.focus_wants_raw_keys,
    ensures
        spec_key_command(Key::LowerM, m, ctx) == KeyCommand::ToggleMute,
        spec_key_command(Key::UpperM, m, ctx) == KeyCommand::ToggleMute,
{
}

} // verus!
