//! Transport state mirrored from the playback engine's property events.
//!
//! The engine reports property changes; each event updates a small cache and tells the window
//! which control to bring in line. Decimal engine values (seconds, volume percent) arrive in
//! thousandths; `None` stands for a value the engine reports as not finite.
use vstd::prelude::*;
use vstd::string::*;

verus! {

pub const PROP_PAUSE: u64 = 1;
pub const PROP_TIME_POS: u64 = 2;
pub const PROP_DURATION: u64 = 3;
pub const PROP_VOLUME: u64 = 4;
pub const PROP_MUTE: u64 = 5;
pub const PROP_VOLUME_MAX: u64 = 6;
pub const PROP_EOF_REACHED: u64 = 7;
pub const PROP_PATH: u64 = 8;

/// Lower bound (ms) between two position-driven seek-bar redraws.
pub const TIME_POS_MIN_GAP_MS: u64 = 100;

/// Remaining time (ms) within which the tail watcher runs.
pub const TAIL_SLACK_MS: i64 = 1750;

/// Payload of an engine property change.
#[derive(Clone, Copy, PartialEq, Eq, Structural, Debug)]
pub enum PropertyValue {
    Flag(bool),
    /// A decimal value in thousandths (`None`: not finite).
    Double(Option<i64>),
    /// A text value (its content is re-read when needed).
    Text,
    Other,
}

/// One transport event.
#[derive(Clone, Copy, PartialEq, Eq, Structural, Debug)]
pub enum TransportEv {
    Pause(bool),
    TimePos(Option<i64>),
    Duration(Option<i64>),
    Volume(Option<i64>),
    Mute(bool),
    VolumeMax(Option<i64>),
    EofReached(bool),
    EndFile,
    FileLoaded,
    VideoReconfig,
    /// The media path changed.
    PathChanged,
}

pub open spec fn spec_property_event(id: u64, v: PropertyValue) -> Option<TransportEv> {
    match v {
        PropertyValue::Flag(b) => if id == PROP_PAUSE {
            Some(TransportEv::Pause(b))
        } else if id == PROP_MUTE {
            Some(TransportEv::Mute(b))
        } else if id == PROP_EOF_REACHED {
            Some(TransportEv::EofReached(b))
        } else {
            None
        },
        PropertyValue::Double(d) => if id == PROP_TIME_POS {
            Some(TransportEv::TimePos(d))
        } else if id == PROP_DURATION {
            Some(TransportEv::Duration(d))
        } else if id == PROP_VOLUME {
            Some(TransportEv::Volume(d))
        } else if id == PROP_VOLUME_MAX {
            Some(TransportEv::VolumeMax(d))
        } else {
            None
        },
        PropertyValue::Text => if id == PROP_PATH {
            Some(TransportEv::PathChanged)
        } else {
            None
        },
        PropertyValue::Other => None,
    }
}

/// Maps an observed property change to a transport event; mismatched id and payload kinds are
/// dropped.
pub fn property_event(id: u64, v: PropertyValue) -> (ev: Option<TransportEv>)
    ensures
        ev == spec_property_event(id, v),
{
    match v {
        PropertyValue::Flag(b) => {
            if id == PROP_PAUSE {
                Some(TransportEv::Pause(b))
            } else if id == PROP_MUTE {
                Some(TransportEv::Mute(b))
            } else if id == PROP_EOF_REACHED {
                Some(TransportEv::EofReached(b))
            } else {
                None
            }
        },
        PropertyValue::Double(d) => {
            if id == PROP_TIME_POS {
                Some(TransportEv::TimePos(d))
            } else if id == PROP_DURATION {
                Some(TransportEv::Duration(d))
            } else if id == PROP_VOLUME {
                Some(TransportEv::Volume(d))
            } else if id == PROP_VOLUME_MAX {
                Some(TransportEv::VolumeMax(d))
            } else {
                None
            }
        },
        PropertyValue::Text => {
            if id == PROP_PATH {
                Some(TransportEv::PathChanged)
            } else {
                None
            }
        },
        PropertyValue::Other => None,
    }
}

/// Last known transport values.
#[derive(Clone, Copy, PartialEq, Eq, Structural, Debug)]
pub struct TransportCache {
    /// Duration in ms; 0 without media.
    pub duration_ms: i64,
    pub pause: bool,
    pub eof: bool,
    pub pos_ms: Option<i64>,
    /// When the seek bar last followed the position (ms on a monotonic clock).
    pub last_pos_apply_ms: Option<u64>,
}

impl Default for TransportCache {
    fn default() -> (c: Self)
        ensures
            c.duration_ms == 0,
            !c.pause,
            !c.eof,
            c.pos_ms == Some(0i64),
            c.last_pos_apply_ms is None,
    {
        TransportCache::new()
    }
}

/// Which controls an event brings in line.
#[derive(Clone, Copy, PartialEq, Eq, Structural, Debug)]
pub enum TransportEffect {
    Nothing,
    /// Play button from the cached duration and pause flag.
    SyncPlayButton,
    /// Seek range, play button and speed button from the new duration.
    DurationChanged,
    /// The position was recorded; refresh the labels and move the seek bar as the update says.
    TimePos(Option<i64>, TimePosUpdate),
    SyncVolume(Option<i64>),
    SyncMute(bool),
    SyncVolumeMax(Option<i64>),
    /// Check for the natural end and advance to the next file.
    RunSiblingEof,
    /// New media: window aspect, Previous/Next, play button re-read from the engine.
    RefreshAfterLoad,
    /// Previous/Next and play button re-read from the engine.
    RefreshNav,
}

/// What a position sample updates.
#[derive(Clone, Copy, PartialEq, Eq, Structural, Debug)]
pub struct TimePosUpdate {
    /// Refresh the elapsed / total labels.
    pub labels: bool,
    /// Move the seek bar.
    pub seek_bar: bool,
}

/// Whether a position sample at `now_ms` may move the seek bar, given when it last did.
pub open spec fn spec_bar_may_follow(last_apply_ms: Option<u64>, now_ms: u64) -> bool {
    match last_apply_ms {
        None => true,
        Some(t) => now_ms >= t && now_ms - t >= TIME_POS_MIN_GAP_MS,
    }
}

/// A position sample at `now_ms` applied to the cache: the position is recorded; the labels
/// follow whenever a bar is visible; the seek bar follows at most once per gap.
pub open spec fn spec_apply_time_pos(c: TransportCache, pos: Option<i64>, now_ms: u64, bar_visible: bool) -> (
    TransportCache,
    TimePosUpdate,
) {
    let follow = bar_visible && spec_bar_may_follow(c.last_pos_apply_ms, now_ms);
    (
        TransportCache {
            pos_ms: pos,
            last_pos_apply_ms: if follow {
                Some(now_ms)
            } else {
                c.last_pos_apply_ms
            },
            ..c
        },
        TimePosUpdate { labels: bar_visible, seek_bar: follow },
    )
}

impl TransportCache {
    pub fn new() -> (c: Self)
        ensures
            c.duration_ms == 0,
            !c.pause,
            !c.eof,
            c.pos_ms == Some(0i64),
            c.last_pos_apply_ms is None,
    {
        TransportCache {
            duration_ms: 0,
            pause: false,
            eof: false,
            pos_ms: Some(0),
            last_pos_apply_ms: None,
        }
    }

    /// Apply one event to the cache and name the controls to bring in line. `now_ms` (monotonic)
    /// and `bar_visible` (bottom bar or grid shown) are read for position samples.
    pub fn dispatch_event(&mut self, ev: TransportEv, now_ms: u64, bar_visible: bool) -> (e: TransportEffect)
        ensures
            match ev {
                TransportEv::Pause(p) => *final(self) == (TransportCache { pause: p, ..*old(self) })
                    && e == TransportEffect::SyncPlayButton,
                TransportEv::Duration(d) => *final(self) == (TransportCache {
                    duration_ms: match d {
                        Some(v) => v,
                        None => 0,
                    },
                    ..*old(self)
                }) && e == TransportEffect::DurationChanged,
                TransportEv::TimePos(p) => *final(self) == spec_apply_time_pos(*old(self), p, now_ms, bar_visible).0
                    && e == TransportEffect::TimePos(p, spec_apply_time_pos(*old(self), p, now_ms, bar_visible).1),
                TransportEv::Volume(v) => *final(self) == *old(self) && e == TransportEffect::SyncVolume(v),
                TransportEv::Mute(m) => *final(self) == *old(self) && e == TransportEffect::SyncMute(m),
                TransportEv::VolumeMax(v) => *final(self) == *old(self) && e
                    == TransportEffect::SyncVolumeMax(v),
                TransportEv::EofReached(f) => *final(self) == (TransportCache { eof: f, ..*old(self) })
                    && e == (if f {
                    TransportEffect::RunSiblingEof
                } else {
                    TransportEffect::Nothing
                }),
                TransportEv::EndFile => *final(self) == *old(self) && e == TransportEffect::RunSiblingEof,
                TransportEv::FileLoaded => *final(self) == *old(self) && e
                    == TransportEffect::RefreshAfterLoad,
                TransportEv::VideoReconfig => *final(self) == *old(self) && e
                    == TransportEffect::RefreshAfterLoad,
                TransportEv::PathChanged => *final(self) == *old(self) && e == TransportEffect::RefreshNav,
            },
    {
        match ev {
            TransportEv::Pause(p) => {
                self.pause = p;
                TransportEffect::SyncPlayButton
            },
            TransportEv::Duration(d) => {
                self.duration_ms = match d {
                    Some(v) => v,
                    None => 0,
                };
                TransportEffect::DurationChanged
            },
            TransportEv::TimePos(p) => {
                let u = self.apply_time_pos(p, now_ms, bar_visible);
                TransportEffect::TimePos(p, u)
            },
            TransportEv::Volume(v) => TransportEffect::SyncVolume(v),
            TransportEv::Mute(m) => TransportEffect::SyncMute(m),
            TransportEv::VolumeMax(v) => TransportEffect::SyncVolumeMax(v),
            TransportEv::EofReached(f) => {
                self.eof = f;
                if f {
                    TransportEffect::RunSiblingEof
                } else {
                    TransportEffect::Nothing
                }
            },
            TransportEv::EndFile => TransportEffect::RunSiblingEof,
            TransportEv::FileLoaded | TransportEv::VideoReconfig => TransportEffect::RefreshAfterLoad,
            TransportEv::PathChanged => TransportEffect::RefreshNav,
        }
    }

    /// The play button was re-read from the engine (new media, late observer install).
    pub fn resync_play_button(&mut self, pause: bool, duration: Option<i64>)
        ensures
            *final(self) == (TransportCache {
                pause: pause,
                duration_ms: match duration {
                    Some(v) => v,
                    None => 0,
                },
                ..*old(self)
            }),
    {
        self.pause = pause;
        self.duration_ms = match duration {
            Some(v) => v,
            None => 0,
        };
    }

    /// A position sample at `now_ms`: the labels follow whenever a bar is visible; the seek bar
    /// follows at most once per [`TIME_POS_MIN_GAP_MS`].
    pub fn apply_time_pos(&mut self, pos: Option<i64>, now_ms: u64, bar_visible: bool) -> (u:
        TimePosUpdate)
        ensures
            (*final(self), u) == spec_apply_time_pos(*old(self), pos, now_ms, bar_visible),
    {
        self.pos_ms = pos;
        let allow = match self.last_pos_apply_ms {
            None => true,
            Some(t) => now_ms >= t && now_ms - t >= TIME_POS_MIN_GAP_MS,
        };
        if !allow || !bar_visible {
            return TimePosUpdate { labels: bar_visible, seek_bar: false };
        }
        self.last_pos_apply_ms = Some(now_ms);
        TimePosUpdate { labels: true, seek_bar: true }
    }

    /// The tail watcher runs while playing within [`TAIL_SLACK_MS`] of the end.
    pub fn tail_watch_needed(&self) -> (b: bool)
        ensures
            b == (!self.pause && self.duration_ms > 0 && self.pos_ms is Some && self.duration_ms
                - self.pos_ms->0 <= TAIL_SLACK_MS),
    {
        match self.pos_ms {
            None => false,
            Some(p) => !self.pause && self.duration_ms > 0 && (self.duration_ms as i128) - (
            p as i128) <= TAIL_SLACK_MS as i128,
        }
    }
}

/// What to do with the tail-stall poll timer.
#[derive(Clone, Copy, PartialEq, Eq, Structural, Debug)]
pub enum TailTimerStep {
    /// Start polling.
    Arm,
    /// Polling already runs: leave it.
    Keep,
    /// Stop the running poll.
    Cancel,
    /// Not needed and not running.
    Idle,
}

impl TransportCache {
    /// After a batch of events: the poll runs exactly while [`TransportCache::tail_watch_needed`]
    /// holds; `armed` tells whether it runs now.
    pub fn update_tail_timer(&self, armed: bool) -> (t: TailTimerStep)
        ensures
            t == (if !self.pause && self.duration_ms > 0 && self.pos_ms is Some && self.duration_ms
                - self.pos_ms->0 <= TAIL_SLACK_MS {
                if armed {
                    TailTimerStep::Keep
                } else {
                    TailTimerStep::Arm
                }
            } else if armed {
                TailTimerStep::Cancel
            } else {
                TailTimerStep::Idle
            }),
    {
        let needs = self.tail_watch_needed();
        if needs {
            if armed {
                TailTimerStep::Keep
            } else {
                TailTimerStep::Arm
            }
        } else if armed {
            TailTimerStep::Cancel
        } else {
            TailTimerStep::Idle
        }
    }
}

/// The seek bar follows the position at most once per gap: after a sample moved it at time `t`
/// (which records `t`), a later sample at `now` moves it again exactly when `now - t` reaches the
/// gap.
pub proof fn law_seek_redraws_spaced(t: u64, now: u64)
    requires
        now >= t,
    ensures
        spec_bar_may_follow(Some(t), now) <==> now - t >= TIME_POS_MIN_GAP_MS,
        spec_bar_may_follow(None, now),
{
}

/// Play button state.
pub struct PlayButtonView {
    pub sensitive: bool,
    pub icon: &'static str,
    pub tooltip: &'static str,
}

/// Play button from duration and pause flag: insensitive with "No media" without a duration.
pub fn sync_play_button(duration_ms: i64, paused: bool) -> (v: PlayButtonView)
    ensures
        v.sensitive == (duration_ms > 0),
        v.icon@ == (if duration_ms > 0 && !paused {
            "media-playback-pause-symbolic"@
        } else {
            "media-playback-start-symbolic"@
        }),
        v.tooltip@ == (if duration_ms > 0 && !paused {
            "Pause (Space)"@
        } else if duration_ms > 0 {
            "Play (Space)"@
        } else {
            "No media"@
        }),
{
    let has_media = duration_ms > 0;
    if has_media && !paused {
        PlayButtonView {
            sensitive: true,
            icon: "media-playback-pause-symbolic",
            tooltip: "Pause (Space)",
        }
    } else if has_media {
        PlayButtonView {
            sensitive: true,
            icon: "media-playback-start-symbolic",
            tooltip: "Play (Space)",
        }
    } else {
        PlayButtonView {
            sensitive: false,
            icon: "media-playback-start-symbolic",
            tooltip: "No media",
        }
    }
}

/// Optimistic play button swap right after a pause write.
pub fn flip_play_icon(now_paused: bool) -> (r: (&'static str, &'static str))
    ensures
        r.0@ == (if now_paused {
            "media-playback-start-symbolic"@
        } else {
            "media-playback-pause-symbolic"@
        }),
        r.1@ == (if now_paused {
            "Play (Space)"@
        } else {
            "Pause (Space)"@
        }),
{
    if now_paused {
        ("media-playback-start-symbolic", "Play (Space)")
    } else {
        ("media-playback-pause-symbolic", "Pause (Space)")
    }
}

/// New seek-range upper bound (ms), when media is there and the bound differs.
pub fn sync_seek_range(duration_ms: i64, upper_ms: i64) -> (r: (bool, Option<i64>))
    ensures
        r.0 == (duration_ms > 0),
        r.1 == (if duration_ms > 0 && upper_ms != duration_ms {
            Some(duration_ms)
        } else {
            None
        }),
{
    let has_media = duration_ms > 0;
    (has_media, if has_media && upper_ms != duration_ms {
        Some(duration_ms)
    } else {
        None
    })
}

/// New seek-bar value: the position clamped to the title, unless it moved by under 10 ms.
pub fn sync_seek_pos(pos: Option<i64>, duration_ms: i64, current_ms: i64) -> (r: Option<i64>)
    ensures
        r == (match pos {
            None => None,
            Some(p) => if duration_ms <= 0 {
                None
            } else {
                let v = if p < 0 {
                    0
                } else if p > duration_ms {
                    duration_ms
                } else {
                    p
                };
                if current_ms - v < 10 && v - current_ms < 10 {
                    None
                } else {
                    Some(v)
                }
            },
        }),
{
    let p = match pos {
        None => {
            return None;
        },
        Some(p) => p,
    };
    if duration_ms <= 0 {
        return None;
    }
    let v = if p < 0 {
        0
    } else if p > duration_ms {
        duration_ms
    } else {
        p
    };
    let d: i128 = (current_ms as i128) - (v as i128);
    if d < 10 && -d < 10 {
        None
    } else {
        Some(v)
    }
}

/// Mute toggle tooltip.
pub fn mute_tooltip(muted: bool) -> (t: &'static str)
    ensures
        t@ == (if muted {
            "Unmute"@
        } else {
            "Mute"@
        }),
{
    if muted {
        "Unmute"
    } else {
        "Mute"
    }
}

/// Format an engine property is observed in.
#[derive(Clone, Copy, PartialEq, Eq, Structural, Debug)]
pub enum PropFormat {
    Flag,
    Double,
    Text,
}

/// One observed engine property: the id its changes carry, its name and format.
pub struct ObservedProperty {
    pub id: u64,
    pub name: &'static str,
    pub format: PropFormat,
}

/// The properties the transport observes, in order.
pub open spec fn spec_observer_table() -> Seq<(u64, Seq<char>, PropFormat)> {
    seq![
        (PROP_PAUSE, "pause"@, PropFormat::Flag),
        (PROP_TIME_POS, "time-pos"@, PropFormat::Double),
        (PROP_DURATION, "duration"@, PropFormat::Double),
        (PROP_VOLUME, "volume"@, PropFormat::Double),
        (PROP_MUTE, "mute"@, PropFormat::Flag),
        (PROP_VOLUME_MAX, "volume-max"@, PropFormat::Double),
        (PROP_EOF_REACHED, "eof-reached"@, PropFormat::Flag),
        (PROP_PATH, "path"@, PropFormat::Text),
    ]
}

pub open spec fn observed_view(p: ObservedProperty) -> (u64, Seq<char>, PropFormat) {
    (p.id, p.name@, p.format)
}

fn observed(id: u64, name: &'static str, format: PropFormat) -> (p: ObservedProperty)
    ensures
        p.id == id,
        p.name == name,
        p.format == format,
{
    ObservedProperty { id, name, format }
}

/// Observers attach once the engine exists and is free: then the whole table is to be
/// observed; otherwise the install waits for the realize path to trigger it (`None`).
pub fn install_observers_when_ready(player_free: bool, player_ready: bool) -> (t: Option<Vec<ObservedProperty>>)
    ensures
        t is Some <==> (player_free && player_ready),
        t is Some ==> t->0@.map_values(|p: ObservedProperty| observed_view(p)) == spec_observer_table(),
{
    if !(player_free && player_ready) {
        return None;
    }
    let v = vec![
        observed(PROP_PAUSE, "pause", PropFormat::Flag),
        observed(PROP_TIME_POS, "time-pos", PropFormat::Double),
        observed(PROP_DURATION, "duration", PropFormat::Double),
        observed(PROP_VOLUME, "volume", PropFormat::Double),
        observed(PROP_MUTE, "mute", PropFormat::Flag),
        observed(PROP_VOLUME_MAX, "volume-max", PropFormat::Double),
        observed(PROP_EOF_REACHED, "eof-reached", PropFormat::Flag),
        observed(PROP_PATH, "path", PropFormat::Text),
    ];
    proof {
        reveal_strlit("pause");
        reveal_strlit("time-pos");
        reveal_strlit("duration");
        reveal_strlit("volume");
        reveal_strlit("mute");
        reveal_strlit("volume-max");
        reveal_strlit("eof-reached");
        reveal_strlit("path");
    }
    assert(v@.map_values(|p: ObservedProperty| observed_view(p)) =~= spec_observer_table());
    Some(v)
}

/// Steps after the observers attached, in order.
#[derive(Clone, Copy, PartialEq, Eq, Structural, Debug)]
pub enum AfterInstall {
    /// Hook the engine's wakeup to one drain of pending events on the main thread.
    InstallEventDrain,
    /// Re-read pause and duration (their first values may have been emitted before).
    ResyncPlayButton,
    /// Recompute Previous / Next.
    RefreshSiblingNav,
    /// Drain what is pending now.
    DrainNow,
}

pub open spec fn spec_after_install() -> Seq<AfterInstall> {
    seq![
        AfterInstall::InstallEventDrain,
        AfterInstall::ResyncPlayButton,
        AfterInstall::RefreshSiblingNav,
        AfterInstall::DrainNow,
    ]
}

/// The observe call returned: on success the install is done and these steps follow; on failure
/// nothing follows and the install stays deferred.
pub fn observers_installed(observe_ok: bool) -> (steps: Vec<AfterInstall>)
    ensures
        steps@ == (if observe_ok {
            spec_after_install()
        } else {
            Seq::<AfterInstall>::empty()
        }),
{
    if !observe_ok {
        return Vec::new();
    }
    let v = vec![
        AfterInstall::InstallEventDrain,
        AfterInstall::ResyncPlayButton,
        AfterInstall::RefreshSiblingNav,
        AfterInstall::DrainNow,
    ];
    assert(v@ =~= spec_after_install());
    v
}

/// The engine payload a change of a property in `format` carries.
pub open spec fn spec_payload_matches(format: PropFormat, v: PropertyValue) -> bool {
    match format {
        PropFormat::Flag => v is Flag,
        PropFormat::Double => v is Double,
        PropFormat::Text => v is Text,
    }
}

/// Every observed property is understood: a change of it, carrying the payload of its format,
/// becomes a transport event.
pub proof fn law_observed_properties_dispatch(i: int, v: PropertyValue)
    requires
        0 <= i < spec_observer_table().len(),
        spec_payload_matches(spec_observer_table()[i].2, v),
    ensures
        spec_property_event(spec_observer_table()[i].0, v) is Some,
{
}

/// Hand out the deferred observer install, once: the slot is empty afterwards, so a second
/// trigger does nothing.
pub fn trigger_transport_install<F>(slot: &mut Option<F>) -> (cb: Option<F>)
    ensures
        cb == *old(slot),
        *final(slot) is None,
{
    slot.take()
}

/// A property change carries the engine's value into its event unchanged: flags for pause, mute
/// and end of file, numbers for position, duration, volume and maximum volume.
pub proof fn law_events_carry_engine_values(b: bool, d: Option<i64>)
    ensures
        spec_property_event(PROP_PAUSE, PropertyValue::Flag(b)) == Some(TransportEv::Pause(b)),
        spec_property_event(PROP_MUTE, PropertyValue::Flag(b)) == Some(TransportEv::Mute(b)),
        spec_property_event(PROP_EOF_REACHED, PropertyValue::Flag(b)) == Some(TransportEv::EofReached(b)),
        spec_property_event(PROP_TIME_POS, PropertyValue::Double(d)) == Some(TransportEv::TimePos(d)),
        spec_property_event(PROP_DURATION, PropertyValue::Double(d)) == Some(TransportEv::Duration(d)),
        spec_property_event(PROP_VOLUME, PropertyValue::Double(d)) == Some(TransportEv::Volume(d)),
        spec_property_event(PROP_VOLUME_MAX, PropertyValue::Double(d)) == Some(TransportEv::VolumeMax(d)),
        spec_property_event(PROP_PATH, PropertyValue::Text) == Some(TransportEv::PathChanged),
{
}

} // verus!
