//! Seeking from the seek bar and the arrow keys. Times are in milliseconds.
//!
//! Arrow keys pause a playing title for the whole burst of seeks and resume it one second after
//! the last one; the seek bar leaves pause alone. While the bar is grabbed, moving the thumb only
//! updates the clock; the seek runs on release.
use vstd::prelude::*;
use crate::volume::spec_clamp;

verus! {

/// Idle time (ms) after the last seek of a burst before playback resumes.
pub const SEEK_BURST_TAIL_IDLE_MS: u64 = 1000;

#[derive(Clone, Copy, PartialEq, Eq, Structural, Debug)]
pub enum SeekKeyframeKind {
    /// Arrow keys: pause while seeking, resume after the burst if it began while playing.
    ArrowBurst,
    /// Seek bar or media controls: leave pause alone.
    ScaleOrExternal,
}

/// What to run one burst-idle after a seek.
#[derive(Clone, Copy, PartialEq, Eq, Structural, Debug)]
pub enum SeekTail {
    /// Nothing to run.
    NoTail,
    /// Resume playback if the burst began while playing, then reattach the smooth filter.
    BurstTail,
    /// Only reattach the smooth filter that the seek removed.
    SmoothOnlyTail,
}

/// Start of a keyframe seek. `resume_latch` remembers, for the whole arrow burst, that playback
/// ran when it began. Returns whether to pause now.
pub fn latch_arrow_burst_pause(kind: SeekKeyframeKind, paused_before: bool, resume_latch: &mut bool) -> (pause_now:
    bool)
    ensures
        kind == SeekKeyframeKind::ArrowBurst ==> *final(resume_latch) == spec_burst_latch(
            *old(resume_latch),
            seq![paused_before],
        ) && pause_now == !paused_before,
        kind == SeekKeyframeKind::ScaleOrExternal ==> *final(resume_latch) == *old(resume_latch)
            && !pause_now,
{
    match kind {
        SeekKeyframeKind::ArrowBurst => {
            let was_playing = !paused_before;
            *resume_latch = *resume_latch || was_playing;
            proof {
                reveal_with_fuel(spec_burst_latch, 2);
            }
            was_playing
        },
        SeekKeyframeKind::ScaleOrExternal => false,
    }
}

/// After the seek command: a latched burst gets the resume tail; a bar seek that started while
/// playing and removed the smooth filter gets the reattach-only tail.
pub fn seek_keyframes_after_command(
    kind: SeekKeyframeKind,
    resume_latch: bool,
    paused_before: bool,
    stripped_smooth: bool,
) -> (t: SeekTail)
    ensures
        t == (if resume_latch {
            SeekTail::BurstTail
        } else if kind == SeekKeyframeKind::ScaleOrExternal && !paused_before && stripped_smooth {
            SeekTail::SmoothOnlyTail
        } else {
            SeekTail::NoTail
        }),
{
    if resume_latch {
        SeekTail::BurstTail
    } else if kind == SeekKeyframeKind::ScaleOrExternal && !paused_before && stripped_smooth {
        SeekTail::SmoothOnlyTail
    } else {
        SeekTail::NoTail
    }
}

/// The burst tail fires: clear the latch and say whether to resume playback.
pub fn seek_burst_tail_fire(resume_latch: &mut bool) -> (resume: bool)
    ensures
        resume == *old(resume_latch),
        !*final(resume_latch),
{
    let r = *resume_latch;
    *resume_latch = false;
    r
}

/// The resume latch after a burst of arrow seeks; `paused` lists, per seek, whether the title was
/// paused when that seek began.
pub open spec fn spec_burst_latch(latch: bool, paused: Seq<bool>) -> bool
    decreases paused.len(),
{
    if paused.len() == 0 {
        latch
    } else {
        spec_burst_latch(latch || !paused[0], paused.drop_first())
    }
}

proof fn lemma_latch_stays_set(paused: Seq<bool>)
    ensures
        spec_burst_latch(true, paused),
    decreases paused.len(),
{
    if paused.len() > 0 {
        lemma_latch_stays_set(paused.drop_first());
    }
}

proof fn lemma_latch_stays_clear(paused: Seq<bool>)
    requires
        forall|i: int| 0 <= i < paused.len() ==> #[trigger] paused[i],
    ensures
        !spec_burst_latch(false, paused),
    decreases paused.len(),
{
    if paused.len() > 0 {
        lemma_latch_stays_clear(paused.drop_first());
    }
}

/// A burst of arrow seeks that begins while playing resumes playback at its tail, though every
/// later seek of the burst sees the title paused; a burst over a paused title never resumes it.
pub proof fn law_arrow_burst_resume(paused: Seq<bool>)
    requires
        paused.len() > 0,
    ensures
        !paused[0] ==> spec_burst_latch(false, paused),
        (forall|i: int| 0 <= i < paused.len() ==> #[trigger] paused[i]) ==> !spec_burst_latch(false, paused),
{
    if !paused[0] {
        lemma_latch_stays_set(paused.drop_first());
    }
    if forall|i: int| 0 <= i < paused.len() ==> #[trigger] paused[i] {
        lemma_latch_stays_clear(paused);
    }
}

/// A non-finite or negative engine value counts as 0.
pub open spec fn spec_finite_nonneg(v: Option<i64>) -> int {
    match v {
        Some(x) => if x < 0 {
            0
        } else {
            x as int
        },
        None => 0,
    }
}

pub fn finite_nonneg(v: Option<i64>) -> (r: i64)
    ensures
        r == spec_finite_nonneg(v),
{
    match v {
        Some(x) => if x < 0 {
            0
        } else {
            x
        },
        None => 0,
    }
}

/// Position and length an arrow seek works with: the seek bar's range when set, else the
/// duration; `None` without a length.
pub fn arrow_seek_pos_len(pos: Option<i64>, duration: Option<i64>, bar_upper: Option<i64>) -> (r:
    Option<(i64, i64)>)
    ensures
        ({
            let u = spec_finite_nonneg(bar_upper);
            let len = if u > 0 {
                u
            } else {
                spec_finite_nonneg(duration)
            };
            r == (if len > 0 {
                Some((spec_finite_nonneg(pos) as i64, len as i64))
            } else {
                None
            })
        }),
{
    let u = finite_nonneg(bar_upper);
    let len = if u > 0 {
        u
    } else {
        finite_nonneg(duration)
    };
    if len > 0 {
        Some((finite_nonneg(pos), len))
    } else {
        None
    }
}

/// Target of an arrow seek: position plus step, kept within the title.
pub fn seek_arrow_step(pos: i64, len: i64, delta_ms: i64) -> (t: i64)
    requires
        len >= 0,
    ensures
        t == spec_clamp(pos + delta_ms, 0, len as int),
{
    let want: i128 = pos as i128 + delta_ms as i128;
    if want < 0 {
        0
    } else if want > len as i128 {
        len
    } else {
        want as i64
    }
}

/// Time a seek-bar release seeks to: the preview time while the preview runs, else the bar's
/// label time (the thumb value when there is none), kept within the bar.
pub fn release_seek_time(
    preview_on: bool,
    preview_t: i64,
    label_t: Option<i64>,
    raw: i64,
    upper: i64,
) -> (t: i64)
    ensures
        ({
            let want = if preview_on {
                preview_t
            } else {
                match label_t {
                    Some(l) => l,
                    None => raw,
                }
            };
            let hi = if upper > 0 {
                upper
            } else {
                0
            };
            t == spec_clamp(want as int, 0, hi as int)
        }),
{
    let want = if preview_on {
        preview_t
    } else {
        match label_t {
            Some(l) => l,
            None => raw,
        }
    };
    let hi = if upper > 0 {
        upper
    } else {
        0
    };
    if want < 0 {
        0
    } else if want > hi {
        hi
    } else {
        want
    }
}

/// Pointer / touch events on the seek bar.
#[derive(Clone, Copy, PartialEq, Eq, Structural, Debug)]
pub enum SeekBarEvent {
    /// Button press, with whether it is the primary button.
    ButtonPress(bool),
    TouchBegin,
    /// Button release, touch end or touch cancel.
    Release,
    Other,
}

/// Track the grab of the seek bar; returns whether to commit the seek (release after a grab).
pub fn seek_bar_event(grabbed: &mut bool, ev: SeekBarEvent) -> (commit: bool)
    ensures
        match ev {
            SeekBarEvent::ButtonPress(primary) => *final(grabbed) == (*old(grabbed) || primary)
                && !commit,
            SeekBarEvent::TouchBegin => *final(grabbed) && !commit,
            SeekBarEvent::Release => !*final(grabbed) && commit == *old(grabbed),
            SeekBarEvent::Other => *final(grabbed) == *old(grabbed) && !commit,
        },
{
    match ev {
        SeekBarEvent::ButtonPress(primary) => {
            if primary {
                *grabbed = true;
            }
            false
        },
        SeekBarEvent::TouchBegin => {
            *grabbed = true;
            false
        },
        SeekBarEvent::Release => {
            if !*grabbed {
                return false;
            }
            *grabbed = false;
            true
        },
        SeekBarEvent::Other => false,
    }
}

/// What a seek-bar value change does.
#[derive(Clone, Copy, PartialEq, Eq, Structural, Debug)]
pub enum ValueChange {
    /// The change came from the transport itself.
    Ignore,
    /// Grabbed: show this time on the clock, seek later on release.
    LabelOnly(i64),
    /// Show this time and seek to it now.
    LabelAndSeek(i64),
}

/// Seek-bar value change: ignored while the transport moves the bar; while grabbed only the clock
/// follows (the preview time if the preview runs); otherwise seek at once.
pub fn seek_value_changed(
    seek_sync: bool,
    grabbed: bool,
    preview_on: bool,
    preview_t: i64,
    label_t: Option<i64>,
    raw: i64,
) -> (c: ValueChange)
    ensures
        ({
            let t = match label_t {
                Some(l) => l,
                None => raw,
            };
            c == (if seek_sync {
                ValueChange::Ignore
            } else if grabbed {
                ValueChange::LabelOnly(
                    if preview_on {
                        preview_t
                    } else {
                        t
                    },
                )
            } else {
                ValueChange::LabelAndSeek(t)
            })
        }),
{
    if seek_sync {
        return ValueChange::Ignore;
    }
    let t = match label_t {
        Some(l) => l,
        None => raw,
    };
    if grabbed {
        ValueChange::LabelOnly(
            if preview_on {
                preview_t
            } else {
                t
            },
        )
    } else {
        ValueChange::LabelAndSeek(t)
    }
}

} // verus!
