//! Attaching the Smooth 60 video filter a short while after a load or unpause.
use vstd::prelude::*;
use crate::text::{is_blank, spec_is_blank};

verus! {

/// Engine facts the attach decision reads.
#[derive(Clone, Copy, PartialEq, Eq, Structural, Debug)]
pub struct SmoothFacts {
    /// Smooth 60 is enabled in the preferences.
    pub smooth_60: bool,
    /// Media is open.
    pub has_open_media: bool,
    /// Pause flag (unknown counts as paused).
    pub paused: bool,
    /// The media suits the motion filter.
    pub eligible: bool,
    /// The filter chain already holds the filter.
    pub has_filter: bool,
}

/// Outcome of scheduling the delayed attach.
#[derive(Clone, PartialEq, Eq, Debug)]
pub enum AttachSchedule {
    /// Nothing to do (no player, Smooth off, no media, no path, paused).
    Skip,
    /// Already playing with the filter attached.
    AlreadyAttached,
    /// Arm the attach timer for this media path; the stamp was armed to `not_before_ms`.
    Schedule { path: String, not_before_ms: u64 },
}

/// Schedule the Smooth 60 attach `delay_ms` after a load or unpause while still playing. Arming
/// also sets the not-before stamp (`not_before`, monotonic ms) to `now_ms + delay_ms`, so the
/// speed resync on the file-loaded tick does not attach earlier; otherwise the stamp is left.
pub fn schedule_smooth_vf_attach_after_delay(
    player_ready: bool,
    f: SmoothFacts,
    path: Option<&str>,
    now_ms: u64,
    delay_ms: u64,
    not_before: &mut Option<u64>,
) -> (s: AttachSchedule)
    requires
        now_ms + delay_ms <= u64::MAX,
    ensures
        (s == AttachSchedule::AlreadyAttached) == (player_ready && f.smooth_60 && f.has_open_media
            && !f.paused && f.eligible && f.has_filter),
        (s is Schedule) == (player_ready && !(f.eligible && f.has_filter) && f.smooth_60
            && f.has_open_media && !f.paused && path is Some && !spec_is_blank(path->0@)),
        s is Schedule ==> s->path@ == path->0@ && s->not_before_ms == now_ms + delay_ms
            && *final(not_before) == Some((now_ms + delay_ms) as u64),
        !(s is Schedule) ==> *final(not_before) == *old(not_before),
{
    if !player_ready {
        return AttachSchedule::Skip;
    }
    if f.smooth_60 && f.has_open_media && !f.paused && f.eligible && f.has_filter {
        return AttachSchedule::AlreadyAttached;
    }
    if !f.smooth_60 || !f.has_open_media {
        return AttachSchedule::Skip;
    }
    let p = match path {
        None => {
            return AttachSchedule::Skip;
        },
        Some(p) => p,
    };
    if is_blank(p) {
        return AttachSchedule::Skip;
    }
    if f.paused {
        return AttachSchedule::Skip;
    }
    let until = now_ms + delay_ms;
    *not_before = Some(until);
    AttachSchedule::Schedule { path: p.to_owned(), not_before_ms: until }
}

/// The attach timer fired: with a player the not-before stamp is cleared, whatever follows;
/// attach only if still playing the same media path, Smooth is still on, the media suits the
/// filter and the filter is not attached yet.
pub fn smooth_attach_fire(
    player_ready: bool,
    paused: bool,
    current_path: &str,
    scheduled_path: &str,
    f: SmoothFacts,
    not_before: &mut Option<u64>,
) -> (attach: bool)
    ensures
        *final(not_before) == (if player_ready {
            None
        } else {
            *old(not_before)
        }),
        attach == (player_ready && !paused && current_path@ == scheduled_path@ && f.smooth_60
            && f.eligible && !f.has_filter),
{
    if !player_ready {
        return false;
    }
    *not_before = None;
    if paused {
        return false;
    }
    let same = current_path.to_owned() == scheduled_path.to_owned();
    if !same {
        return false;
    }
    f.smooth_60 && f.eligible && !f.has_filter
}

/// After an attach (or a full resync), the filter goes off for good when either step switched
/// Smooth off; the preference then flips off and the setup dialog shows.
pub fn smooth_turned_off(apply_off: bool, reapply_off: bool) -> (off: bool)
    ensures
        off == (apply_off || reapply_off),
{
    apply_off || reapply_off
}

} // verus!
