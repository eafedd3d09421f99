//! Volume controls. Volume values are in thousandths of a percent point (`100_000` is 100 %).
use vstd::prelude::*;

verus! {

/// Icon for the mute toggle inside the header sound popover: the fader beside it shows the level,
/// so the icon only tells muted from audible.
pub fn vol_mute_pop_icon(muted: bool) -> (icon: &'static str)
    ensures
        icon@ == (if muted { "audio-volume-muted-symbolic"@ } else { "audio-volume-high-symbolic"@ }),
{
    if muted {
        "audio-volume-muted-symbolic"
    } else {
        "audio-volume-high-symbolic"
    }
}

/// Header volume icon: muted (or practically silent), low, medium or high.
pub fn vol_icon(muted: bool, vol: i64) -> (icon: &'static str)
    ensures
        icon@ == (if muted || vol < 500 {
            "audio-volume-muted-symbolic"@
        } else if vol < 33_000 {
            "audio-volume-low-symbolic"@
        } else if vol < 66_000 {
            "audio-volume-medium-symbolic"@
        } else {
            "audio-volume-high-symbolic"@
        }),
{
    if muted || vol < 500 {
        "audio-volume-muted-symbolic"
    } else if vol < 33_000 {
        "audio-volume-low-symbolic"
    } else if vol < 66_000 {
        "audio-volume-medium-symbolic"
    } else {
        "audio-volume-high-symbolic"
    }
}

pub open spec fn spec_clamp(v: int, lo: int, hi: int) -> int {
    if v < lo {
        lo
    } else if v > hi {
        hi
    } else {
        v
    }
}

/// Arrow-key volume step: the current volume (0 when unknown) moved by `delta`, kept within 0
/// and the engine's maximum (100 % when unknown, at least 1 %). A result above 0.5 % also
/// unmutes. Returns the new volume and whether to unmute.
pub fn nudge_mpv_volume(current: Option<i64>, delta: i64, volume_max: Option<i64>) -> (r: (i64, bool))
    ensures
        ({
            let cur = match current {
                Some(c) => c as int,
                None => 0,
            };
            let vmax = match volume_max {
                Some(m) => if m < 1000 {
                    1000
                } else {
                    m as int
                },
                None => 100_000,
            };
            &&& r.0 == spec_clamp(cur + delta, 0, vmax)
            &&& r.1 == (r.0 > 500)
        }),
{
    let cur: i128 = match current {
        Some(c) => c as i128,
        None => 0,
    };
    let vmax: i64 = match volume_max {
        Some(m) => if m < 1000 {
            1000
        } else {
            m
        },
        None => 100_000,
    };
    let want: i128 = cur + delta as i128;
    let nv: i64 = if want < 0 {
        0
    } else if want > vmax as i128 {
        vmax
    } else {
        want as i64
    };
    (nv, nv > 500)
}

/// Volume fader value for an engine volume: clamped to the fader's upper bound; `None` when the
/// menu is open, the volume is unknown, or the fader is already within 0.01 %.
pub fn sync_volume(vol: Option<i64>, upper: i64, current: i64, menu_open: bool) -> (r: Option<i64>)
    requires
        upper >= 0,
    ensures
        r == (if menu_open || vol is None {
            None
        } else {
            let c = spec_clamp(vol->0 as int, 0, upper as int);
            if current - c < 10 && c - current < 10 {
                None
            } else {
                Some(c as i64)
            }
        }),
{
    if menu_open {
        return None;
    }
    let v = match vol {
        None => {
            return None;
        },
        Some(v) => v,
    };
    let c: i64 = if v < 0 {
        0
    } else if v > upper {
        upper
    } else {
        v
    };
    let d: i128 = current as i128 - c as i128;
    if d < 10 && -d < 10 {
        None
    } else {
        Some(c)
    }
}

/// New fader upper bound from the engine's maximum volume: only a finite positive value that
/// differs from the present bound.
pub fn sync_volume_max(vmax: Option<i64>, upper: i64) -> (r: Option<i64>)
    ensures
        r == (match vmax {
            Some(m) => if m > 0 && m != upper {
                Some(m)
            } else {
                None
            },
            None => None,
        }),
{
    match vmax {
        Some(m) => if m > 0 && m != upper {
            Some(m)
        } else {
            None
        },
        None => None,
    }
}

} // verus!
