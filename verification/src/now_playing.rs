//! macOS Now Playing metadata: title choice and the transport snapshot published with it.
//! Seconds and rates are in thousandths; `None` stands for a value that is not finite.
use vstd::prelude::*;
use vstd::string::*;
use crate::paths::{path_file_name, spec_file_name};
use crate::text::{is_blank, spec_is_blank};

verus! {

/// The engine's `media-title` when it has a non-blank one, else empty text.
pub fn np_streamed_title(media_title: Option<&str>) -> (t: String)
    ensures
        t@ == (match media_title {
            Some(s) => if spec_is_blank(s@) {
                Seq::<char>::empty()
            } else {
                s@
            },
            None => Seq::<char>::empty(),
        }),
{
    match media_title {
        Some(s) => {
            if is_blank(s) {
                String::new()
            } else {
                s.to_owned()
            }
        },
        None => String::new(),
    }
}

pub open spec fn spec_fallback_title(local_file: Option<Seq<char>>) -> Seq<char> {
    match local_file {
        Some(p) => match spec_file_name(p) {
            Some(n) => n,
            None => "Rhino Player"@,
        },
        None => "Rhino Player"@,
    }
}

/// File name of the playing local file, else the application name.
pub fn np_fallback_title(local_file: Option<&str>) -> (t: String)
    ensures
        t@ == spec_fallback_title(match local_file {
            Some(p) => Some(p@),
            None => None,
        }),
{
    proof {
        reveal_strlit("Rhino Player");
    }
    match local_file {
        Some(p) => match path_file_name(p) {
            Some(n) => n,
            None => "Rhino Player".to_owned(),
        },
        None => "Rhino Player".to_owned(),
    }
}

/// Media title for Now Playing: the streamed title when non-blank, else the file name, else the
/// application name.
pub fn np_media_title(media_title: Option<&str>, local_file: Option<&str>) -> (t: String)
    ensures
        t@ == (match media_title {
            Some(s) => if !spec_is_blank(s@) && s@.len() > 0 {
                s@
            } else {
                spec_fallback_title(match local_file {
                    Some(p) => Some(p@),
                    None => None,
                })
            },
            None => spec_fallback_title(match local_file {
                Some(p) => Some(p@),
                None => None,
            }),
        }),
{
    let streamed = np_streamed_title(media_title);
    if streamed.unicode_len() > 0 {
        return streamed;
    }
    np_fallback_title(local_file)
}

/// A finite value clamped at zero; `fallback` when not finite.
pub fn np_sanitized(v: Option<i64>, fallback: i64) -> (r: i64)
    ensures
        r == (match v {
            Some(x) => if x < 0 {
                0
            } else {
                x
            },
            None => fallback,
        }),
{
    match v {
        Some(x) => if x < 0 {
            0
        } else {
            x
        },
        None => fallback,
    }
}

/// What Now Playing shows.
pub struct NowPlayingSnapshot {
    pub title: String,
    pub duration: i64,
    pub elapsed: i64,
    pub paused: bool,
    /// Playback rate published: 0 while paused, else the speed.
    pub rate: i64,
}

/// Snapshot to publish; `None` clears Now Playing (no player, or no positive duration). Missing
/// position counts as 0 and missing speed as 1×.
pub fn np_transport_snapshot(
    player_ready: bool,
    duration: Option<i64>,
    pos: Option<i64>,
    paused: bool,
    speed: Option<i64>,
    media_title: Option<&str>,
    local_file: Option<&str>,
) -> (r: Option<NowPlayingSnapshot>)
    ensures
        ({
            let dur = match duration {
                Some(x) => if x < 0 {
                    0
                } else {
                    x
                },
                None => 0,
            };
            &&& r is Some <==> (player_ready && dur > 0)
            &&& r is Some ==> {
                let s = r->0;
                &&& s.duration == dur
                &&& s.elapsed == (match pos {
                    Some(x) => if x < 0 {
                        0
                    } else {
                        x
                    },
                    None => 0,
                })
                &&& s.paused == paused
                &&& s.rate == (if paused {
                    0
                } else {
                    match speed {
                        Some(x) => if x < 0 {
                            0
                        } else {
                            x
                        },
                        None => 1000,
                    }
                })
                &&& s.title@ == (match media_title {
                    Some(t) => if !spec_is_blank(t@) && t@.len() > 0 {
                        t@
                    } else {
                        spec_fallback_title(match local_file {
                            Some(p) => Some(p@),
                            None => None,
                        })
                    },
                    None => spec_fallback_title(match local_file {
                        Some(p) => Some(p@),
                        None => None,
                    }),
                })
            }
        }),
{
    if !player_ready {
        return None;
    }
    let dur = np_sanitized(duration, 0);
    if dur <= 0 {
        return None;
    }
    let elapsed = np_sanitized(pos, 0);
    let sp = np_sanitized(speed, 1000);
    let title = np_media_title(media_title, local_file);
    Some(NowPlayingSnapshot {
        title,
        duration: dur,
        elapsed,
        paused,
        rate: if paused {
            0
        } else {
            sp
        },
    })
}

} // verus!
