//! Previous / Next buttons of the bottom bar: sensitivity, cached folder lookups, tooltips.
use vstd::prelude::*;
use vstd::string::*;
use crate::paths::{path_file_name, spec_file_name};

verus! {

/// Tooltip when navigation is disabled for the current folder state.
pub fn nav_tip_unavailable(is_prev: bool) -> (t: &'static str)
    ensures
        t@ == (if is_prev {
            "No previous file in folder order"@
        } else {
            "No next file in folder order"@
        }),
{
    if is_prev {
        "No previous file in folder order"
    } else {
        "No next file in folder order"
    }
}

/// Tooltip when navigation is enabled but no current file is known.
pub fn nav_tip_open(is_prev: bool) -> (t: &'static str)
    ensures
        t@ == (if is_prev {
            "Open previous in folder order"@
        } else {
            "Open next in folder order"@
        }),
{
    if is_prev {
        "Open previous in folder order"
    } else {
        "Open next in folder order"
    }
}

/// Neutral fallback when the cached sensitivity and a fresh folder walk disagree.
pub fn nav_tip_neutral(is_prev: bool) -> (t: &'static str)
    ensures
        t@ == (if is_prev {
            "Previous in folder order"@
        } else {
            "Next in folder order"@
        }),
{
    if is_prev {
        "Previous in folder order"
    } else {
        "Next in folder order"
    }
}

pub open spec fn spec_nav_target_label(target: Seq<char>, disc_root: Option<Seq<char>>) -> Seq<char> {
    let label_path = match disc_root {
        Some(r) => r,
        None => target,
    };
    match spec_file_name(label_path) {
        Some(n) => if n.len() > 0 {
            n
        } else {
            label_path
        },
        None => label_path,
    }
}

/// Display name of a sibling target: the optical-disc root when the target lies in one (as given
/// by `disc_root`), else the target; its file name, or the whole path when it has none; then
/// humanized by `humanize`, the same title cleanup the window title and continue cards use.
pub fn humanized_nav_target<F: Fn(String) -> String>(target: &str, disc_root: Option<&str>, humanize: F) -> (l:
    String)
    requires
        forall|raw: String| call_requires(humanize, (raw,)),
    ensures
        exists|raw: String|
            raw@ == spec_nav_target_label(
                target@,
                match disc_root {
                    Some(r) => Some(r@),
                    None => None,
                },
            ) && call_ensures(humanize, (raw,), l),
{
    let label_path: &str = match disc_root {
        Some(r) => r,
        None => target,
    };
    let raw = match path_file_name(label_path) {
        Some(n) => {
            if n.unicode_len() > 0 {
                n
            } else {
                label_path.to_owned()
            }
        },
        None => label_path.to_owned(),
    };
    let ghost raw_g = raw;
    let l = humanize(raw);
    assert(call_ensures(humanize, (raw_g,), l));
    l
}

/// Tooltip of the Previous (`is_prev`) or Next button. `can` is the button's sensitivity,
/// `cur_known` whether a current file is known, and `target_label` the display name of the
/// sibling a fresh folder walk found (if any).
pub fn sibling_bar_tooltip(is_prev: bool, can: bool, cur_known: bool, target_label: Option<String>) -> (t:
    String)
    ensures
        t@ == (if !can {
            if is_prev {
                "No previous file in folder order"@
            } else {
                "No next file in folder order"@
            }
        } else if !cur_known {
            if is_prev {
                "Open previous in folder order"@
            } else {
                "Open next in folder order"@
            }
        } else {
            match target_label {
                Some(l) => l@,
                None => if is_prev {
                    "Previous in folder order"@
                } else {
                    "Next in folder order"@
                },
            }
        }),
{
    if !can {
        return nav_tip_unavailable(is_prev).to_owned();
    }
    if !cur_known {
        return nav_tip_open(is_prev).to_owned();
    }
    match target_label {
        Some(l) => l,
        None => nav_tip_neutral(is_prev).to_owned(),
    }
}

/// Cached Previous/Next availability for one canonical path, so the folder is not walked again
/// while the same file plays.
pub struct NavSensitivityCache {
    pub key: Option<String>,
    pub can_prev: bool,
    pub can_next: bool,
}

/// Result of a sensitivity lookup.
#[derive(Clone, PartialEq, Eq, Debug)]
pub enum NavLookup {
    /// Known without a folder walk: (previous, next).
    Known(bool, bool),
    /// Walk the folder for this canonical path, then call [`NavSensitivityCache::store`].
    Walk(String),
}

/// Lookup result for a cache state and the current file.
pub open spec fn spec_nav_lookup(c: NavSensitivityCache, is_file: bool, canonical: Option<String>) -> NavLookup {
    if !is_file || canonical is None {
        NavLookup::Known(false, false)
    } else if c.key is Some && c.key->0@ == canonical->0@ {
        NavLookup::Known(c.can_prev, c.can_next)
    } else {
        NavLookup::Walk(canonical->0)
    }
}

impl NavSensitivityCache {
    pub fn new() -> (c: Self)
        ensures
            c.key is None,
    {
        NavSensitivityCache { key: None, can_prev: false, can_next: false }
    }

    /// Sensitivity for the current file: none for a missing or non-regular file (the cache is
    /// cleared), the cached pair while the canonical path is unchanged, else a walk.
    pub fn nav_sensitivity(&mut self, is_file: bool, canonical: Option<String>) -> (r: NavLookup)
        ensures
            r == spec_nav_lookup(*old(self), is_file, canonical),
            final(self).key == (if !is_file || canonical is None {
                None
            } else {
                old(self).key
            }),
            final(self).can_prev == old(self).can_prev,
            final(self).can_next == old(self).can_next,
    {
        if !is_file {
            self.key = None;
            return NavLookup::Known(false, false);
        }
        let can = match canonical {
            Some(c) => c,
            None => {
                self.key = None;
                return NavLookup::Known(false, false);
            },
        };
        let hit = match &self.key {
            Some(k) => *k == can,
            None => false,
        };
        if hit {
            return NavLookup::Known(self.can_prev, self.can_next);
        }
        NavLookup::Walk(can)
    }

    /// Remember a walk's result for `key`.
    pub fn store(&mut self, key: String, can_prev: bool, can_next: bool)
        ensures
            final(self).key == Some(key),
            final(self).can_prev == can_prev,
            final(self).can_next == can_next,
    {
        self.key = Some(key);
        self.can_prev = can_prev;
        self.can_next = can_next;
    }

    /// Forget the cached path (no current file).
    pub fn clear_nav_sensitivity(&mut self)
        ensures
            final(self).key is None,
    {
        self.key = None;
    }
}

/// A stored walk answers every later lookup of the same path without walking again, until a
/// lookup without a current file clears it.
pub proof fn law_cached_walk_reused(key: String, can_prev: bool, can_next: bool, again: String)
    requires
        again@ == key@,
    ensures
        spec_nav_lookup(
            NavSensitivityCache { key: Some(key), can_prev, can_next },
            true,
            Some(again),
        ) == NavLookup::Known(can_prev, can_next),
        spec_nav_lookup(
            NavSensitivityCache { key: None, can_prev, can_next },
            true,
            Some(again),
        ) == NavLookup::Walk(again),
{
}

/// What a Previous/Next button should show.
pub struct NavButtonUpdate {
    /// New tooltip, when it differs from the one shown.
    pub tooltip: Option<String>,
    pub sensitive: bool,
}

/// Bring one button in line; the tooltip is only set when it changed.
pub fn sync_nav_button(shown_tip: &mut String, can_skip: bool, tip: String) -> (u: NavButtonUpdate)
    ensures
        final(shown_tip)@ == tip@,
        u.sensitive == can_skip,
        u.tooltip == (if old(shown_tip)@ == tip@ {
            None
        } else {
            Some(tip)
        }),
{
    if *shown_tip == tip {
        return NavButtonUpdate { tooltip: None, sensitive: can_skip };
    }
    *shown_tip = tip.clone();
    NavButtonUpdate { tooltip: Some(tip), sensitive: can_skip }
}

/// Tooltip of both buttons while no media is open.
pub fn no_media_tip() -> (t: &'static str)
    ensures
        t@ == "No media"@,
{
    "No media"
}

} // verus!
