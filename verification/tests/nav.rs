use rhino_player::nav::{
    humanized_nav_target, nav_tip_neutral, nav_tip_open, nav_tip_unavailable, no_media_tip,
    sibling_bar_tooltip, sync_nav_button, NavLookup, NavSensitivityCache,
};

#[test]
fn nav_tooltips() {
    assert_eq!(nav_tip_unavailable(true), "No previous file in folder order");
    assert_eq!(nav_tip_unavailable(false), "No next file in folder order");
    assert_eq!(nav_tip_open(true), "Open previous in folder order");
    assert_eq!(nav_tip_open(false), "Open next in folder order");
    assert_eq!(nav_tip_neutral(true), "Previous in folder order");
    assert_eq!(nav_tip_neutral(false), "Next in folder order");
    assert_eq!(no_media_tip(), "No media");
}

#[test]
fn sibling_tooltip_choice() {
    assert_eq!(sibling_bar_tooltip(true, false, true, Some("x".to_string())), "No previous file in folder order");
    assert_eq!(sibling_bar_tooltip(false, true, false, None), "Open next in folder order");
    assert_eq!(sibling_bar_tooltip(false, true, true, Some("b.mkv".to_string())), "b.mkv");
    assert_eq!(sibling_bar_tooltip(true, true, true, None), "Previous in folder order");
}

#[test]
fn nav_target_label() {
    let same = |s: String| s;
    assert_eq!(humanized_nav_target("/media/show/e02.mkv", None, same), "e02.mkv");
    assert_eq!(humanized_nav_target("/discs/Movie/VIDEO_TS/VTS_01_1.VOB", Some("/discs/Movie"), same), "Movie");
    assert_eq!(humanized_nav_target("/", None, same), "/");
    // the label goes through the title cleanup
    let tidy = |s: String| s.trim_end_matches(".mkv").replace('.', " ");
    assert_eq!(humanized_nav_target("/media/Show.S01E02.mkv", None, tidy), "Show S01E02");
}

#[test]
fn cached_walk_is_reused() {
    let mut c = NavSensitivityCache::new();
    assert_eq!(c.nav_sensitivity(true, Some("/m/a.mkv".to_string())), NavLookup::Walk("/m/a.mkv".to_string()));
    c.store("/m/a.mkv".to_string(), false, true);
    assert_eq!(c.nav_sensitivity(true, Some("/m/a.mkv".to_string())), NavLookup::Known(false, true));
    assert_eq!(c.nav_sensitivity(true, Some("/m/b.mkv".to_string())), NavLookup::Walk("/m/b.mkv".to_string()));
    assert_eq!(c.nav_sensitivity(false, Some("/m/a.mkv".to_string())), NavLookup::Known(false, false));
    assert_eq!(c.key, None);
    c.store("/m/a.mkv".to_string(), true, true);
    c.clear_nav_sensitivity();
    assert_eq!(c.nav_sensitivity(true, Some("/m/a.mkv".to_string())), NavLookup::Walk("/m/a.mkv".to_string()));
}

#[test]
fn nav_button_sets_changed_tooltip_only() {
    let mut shown = String::new();
    let u = sync_nav_button(&mut shown, true, "a.mkv".to_string());
    assert_eq!(u.tooltip, Some("a.mkv".to_string()));
    assert!(u.sensitive);
    assert_eq!(shown, "a.mkv");
    let u = sync_nav_button(&mut shown, false, "a.mkv".to_string());
    assert_eq!(u.tooltip, None);
    assert!(!u.sensitive);
}
