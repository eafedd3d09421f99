use rhino_player::eof::SiblingEofState;
use rhino_player::undo::{DismissTimer, UndoBar, UndoKind, UndoStep};
use rhino_player::load::{
    commit_compact_load,
    back_to_browse, cold_load_into_player, drop_finished_prev, fail_open, finish_warm_hit,
    load_as_warm_hit, open_picked_path, picked_load_opts, replace_media, reset_vf_for_entity_change,
    reveal_ui_after_load, sibling_reload_opts, try_load, try_load_plan, LoadFlags, PickedOpen,
    WarmHit,
};

fn preload() -> LoadFlags {
    LoadFlags { record: false, play_on_start: false, reset_speed_to_normal: false, warm_preload: true }
}

#[test]
fn load_option_presets() {
    let f = sibling_reload_opts();
    assert!(f.record && f.play_on_start && f.reset_speed_to_normal && !f.warm_preload);
    let f = picked_load_opts();
    assert!(f.record && f.play_on_start && !f.reset_speed_to_normal && !f.warm_preload);
    let f = replace_media(false, false);
    assert!(f.record && !f.play_on_start);
}

#[test]
fn load_plan_per_options() {
    let p = try_load_plan(picked_load_opts(), true);
    assert!(p.preflight && p.claim_playback && p.record_history && p.smooth_resync_after_reveal);
    let p = try_load_plan(preload(), true);
    assert!(!p.preflight && !p.claim_playback && !p.record_history && !p.smooth_resync_after_reveal);
}

#[test]
fn warm_hit_rules() {
    assert_eq!(load_as_warm_hit(true, true, true, true), WarmHit::Hit { entity_change: true });
    assert_eq!(load_as_warm_hit(true, false, true, false), WarmHit::Cold);
    assert_eq!(load_as_warm_hit(false, true, true, false), WarmHit::Cold);
    assert_eq!(finish_warm_hit(true), (true, false));
    assert_eq!(finish_warm_hit(false), (false, true));
    assert!(reset_vf_for_entity_change(true));
}

#[test]
fn preload_keeps_outgoing_title() {
    let p = cold_load_into_player(preload(), true, Some(false), true, true);
    assert!(!p.drop_prev);
    assert!(!p.snapshot_outgoing);
    assert!(p.skip_media_persist);
    assert!(p.clear_resume);
    let p = cold_load_into_player(picked_load_opts(), true, Some(true), true, false);
    assert!(p.drop_prev && p.snapshot_outgoing && !p.clear_resume && !p.skip_media_persist);
    assert!(!drop_finished_prev(true, true));
}

#[test]
fn failure_and_reveal() {
    assert_eq!(fail_open(true, true), (true, true));
    assert_eq!(fail_open(false, true), (false, false));
    let r = reveal_ui_after_load(true, true);
    assert!(r.delayed_warm && !r.hide_grid_now && r.start_playback);
    let r = reveal_ui_after_load(false, true);
    assert!(!r.delayed_warm && r.hide_grid_now);
}

#[test]
fn browse_plan() {
    let mut undo: UndoBar<u8> = UndoBar::new();
    undo.record(UndoStep { kind: UndoKind::ListRemove, path: "/a.mkv".to_string(), name_is_utf8: true, payload: 1 });
    let mut eof = SiblingEofState::new();
    eof.advance_to_next_sibling(None, false);
    let p = back_to_browse(&mut undo, &mut eof, false, false, Some("/w.mkv".to_string()), 0, false);
    assert!(!p.show_strip && !p.keep_warm_and_refill && p.stop_on_idle && !p.save_and_pause);
    assert_eq!(p.last_path, None);
    assert_eq!(p.undo_timer, DismissTimer::Stopped);
    assert_eq!(undo.len(), 1);
    assert!(!eof.done);
    let p = back_to_browse(&mut undo, &mut eof, true, true, Some("/w.mkv".to_string()), 3, false);
    assert!(p.show_strip && p.keep_warm_and_refill && !p.stop_on_idle && p.save_and_pause);
    assert_eq!(p.last_path, Some("/w.mkv".to_string()));
    assert_eq!(undo.len(), 0);
    let p = back_to_browse(&mut undo, &mut eof, true, true, None, 0, true);
    assert!(p.show_strip);
}

#[test]
fn picked_path() {
    assert_eq!(open_picked_path(None, true), PickedOpen::Nothing);
    assert_eq!(open_picked_path(Some("/x.txt".to_string()), false), PickedOpen::Unreadable);
    assert_eq!(open_picked_path(Some("/x.mkv".to_string()), true), PickedOpen::Load("/x.mkv".to_string()));
}

#[test]
fn compact_load_needs_player() {
    assert_eq!(
        try_load(false, false, false, false, false, false, false, true, true).unwrap_err(),
        "Player not ready. Wait for GL init."
    );
    let p = try_load(true, true, true, false, true, true, true, false, true).unwrap();
    assert!(p.warm_hit && p.delayed_warm && !p.unpause_now && !p.run_on_loaded && !p.clear_outgoing_resume);
    assert!(!p.hide_grid_now && !p.record_history && p.set_last_path_and_title);
    let p = try_load(true, false, false, true, true, true, true, true, true).unwrap();
    assert!(!p.warm_hit && p.clear_outgoing_resume && p.drop_prev && p.reapply_video && p.unpause_now && p.run_on_loaded);
    assert!(p.hide_grid_now && p.record_history);
    let p = try_load(true, true, true, false, false, false, false, true, false).unwrap();
    assert!(p.warm_hit && p.hide_grid_now && !p.delayed_warm);
}

#[test]
fn failed_loadfile_is_the_result() {
    let cold = try_load(true, false, false, true, true, true, true, true, true).unwrap();
    assert_eq!(commit_compact_load(cold, Err("no such file".to_string())), Err("no such file".to_string()));
    assert_eq!(commit_compact_load(cold, Ok(())), Ok(cold));
    let warm = try_load(true, true, true, false, false, false, false, true, true).unwrap();
    assert_eq!(commit_compact_load(warm, Err("ignored".to_string())), Ok(warm));
}
