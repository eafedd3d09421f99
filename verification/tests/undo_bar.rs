use rhino_player::undo::{set_undo_tooltip, DismissTimer, UndoBar, UndoKind, UndoStep};

fn step(kind: UndoKind, path: &str, id: u32) -> UndoStep<u32> {
    UndoStep { kind, path: path.to_string(), name_is_utf8: true, payload: id }
}

#[test]
fn empty_bar_is_hidden() {
    let bar: UndoBar<u32> = UndoBar::new();
    let v = bar.sync_undo_bar();
    assert!(!v.visible);
    assert_eq!(v.label, "");
    assert_eq!(v.tooltip, None);
}

#[test]
fn bar_names_newest_step() {
    let mut bar = UndoBar::new();
    assert_eq!(bar.record(step(UndoKind::ListRemove, "/v/a.mkv", 1)), DismissTimer::Restarted);
    let v = bar.sync_undo_bar();
    assert!(v.visible);
    assert_eq!(v.label, "\u{201c}a.mkv\u{201d} removed from list");
    assert_eq!(
        v.tooltip.as_deref(),
        Some("Restore to the list (and from Trash if that was the last action)")
    );
    bar.record(step(UndoKind::Trash, "/v/b.mp4", 2));
    bar.record(step(UndoKind::ListRemove, "/v/c.mp4", 3));
    let v = bar.sync_undo_bar();
    assert_eq!(v.tooltip.as_deref(), Some("Undo newest first \u{2014} 3 steps left"));
    bar.dismiss_top_undo_step();
    let v = bar.sync_undo_bar();
    assert_eq!(v.label, "\u{201c}b.mp4\u{201d} moved to Trash");
    assert_eq!(v.tooltip.as_deref(), Some("Undo newest first \u{2014} 2 steps left"));
}

#[test]
fn non_utf8_name_shows_file() {
    let mut bar = UndoBar::new();
    bar.record(UndoStep { kind: UndoKind::Trash, path: "/v/\u{fffd}.mkv".to_string(), name_is_utf8: false, payload: 0u8 });
    assert_eq!(bar.sync_undo_bar().label, "\u{201c}file\u{201d} moved to Trash");
    let mut bar2 = UndoBar::new();
    bar2.record(UndoStep { kind: UndoKind::ListRemove, path: "/".to_string(), name_is_utf8: true, payload: 0u8 });
    assert_eq!(bar2.sync_undo_bar().label, "\u{201c}file\u{201d} removed from list");
}

#[test]
fn undo_is_lifo_and_failed_undo_restores() {
    let mut bar = UndoBar::new();
    bar.record(step(UndoKind::ListRemove, "/v/a.mkv", 1));
    bar.record(step(UndoKind::Trash, "/v/b.mkv", 2));
    let (s, t) = bar.take_for_undo();
    assert_eq!(t, DismissTimer::Stopped);
    let s = s.unwrap();
    assert_eq!(s.payload, 2);
    assert_eq!(bar.len(), 1);
    assert_eq!(bar.undo_failed(s), DismissTimer::Stopped);
    assert_eq!(bar.len(), 2);
    let (s, _) = bar.take_for_undo();
    assert_eq!(s.unwrap().payload, 2);
    assert_eq!(bar.undo_succeeded(), DismissTimer::Restarted);
    let (s, _) = bar.take_for_undo();
    assert_eq!(s.unwrap().payload, 1);
    assert_eq!(bar.undo_succeeded(), DismissTimer::Stopped);
    assert!(bar.take_for_undo().0.is_none());
}

#[test]
fn dismiss_drops_only_top() {
    let mut bar = UndoBar::new();
    assert_eq!(bar.dismiss_top_undo_step(), (false, DismissTimer::Stopped));
    bar.record(step(UndoKind::ListRemove, "/v/a.mkv", 1));
    bar.record(step(UndoKind::ListRemove, "/v/b.mkv", 2));
    assert_eq!(bar.dismiss_top_undo_step(), (true, DismissTimer::Restarted));
    assert_eq!(bar.len(), 1);
    assert_eq!(bar.dismiss_top_undo_step(), (true, DismissTimer::Stopped));
    assert_eq!(bar.len(), 0);
}

#[test]
fn leaving_for_browse_clears_when_asked() {
    let mut bar = UndoBar::new();
    bar.record(step(UndoKind::ListRemove, "/v/a.mkv", 1));
    assert_eq!(bar.leave_for_browse(false), DismissTimer::Stopped);
    assert_eq!(bar.len(), 1);
    bar.leave_for_browse(true);
    assert_eq!(bar.len(), 0);
    assert!(!bar.sync_undo_bar().visible);
}

#[test]
fn trash_without_found_copy_records_nothing() {
    let mut bar: UndoBar<u32> = UndoBar::new();
    assert_eq!(bar.push_card_trash_undo(None), None);
    assert_eq!(bar.len(), 0);
    assert_eq!(
        bar.push_card_trash_undo(Some(step(UndoKind::Trash, "/v/t.mkv", 9))),
        Some(DismissTimer::Restarted)
    );
    assert_eq!(bar.len(), 1);
    assert_eq!(bar.remove_card_action(None), None);
    assert_eq!(bar.remove_card_action(Some(step(UndoKind::ListRemove, "/v/r.mkv", 10))), Some(DismissTimer::Restarted));
    assert_eq!(bar.sync_undo_bar().label, "\u{201c}r.mkv\u{201d} removed from list");
}

#[test]
fn tooltip_text_for_any_count() {
    assert_eq!(set_undo_tooltip(0), "Undo newest first \u{2014} 0 steps left");
    assert_eq!(
        set_undo_tooltip(1),
        "Restore to the list (and from Trash if that was the last action)"
    );
    assert_eq!(set_undo_tooltip(12), "Undo newest first \u{2014} 12 steps left");
}
