use rhino_player::eof::{
    EofEntry, SiblingAdvance, SiblingEofState, TailFacts, TailOutcome, TailSample,
};

#[test]
fn span_tracks_min_and_max() {
    let mut s = SiblingEofState::new();
    s.note_transport_pos(None);
    s.note_transport_pos(Some(-3));
    assert!(!s.pos_tracked);
    s.note_transport_pos(Some(5_000));
    s.note_transport_pos(Some(2_000));
    s.note_transport_pos(Some(9_000));
    assert_eq!((s.pos_min_ms, s.pos_max_ms), (2_000, 9_000));
    s.reset_playback_span();
    assert!(!s.pos_tracked);
    assert_eq!((s.pos_min_ms, s.pos_max_ms), (0, 0));
}

#[test]
fn resume_near_end_is_not_played_into() {
    let mut s = SiblingEofState::new();
    s.note_transport_pos(Some(59_000));
    s.note_transport_pos(Some(59_500));
    assert!(!s.played_into_tail(60_000, false, 1_750));
    assert!(s.played_into_tail(60_000, true, 1_750));
    s.note_transport_pos(Some(57_000));
    assert!(s.played_into_tail(60_000, false, 1_750));
    assert!(!s.played_into_tail(0, false, 1_750));
}

#[test]
fn one_advance_per_end() {
    let mut s = SiblingEofState::new();
    assert_eq!(s.eof_entry(true, false, false), EofEntry::ResolveTarget);
    assert_eq!(s.eof_entry(true, false, true), EofEntry::QuitAfterCurrent);
    assert_eq!(s.eof_entry(false, false, false), EofEntry::Ignore);
    assert_eq!(s.eof_entry(true, true, false), EofEntry::Ignore);
    let a = s.advance_to_next_sibling(Some("/m/b.mkv".to_string()), false);
    assert_eq!(a, SiblingAdvance::Load("/m/b.mkv".to_string()));
    assert_eq!(s.eof_entry(true, false, false), EofEntry::Ignore);
    s.rearm();
    assert_eq!(s.eof_entry(true, false, false), EofEntry::ResolveTarget);
}

#[test]
fn advance_outcomes() {
    let mut s = SiblingEofState::new();
    assert_eq!(s.advance_to_next_sibling(None, false), SiblingAdvance::DropFinished);
    assert!(s.done);
    s.rearm();
    assert_eq!(s.advance_to_next_sibling(Some("/m/a.mkv".to_string()), true), SiblingAdvance::Nothing);
}

#[test]
fn finished_target_prefers_engine_path() {
    let mut s = SiblingEofState::new();
    assert_eq!(
        s.eof_finished_target(Some("/e.mkv".to_string()), Some("/l.mkv".to_string())),
        Some("/e.mkv".to_string())
    );
    assert!(!s.done);
    assert_eq!(s.eof_finished_target(None, Some("/l.mkv".to_string())), Some("/l.mkv".to_string()));
    assert_eq!(s.eof_finished_target(None, None), None);
    assert!(s.done);
}

fn at(eof: bool, pos: i64, paused: bool, exit_after: bool) -> TailFacts {
    TailFacts {
        player_available: true,
        sample: TailSample { eof_reached: eof, pos: Some(pos), dur_ms: 60_000, paused },
        exit_after_current: exit_after,
        engine_path: Some("/m/a.mkv".to_string()),
        last_path: None,
        next: Some("/m/b.mkv".to_string()),
    }
}

#[test]
fn tail_stall_after_three_polls() {
    let mut s = SiblingEofState::new();
    assert_eq!(s.maybe_advance_sibling_at_tail(at(false, 59_000, false, false)), TailOutcome::NotAtEnd);
    assert_eq!((s.stall_pos_ms, s.stall_count), (59_000, 0));
    assert_eq!(s.maybe_advance_sibling_at_tail(at(false, 59_010, false, false)), TailOutcome::NotAtEnd);
    assert_eq!((s.stall_pos_ms, s.stall_count), (59_000, 1));
    assert_eq!(s.maybe_advance_sibling_at_tail(at(false, 59_010, false, false)), TailOutcome::NotAtEnd);
    assert_eq!(
        s.maybe_advance_sibling_at_tail(at(false, 59_020, false, false)),
        TailOutcome::Advanced(SiblingAdvance::Load("/m/b.mkv".to_string()))
    );
    assert!(s.done);
    // handled once
    assert_eq!(s.maybe_advance_sibling_at_tail(at(false, 59_020, false, false)), TailOutcome::AlreadyHandled);
    // the load failed: re-armed with a fresh run
    s.rearm();
    assert!(!s.done);
    assert_eq!((s.stall_pos_ms, s.stall_count), (0, 0));
}

#[test]
fn tail_stall_paused_or_far_resets() {
    let mut s = SiblingEofState::new();
    assert_eq!(s.maybe_advance_sibling_at_tail(at(false, 10_000, false, false)), TailOutcome::NotAtEnd);
    assert_eq!((s.stall_pos_ms, s.stall_count), (0, 0));
    assert_eq!(s.maybe_advance_sibling_at_tail(at(false, 59_000, true, false)), TailOutcome::NotAtEnd);
    assert_eq!(s.stall_count, 0);
    assert_eq!(s.maybe_advance_sibling_at_tail(at(true, 59_000, false, true)), TailOutcome::QuitAfterCurrent);
    assert!(s.done);
    assert_eq!((s.stall_pos_ms, s.stall_count), (0, 0));
}

#[test]
fn tail_end_without_title_or_player() {
    let mut s = SiblingEofState::new();
    let mut f = at(true, 60_000, false, false);
    f.engine_path = None;
    assert_eq!(s.maybe_advance_sibling_at_tail(f.clone()), TailOutcome::NoTarget);
    assert!(s.done);
    let mut t = SiblingEofState::new();
    f.player_available = false;
    assert_eq!(t.maybe_advance_sibling_at_tail(f), TailOutcome::NoPlayer);
    assert_eq!(t, SiblingEofState::new());
    let mut u = SiblingEofState::new();
    let mut g = at(true, 60_000, false, false);
    g.next = None;
    assert_eq!(u.maybe_advance_sibling_at_tail(g), TailOutcome::Advanced(SiblingAdvance::DropFinished));
}
