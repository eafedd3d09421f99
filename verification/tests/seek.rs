use rhino_player::seek::{
    arrow_seek_pos_len, finite_nonneg, latch_arrow_burst_pause, release_seek_time,
    seek_arrow_step, seek_bar_event, seek_burst_tail_fire, seek_keyframes_after_command,
    seek_value_changed, SeekBarEvent, SeekKeyframeKind, SeekTail, ValueChange,
};

#[test]
fn arrow_burst_pauses_then_resumes() {
    let mut latch = false;
    // first seek while playing
    assert!(latch_arrow_burst_pause(SeekKeyframeKind::ArrowBurst, false, &mut latch));
    assert!(latch);
    // later seeks see the title paused
    assert!(!latch_arrow_burst_pause(SeekKeyframeKind::ArrowBurst, true, &mut latch));
    assert!(latch);
    assert_eq!(seek_keyframes_after_command(SeekKeyframeKind::ArrowBurst, latch, true, false), SeekTail::BurstTail);
    assert!(seek_burst_tail_fire(&mut latch));
    assert!(!latch);
    assert!(!seek_burst_tail_fire(&mut latch));
}

#[test]
fn arrow_burst_over_paused_title_stays_paused() {
    let mut latch = false;
    assert!(!latch_arrow_burst_pause(SeekKeyframeKind::ArrowBurst, true, &mut latch));
    assert!(!latch_arrow_burst_pause(SeekKeyframeKind::ArrowBurst, true, &mut latch));
    assert!(!latch);
    assert_eq!(seek_keyframes_after_command(SeekKeyframeKind::ArrowBurst, latch, true, false), SeekTail::NoTail);
}

#[test]
fn bar_seek_leaves_pause_alone() {
    let mut latch = false;
    assert!(!latch_arrow_burst_pause(SeekKeyframeKind::ScaleOrExternal, false, &mut latch));
    assert!(!latch);
    assert_eq!(
        seek_keyframes_after_command(SeekKeyframeKind::ScaleOrExternal, false, false, true),
        SeekTail::SmoothOnlyTail
    );
    assert_eq!(
        seek_keyframes_after_command(SeekKeyframeKind::ScaleOrExternal, false, true, true),
        SeekTail::NoTail
    );
}

#[test]
fn arrow_seek_bounds() {
    assert_eq!(finite_nonneg(None), 0);
    assert_eq!(finite_nonneg(Some(-4)), 0);
    assert_eq!(finite_nonneg(Some(4)), 4);
    assert_eq!(arrow_seek_pos_len(Some(3_000), Some(60_000), Some(59_000)), Some((3_000, 59_000)));
    assert_eq!(arrow_seek_pos_len(Some(3_000), Some(60_000), None), Some((3_000, 60_000)));
    assert_eq!(arrow_seek_pos_len(None, None, Some(0)), None);
    assert_eq!(seek_arrow_step(3_000, 60_000, -5_000), 0);
    assert_eq!(seek_arrow_step(58_000, 60_000, 5_000), 60_000);
    assert_eq!(seek_arrow_step(10_000, 60_000, 5_000), 15_000);
}

#[test]
fn release_time_choice() {
    assert_eq!(release_seek_time(true, 7_000, Some(1_000), 2_000, 10_000), 7_000);
    assert_eq!(release_seek_time(false, 7_000, Some(1_000), 2_000, 10_000), 1_000);
    assert_eq!(release_seek_time(false, 7_000, None, 12_000, 10_000), 10_000);
    assert_eq!(release_seek_time(false, 7_000, None, 12_000, 0), 0);
}

#[test]
fn grab_and_release() {
    let mut g = false;
    assert!(!seek_bar_event(&mut g, SeekBarEvent::ButtonPress(false)));
    assert!(!g);
    assert!(!seek_bar_event(&mut g, SeekBarEvent::Release));
    assert!(!seek_bar_event(&mut g, SeekBarEvent::ButtonPress(true)));
    assert!(g);
    assert!(seek_bar_event(&mut g, SeekBarEvent::Release));
    assert!(!g);
    assert!(!seek_bar_event(&mut g, SeekBarEvent::TouchBegin));
    assert!(g);
    assert!(!seek_bar_event(&mut g, SeekBarEvent::Other));
    assert!(g);
}

#[test]
fn value_change_routes() {
    assert_eq!(seek_value_changed(true, false, false, 0, Some(5), 6), ValueChange::Ignore);
    assert_eq!(seek_value_changed(false, true, true, 9, Some(5), 6), ValueChange::LabelOnly(9));
    assert_eq!(seek_value_changed(false, true, false, 9, Some(5), 6), ValueChange::LabelOnly(5));
    assert_eq!(seek_value_changed(false, false, true, 9, None, 6), ValueChange::LabelAndSeek(6));
}
