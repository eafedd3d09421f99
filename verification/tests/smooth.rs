use rhino_player::smooth::{
    schedule_smooth_vf_attach_after_delay, smooth_attach_fire, smooth_turned_off, AttachSchedule,
    SmoothFacts,
};

fn facts() -> SmoothFacts {
    SmoothFacts { smooth_60: true, has_open_media: true, paused: false, eligible: true, has_filter: false }
}

fn schedule(ready: bool, f: SmoothFacts, path: Option<&str>, stamp: &mut Option<u64>) -> AttachSchedule {
    schedule_smooth_vf_attach_after_delay(ready, f, path, 10_000, 1_500, stamp)
}

#[test]
fn schedule_decisions() {
    let mut stamp = None;
    assert_eq!(schedule(false, facts(), Some("/a.mkv"), &mut stamp), AttachSchedule::Skip);
    assert_eq!(stamp, None);
    assert_eq!(
        schedule(true, facts(), Some("/a.mkv"), &mut stamp),
        AttachSchedule::Schedule { path: "/a.mkv".to_string(), not_before_ms: 11_500 }
    );
    assert_eq!(stamp, Some(11_500));
    let mut stamp = Some(7);
    assert_eq!(
        schedule(true, SmoothFacts { has_filter: true, ..facts() }, Some("/a.mkv"), &mut stamp),
        AttachSchedule::AlreadyAttached
    );
    assert_eq!(schedule(true, SmoothFacts { paused: true, ..facts() }, Some("/a.mkv"), &mut stamp), AttachSchedule::Skip);
    assert_eq!(schedule(true, facts(), Some("   "), &mut stamp), AttachSchedule::Skip);
    assert_eq!(schedule(true, facts(), None, &mut stamp), AttachSchedule::Skip);
    assert_eq!(
        schedule(true, SmoothFacts { smooth_60: false, ..facts() }, Some("/a.mkv"), &mut stamp),
        AttachSchedule::Skip
    );
    assert_eq!(stamp, Some(7));
}

#[test]
fn attach_fire_checks_same_media() {
    let mut stamp = Some(11_500);
    assert!(smooth_attach_fire(true, false, "/a.mkv", "/a.mkv", facts(), &mut stamp));
    assert_eq!(stamp, None);
    let mut stamp = Some(11_500);
    assert!(!smooth_attach_fire(true, false, "/b.mkv", "/a.mkv", facts(), &mut stamp));
    assert_eq!(stamp, None);
    let mut stamp = Some(11_500);
    assert!(!smooth_attach_fire(true, true, "/a.mkv", "/a.mkv", facts(), &mut stamp));
    assert_eq!(stamp, None);
    let mut stamp = Some(11_500);
    assert!(!smooth_attach_fire(false, false, "/a.mkv", "/a.mkv", facts(), &mut stamp));
    assert_eq!(stamp, Some(11_500));
    let mut stamp = None;
    assert!(!smooth_attach_fire(true, false, "/a.mkv", "/a.mkv", SmoothFacts { has_filter: true, ..facts() }, &mut stamp));
    assert!(smooth_turned_off(false, true));
    assert!(!smooth_turned_off(false, false));
}
