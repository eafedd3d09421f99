use rhino_player::volume::{nudge_mpv_volume, sync_volume, sync_volume_max, vol_icon, vol_mute_pop_icon};

#[test]
fn volume_icons() {
    assert_eq!(vol_mute_pop_icon(true), "audio-volume-muted-symbolic");
    assert_eq!(vol_mute_pop_icon(false), "audio-volume-high-symbolic");
    assert_eq!(vol_icon(false, 400), "audio-volume-muted-symbolic");
    assert_eq!(vol_icon(false, 20_000), "audio-volume-low-symbolic");
    assert_eq!(vol_icon(false, 50_000), "audio-volume-medium-symbolic");
    assert_eq!(vol_icon(false, 100_000), "audio-volume-high-symbolic");
    assert_eq!(vol_icon(true, 100_000), "audio-volume-muted-symbolic");
}

#[test]
fn nudge_clamps_and_unmutes() {
    assert_eq!(nudge_mpv_volume(Some(98_000), 5_000, None), (100_000, true));
    assert_eq!(nudge_mpv_volume(Some(98_000), 5_000, Some(130_000)), (103_000, true));
    assert_eq!(nudge_mpv_volume(Some(3_000), -5_000, None), (0, false));
    assert_eq!(nudge_mpv_volume(None, 5_000, None), (5_000, true));
    assert_eq!(nudge_mpv_volume(Some(0), 5_000, Some(200)), (1_000, true));
    assert_eq!(nudge_mpv_volume(Some(0), 400, None), (400, false));
}

#[test]
fn fader_sync() {
    assert_eq!(sync_volume(Some(150_000), 100_000, 0, false), Some(100_000));
    assert_eq!(sync_volume(Some(50_000), 100_000, 50_005, false), None);
    assert_eq!(sync_volume(Some(50_000), 100_000, 0, true), None);
    assert_eq!(sync_volume(None, 100_000, 0, false), None);
    assert_eq!(sync_volume_max(Some(130_000), 100_000), Some(130_000));
    assert_eq!(sync_volume_max(Some(100_000), 100_000), None);
    assert_eq!(sync_volume_max(Some(0), 100_000), None);
    assert_eq!(sync_volume_max(None, 100_000), None);
}
