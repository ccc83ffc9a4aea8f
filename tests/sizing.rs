use screencap::device::{
    build_video_catalog, resolve_dimensions, DisplayBounds, MediaDeviceInfo, MediaDeviceKind,
};
use screencap::pip::snap_pip_size;

#[test]
fn pip_resize_300_snaps_and_clamps_to_minimum() {
    // 300 snaps to 304, 16:9 gives 171, the minimum lifts it to 320x180
    assert_eq!(snap_pip_size(300), (320, 180));
}

#[test]
fn pip_resize_rounds_to_nearest_multiple_of_16() {
    assert_eq!(snap_pip_size(1000), (1008, 567));
    assert_eq!(snap_pip_size(647), (640, 360));
    assert_eq!(snap_pip_size(648), (656, 369));
}

#[test]
fn pip_resize_of_zero_and_largest_width() {
    assert_eq!(snap_pip_size(0), (320, 180));
    let big = u32::MAX;
    let w = (big as u64 + 8) / 16 * 16;
    assert_eq!(snap_pip_size(big), (w, w * 9 / 16));
}

fn display_device(index: usize) -> MediaDeviceInfo {
    let displays = vec![DisplayBounds { width: 1, height: 1 }; index + 1];
    let mut catalog = build_video_catalog(&displays);
    catalog.remove(index + 1)
}

#[test]
fn display_index_out_of_range_falls_back_to_1920x1080() {
    let displays = vec![
        DisplayBounds { width: 2560, height: 1440 },
        DisplayBounds { width: 1440, height: 900 },
    ];
    let d = display_device(5);
    assert_eq!(d.display_index, Some(5));
    assert_eq!(resolve_dimensions(&d, &displays), (1920, 1080));
}

#[test]
fn display_in_range_uses_its_bounds() {
    let displays = vec![
        DisplayBounds { width: 2560, height: 1440 },
        DisplayBounds { width: 1440, height: 900 },
    ];
    let catalog = build_video_catalog(&displays);
    assert_eq!(resolve_dimensions(&catalog[1], &displays), (2560, 1440));
    assert_eq!(resolve_dimensions(&catalog[2], &displays), (1440, 900));
}

#[test]
fn display_with_zero_bounds_falls_back() {
    let displays = vec![DisplayBounds { width: 0, height: 900 }];
    let catalog = build_video_catalog(&displays);
    assert_eq!(resolve_dimensions(&catalog[1], &displays), (1920, 1080));
}

#[test]
fn camera_resolves_to_fixed_size() {
    let catalog = build_video_catalog(&vec![]);
    assert_eq!(catalog[0].kind, MediaDeviceKind::VideoInput);
    assert_eq!(resolve_dimensions(&catalog[0], &vec![]), (1280, 720));
}
