use screencap::device::{
    audio_catalog, build_audio_catalog, build_video_catalog, device_kind, select_device, str_contains,
    DisplayBounds, MediaDeviceKind, MonitoredDevice,
};
use screencap::error::CaptureError;
use screencap::pipeline::{screen_pipeline_for, CAMERA_PIPELINE};
use screencap::text::decimal_string;

#[test]
fn decimal_strings() {
    assert_eq!(decimal_string(0), "0");
    assert_eq!(decimal_string(7), "7");
    assert_eq!(decimal_string(10), "10");
    assert_eq!(decimal_string(1234), "1234");
    assert_eq!(decimal_string(u64::MAX), u64::MAX.to_string());
}

#[test]
fn contains_finds_runs() {
    assert!(str_contains("Audio/Source", "Audio/Source"));
    assert!(str_contains("xxAudio/Sourcexx", "Audio/Source"));
    assert!(str_contains("abc", ""));
    assert!(!str_contains("", "a"));
    assert!(!str_contains("Audio/Sour", "Audio/Source"));
    assert!(!str_contains("audio/source", "Audio/Source"));
}

#[test]
fn device_classes_are_classified() {
    assert_eq!(device_kind("Audio/Source"), Some(MediaDeviceKind::AudioInput));
    assert_eq!(device_kind("Audio/Sink"), Some(MediaDeviceKind::AudioOutput));
    assert_eq!(device_kind("Video/Source"), Some(MediaDeviceKind::VideoInput));
    assert_eq!(device_kind("Sink/Audio"), None);
    assert_eq!(device_kind(""), None);
}

#[test]
fn video_catalog_without_displays_still_has_camera() {
    let catalog = build_video_catalog(&vec![]);
    assert_eq!(catalog.len(), 1);
    assert_eq!(catalog[0].kind, MediaDeviceKind::VideoInput);
    assert_eq!(catalog[0].label, "FaceTime Camera");
    assert_eq!(catalog[0].setup_pipeline, CAMERA_PIPELINE);
    assert_eq!(catalog[0].pipeline_id, 0);
    assert_eq!(catalog[0].display_index, None);
}

#[test]
fn video_catalog_lists_displays_after_camera() {
    let displays = vec![
        DisplayBounds { width: 1512, height: 982 },
        DisplayBounds { width: 2560, height: 1440 },
    ];
    let catalog = build_video_catalog(&displays);
    assert_eq!(catalog.len(), 3);
    assert_eq!(catalog[1].label, "Display 1 (1512x982)");
    assert_eq!(catalog[2].label, "Display 2 (2560x1440)");
    assert_eq!(catalog[2].pipeline_id, 2);
    assert_eq!(catalog[2].display_index, Some(1));
    assert_eq!(
        catalog[2].setup_pipeline,
        "avfvideosrc capture-screen=true capture-screen-cursor=true device-index=1 ! videoconvert ! video/x-raw,format=RGBA,framerate=60/1 ! queue leaky=downstream max-size-buffers=1 ! appsink name=sink sync=false drop=true max-buffers=1 emit-signals=true"
    );
    assert_eq!(catalog[1].setup_pipeline, screen_pipeline_for(0));
}

fn monitored(class: &str, name: &str, props: bool, id: Option<&str>) -> MonitoredDevice {
    MonitoredDevice {
        class: class.to_string(),
        display_name: name.to_string(),
        has_properties: props,
        device_id: id.map(|s| s.to_string()),
    }
}

#[test]
fn audio_catalog_keeps_microphones_only() {
    let raw = vec![
        monitored("Audio/Sink", "Speakers", true, Some("spk")),
        monitored("Audio/Source", "Built-in Mic", true, Some("42")),
        monitored("Video/Source", "Camera", true, None),
        monitored("Audio/Source", "USB Mic", true, None),
        monitored("Audio/Source", "Bare Mic", false, Some("ignored")),
    ];
    let catalog = build_audio_catalog(&raw);
    assert_eq!(catalog.len(), 3);
    assert_eq!(catalog[0].label, "Built-in Mic");
    assert_eq!(catalog[0].device_id.as_deref(), Some("42"));
    assert_eq!(catalog[0].pipeline_id, 0);
    assert_eq!(catalog[1].label, "USB Mic");
    assert_eq!(catalog[1].device_id.as_deref(), Some("USB Mic"));
    assert_eq!(catalog[1].pipeline_id, 1);
    assert_eq!(catalog[2].device_id, None);
    assert!(catalog.iter().all(|d| d.kind == MediaDeviceKind::AudioInput));
    assert!(catalog.iter().all(|d| d.setup_pipeline.is_empty()));
}

#[test]
fn audio_catalog_falls_back_to_default_microphone() {
    let raw = vec![monitored("Audio/Sink", "Speakers", true, None)];
    let catalog = build_audio_catalog(&raw);
    assert_eq!(catalog.len(), 1);
    assert_eq!(catalog[0].label, "Default Microphone");
    assert_eq!(catalog[0].kind, MediaDeviceKind::AudioInput);
    assert_eq!(catalog[0].device_id, None);
    assert_eq!(build_audio_catalog(&vec![]).len(), 1);
}

#[test]
fn select_device_checks_index() {
    let catalog = build_video_catalog(&vec![DisplayBounds { width: 10, height: 10 }]);
    assert_eq!(select_device(&catalog, 1).unwrap().label, "Display 1 (10x10)");
    assert_eq!(select_device(&catalog, 2).err(), Some(CaptureError::DeviceUnavailable));
}

#[test]
fn failed_enumeration_gives_empty_microphone_list() {
    assert!(audio_catalog(&None).is_empty());
    let empty = audio_catalog(&Some(vec![]));
    assert_eq!(empty.len(), 1);
    assert_eq!(empty[0].label, "Default Microphone");
    let one = audio_catalog(&Some(vec![monitored("Audio/Source", "Mic", false, None)]));
    assert_eq!(one.len(), 1);
    assert_eq!(one[0].label, "Mic");
}
