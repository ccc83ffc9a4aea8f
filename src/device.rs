use vstd::prelude::*;
use crate::error::CaptureError;
use crate::pipeline::{screen_pipeline, screen_pipeline_for, CAMERA_PIPELINE};
use crate::text::{decimal, push_decimal};

verus! {

/// Label of the built-in camera, the first video source of every catalog.
pub const CAMERA_LABEL: &'static str = "FaceTime Camera";

/// Label of the microphone entry used when no microphone was found.
pub const DEFAULT_MIC_LABEL: &'static str = "Default Microphone";

#[derive(Debug, Clone, Copy, PartialEq, Eq, Structural)]
pub enum MediaDeviceKind {
    AudioInput,
    AudioOutput,
    VideoInput,
}

/// One capture source offered to the user.
#[derive(Debug)]
pub struct MediaDeviceInfo {
    /// Position of the entry in the catalog it belongs to.
    pub pipeline_id: usize,
    pub kind: MediaDeviceKind,
    pub label: String,
    /// Element chain handed to the media engine to capture from this source.
    pub setup_pipeline: String,
    /// Identifier of an audio device, as the engine reported it.
    pub device_id: Option<String>,
    /// Index of the display a screen source captures.
    pub display_index: Option<usize>,
}

/// A device as the engine's device monitor reports it.
pub struct MonitoredDevice {
    /// The engine's device class, such as `Audio/Source`.
    pub class: String,
    pub display_name: String,
    /// Whether the device came with a property set.
    pub has_properties: bool,
    /// The `device.id` property, when the property set holds one.
    pub device_id: Option<String>,
}

/// Pixel bounds of an active display.
#[derive(Debug, Clone, Copy, PartialEq, Eq, Structural)]
pub struct DisplayBounds {
    pub width: u32,
    pub height: u32,
}

/// `needle` occurs in `hay` as a contiguous run.
pub open spec fn seq_contains(hay: Seq<char>, needle: Seq<char>) -> bool {
    exists|k: int|
        0 <= k && k + needle.len() <= hay.len() && #[trigger] hay.subrange(k, k + needle.len())
            == needle
}

/// The kind a device class names; `None` for classes this library does not use.
pub open spec fn kind_of_class(class: Seq<char>) -> Option<MediaDeviceKind> {
    if seq_contains(class, "Audio/Source"@) {
        Some(MediaDeviceKind::AudioInput)
    } else if seq_contains(class, "Audio/Sink"@) {
        Some(MediaDeviceKind::AudioOutput)
    } else if seq_contains(class, "Video/Source"@) {
        Some(MediaDeviceKind::VideoInput)
    } else {
        None
    }
}

pub fn str_contains(hay: &str, needle: &str) -> (r: bool)
    ensures
        r == seq_contains(hay@, needle@),
{
    let n = hay.unicode_len();
    let m = needle.unicode_len();
    if m > n {
        return false;
    }
    let mut i: usize = 0;
    while i <= n - m
        invariant
            n == hay@.len(),
            m == needle@.len(),
            m <= n,
            forall|k: int| 0 <= k < i ==> #[trigger] hay@.subrange(k, k + m) != needle@,
        decreases n - m + 1 - i,
    {
        let mut j: usize = 0;
        let mut same = true;
        while j < m && same
            invariant
                n == hay@.len(),
                m == needle@.len(),
                i + m <= n,
                j <= m,
                same <==> forall|t: int| 0 <= t < j ==> hay@[i + t] == needle@[t],
            decreases m - j,
        {
            if hay.get_char(i + j) != needle.get_char(j) {
                same = false;
            }
            j = j + 1;
        }
        if same {
            assert(hay@.subrange(i as int, i + m) =~= needle@);
            return true;
        }
        assert(hay@.subrange(i as int, i + m) != needle@) by {
            let t = choose|t: int| 0 <= t < j && hay@[i + t] != needle@[t];
            assert(hay@.subrange(i as int, i + m)[t] == hay@[i + t]);
        }
        i = i + 1;
    }
    proof {
        assert forall|k: int|
            0 <= k && k + needle@.len() <= hay@.len() implies #[trigger] hay@.subrange(
            k,
            k + needle@.len(),
        ) != needle@ by {
            assert(k < i);
        }
    }
    false
}

/// Classifies a device by the class string the engine reported.
pub fn device_kind(class: &str) -> (r: Option<MediaDeviceKind>)
    ensures
        r == kind_of_class(class@),
{
    if str_contains(class, "Audio/Source") {
        Some(MediaDeviceKind::AudioInput)
    } else if str_contains(class, "Audio/Sink") {
        Some(MediaDeviceKind::AudioOutput)
    } else if str_contains(class, "Video/Source") {
        Some(MediaDeviceKind::VideoInput)
    } else {
        None
    }
}

pub open spec fn display_label(index: nat, b: DisplayBounds) -> Seq<char> {
    "Display "@ + decimal(index + 1) + " ("@ + decimal(b.width as nat) + "x"@ + decimal(
        b.height as nat,
    ) + ")"@
}

/// Entry `i` of the video catalog built over `displays`: the camera first,
/// then each display in order.
pub open spec fn is_video_entry(d: MediaDeviceInfo, i: int, displays: Seq<DisplayBounds>) -> bool {
    &&& d.pipeline_id == i
    &&& d.kind == MediaDeviceKind::VideoInput
    &&& d.device_id is None
    &&& if i == 0 {
        &&& d.label@ == CAMERA_LABEL@
        &&& d.setup_pipeline@ == CAMERA_PIPELINE@
        &&& d.display_index is None
    } else {
        &&& d.label@ == display_label((i - 1) as nat, displays[i - 1])
        &&& d.setup_pipeline@ == screen_pipeline((i - 1) as nat)
        &&& d.display_index == Some((i - 1) as usize)
    }
}

pub open spec fn is_video_catalog(r: Seq<MediaDeviceInfo>, displays: Seq<DisplayBounds>) -> bool {
    &&& r.len() == displays.len() + 1
    &&& forall|i: int| 0 <= i < r.len() ==> is_video_entry(#[trigger] r[i], i, displays)
}

fn display_label_for(index: usize, b: DisplayBounds) -> (r: String)
    requires
        index < usize::MAX,
    ensures
        r@ == display_label(index as nat, b),
{
    let mut s = String::from_str("Display ");
    push_decimal(&mut s, (index + 1) as u64);
    s.append(" (");
    push_decimal(&mut s, b.width as u64);
    s.append("x");
    push_decimal(&mut s, b.height as u64);
    s.append(")");
    s
}

/// The video sources: the built-in camera, always present, followed by one
/// screen source per active display.
pub fn build_video_catalog(displays: &Vec<DisplayBounds>) -> (r: Vec<MediaDeviceInfo>)
    ensures
        is_video_catalog(r@, displays@),
        r@.len() >= 1,
        r@[0].kind == MediaDeviceKind::VideoInput,
{
    let mut devices: Vec<MediaDeviceInfo> = Vec::new();
    devices.push(
        MediaDeviceInfo {
            pipeline_id: 0,
            kind: MediaDeviceKind::VideoInput,
            label: String::from_str(CAMERA_LABEL),
            setup_pipeline: String::from_str(CAMERA_PIPELINE),
            device_id: None,
            display_index: None,
        },
    );
    let mut i: usize = 0;
    while i < displays.len()
        invariant
            i <= displays@.len(),
            devices@.len() == i + 1,
            forall|k: int| 0 <= k < devices@.len() ==> is_video_entry(#[trigger] devices@[k], k, displays@),
        decreases displays@.len() - i,
    {
        let b = displays[i];
        devices.push(
            MediaDeviceInfo {
                pipeline_id: i + 1,
                kind: MediaDeviceKind::VideoInput,
                label: display_label_for(i, b),
                setup_pipeline: screen_pipeline_for(i as u64),
                device_id: None,
                display_index: Some(i),
            },
        );
        i = i + 1;
    }
    devices
}

/// The devices of `raw` whose class names a microphone, in order.
pub open spec fn audio_sources(raw: Seq<MonitoredDevice>) -> Seq<MonitoredDevice>
    decreases raw.len(),
{
    if raw.len() == 0 {
        Seq::empty()
    } else {
        let rest = audio_sources(raw.drop_last());
        if kind_of_class(raw.last().class@) == Some(MediaDeviceKind::AudioInput) {
            rest.push(raw.last())
        } else {
            rest
        }
    }
}

/// The identifier kept for a microphone: its `device.id` property, else its
/// display name; none when it came without properties.
pub open spec fn audio_device_id(m: MonitoredDevice) -> Option<Seq<char>> {
    if m.has_properties {
        match m.device_id {
            Some(id) => Some(id@),
            None => Some(m.display_name@),
        }
    } else {
        None
    }
}

pub open spec fn opt_string_view(o: Option<String>) -> Option<Seq<char>> {
    match o {
        Some(s) => Some(s@),
        None => None,
    }
}

pub open spec fn is_audio_entry(d: MediaDeviceInfo, i: int, m: MonitoredDevice) -> bool {
    &&& d.pipeline_id == i
    &&& d.kind == MediaDeviceKind::AudioInput
    &&& d.label@ == m.display_name@
    &&& d.setup_pipeline@ == Seq::<char>::empty()
    &&& opt_string_view(d.device_id) == audio_device_id(m)
    &&& d.display_index is None
}

pub open spec fn is_default_mic(d: MediaDeviceInfo) -> bool {
    &&& d.pipeline_id == 0
    &&& d.kind == MediaDeviceKind::AudioInput
    &&& d.label@ == DEFAULT_MIC_LABEL@
    &&& d.setup_pipeline@ == Seq::<char>::empty()
    &&& d.device_id is None
    &&& d.display_index is None
}

pub open spec fn is_audio_catalog(r: Seq<MediaDeviceInfo>, raw: Seq<MonitoredDevice>) -> bool {
    let found = audio_sources(raw);
    if found.len() == 0 {
        r.len() == 1 && is_default_mic(r[0])
    } else {
        &&& r.len() == found.len()
        &&& forall|i: int| 0 <= i < r.len() ==> is_audio_entry(#[trigger] r[i], i, found[i])
    }
}

/// The microphones among the monitored devices; a default entry stands in
/// when there is none.
pub fn build_audio_catalog(raw: &Vec<MonitoredDevice>) -> (r: Vec<MediaDeviceInfo>)
    ensures
        is_audio_catalog(r@, raw@),
        r@.len() >= 1,
{
    let mut devices: Vec<MediaDeviceInfo> = Vec::new();
    let mut i: usize = 0;
    while i < raw.len()
        invariant
            i <= raw@.len(),
            devices@.len() == audio_sources(raw@.subrange(0, i as int)).len(),
            forall|k: int|
                0 <= k < devices@.len() ==> is_audio_entry(
                    #[trigger] devices@[k],
                    k,
                    audio_sources(raw@.subrange(0, i as int))[k],
                ),
        decreases raw@.len() - i,
    {
        let m = &raw[i];
        proof {
            let prefix = raw@.subrange(0, i + 1);
            assert(prefix.drop_last() =~= raw@.subrange(0, i as int));
            assert(prefix.last() == raw@[i as int]);
        }
        if device_kind(m.class.as_str()) == Some(MediaDeviceKind::AudioInput) {
            let device_id = if m.has_properties {
                match &m.device_id {
                    Some(id) => Some(id.clone()),
                    None => Some(m.display_name.clone()),
                }
            } else {
                None
            };
            let pos = devices.len();
            devices.push(
                MediaDeviceInfo {
                    pipeline_id: pos,
                    kind: MediaDeviceKind::AudioInput,
                    label: m.display_name.clone(),
                    setup_pipeline: String::new(),
                    device_id,
                    display_index: None,
                },
            );
        }
        i = i + 1;
    }
    proof {
        assert(raw@.subrange(0, raw@.len() as int) =~= raw@);
    }
    if devices.len() == 0 {
        devices.push(
            MediaDeviceInfo {
                pipeline_id: 0,
                kind: MediaDeviceKind::AudioInput,
                label: String::from_str(DEFAULT_MIC_LABEL),
                setup_pipeline: String::new(),
                device_id: None,
                display_index: None,
            },
        );
    }
    devices
}

/// The microphone catalog from a device monitor listing. `None` stands for
/// an enumeration that failed, which yields an empty catalog; a listing that
/// succeeded yields its microphones, or the default entry when it has none.
pub fn audio_catalog(listing: &Option<Vec<MonitoredDevice>>) -> (r: Vec<MediaDeviceInfo>)
    ensures
        match listing {
            Some(raw) => is_audio_catalog(r@, raw@),
            None => r@.len() == 0,
        },
{
    match listing {
        Some(raw) => build_audio_catalog(raw),
        None => Vec::new(),
    }
}

/// The catalog entry a capture is to be started from.
pub fn select_device(devices: &Vec<MediaDeviceInfo>, index: usize) -> (r: Result<
    &MediaDeviceInfo,
    CaptureError,
>)
    ensures
        index < devices@.len() ==> r == Ok::<&MediaDeviceInfo, CaptureError>(&devices@[index as int]),
        index >= devices@.len() ==> r == Err::<&MediaDeviceInfo, CaptureError>(
            CaptureError::DeviceUnavailable,
        ),
{
    if index < devices.len() {
        Ok(&devices[index])
    } else {
        Err(CaptureError::DeviceUnavailable)
    }
}

/// Size assumed for the built-in camera, which is captured at 1280x720.
pub const CAMERA_WIDTH: i32 = 1280;
pub const CAMERA_HEIGHT: i32 = 720;

/// Size assumed for a display whose bounds are unknown.
pub const DISPLAY_FALLBACK_WIDTH: i32 = 1920;
pub const DISPLAY_FALLBACK_HEIGHT: i32 = 1080;

/// The display's bounds can stand as frame dimensions.
pub open spec fn usable_bounds(b: DisplayBounds) -> bool {
    0 < b.width <= i32::MAX && 0 < b.height <= i32::MAX
}

/// The dimensions a capture of `d` starts from: the camera's fixed size, the
/// bounds of the captured display, or the display fallback when that display
/// is not among `displays` (or reports no usable size).
pub open spec fn resolved_dimensions(d: MediaDeviceInfo, displays: Seq<DisplayBounds>) -> (int, int) {
    match d.display_index {
        None => (CAMERA_WIDTH as int, CAMERA_HEIGHT as int),
        Some(i) => if i < displays.len() && usable_bounds(displays[i as int]) {
            (displays[i as int].width as int, displays[i as int].height as int)
        } else {
            (DISPLAY_FALLBACK_WIDTH as int, DISPLAY_FALLBACK_HEIGHT as int)
        },
    }
}

/// Negotiates the initial frame dimensions of a capture source. Never fails:
/// an unknown display falls back to a fixed size.
pub fn resolve_dimensions(d: &MediaDeviceInfo, displays: &Vec<DisplayBounds>) -> (r: (i32, i32))
    ensures
        (r.0 as int, r.1 as int) == resolved_dimensions(*d, displays@),
        r.0 > 0,
        r.1 > 0,
{
    match d.display_index {
        None => (CAMERA_WIDTH, CAMERA_HEIGHT),
        Some(i) => {
            if i < displays.len() {
                let b = displays[i];
                if 0 < b.width && b.width <= 0x7fff_ffff && 0 < b.height && b.height <= 0x7fff_ffff {
                    return (b.width as i32, b.height as i32);
                }
            }
            (DISPLAY_FALLBACK_WIDTH, DISPLAY_FALLBACK_HEIGHT)
        },
    }
}

} // verus!
