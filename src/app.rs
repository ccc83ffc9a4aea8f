use vstd::prelude::*;
use crate::device::{
    resolve_dimensions,
    resolved_dimensions,
    DisplayBounds,
    MediaDeviceInfo,
    CAMERA_HEIGHT,
    CAMERA_LABEL,
    CAMERA_WIDTH,
    DEFAULT_MIC_LABEL,
};
use crate::error::CaptureError;
use crate::frame::{delivery, FrameBuffer, FrameView};
use crate::pip::{pip_size_for, snap_pip_size, PIP_MIN_HEIGHT, PIP_MIN_WIDTH};
use crate::pipeline::PIP_CAPTURE_PIPELINE;
use crate::recording::{
    is_job_of,
    is_recording_plan,
    job_for,
    local_timestamp,
    plan_recording,
    restart_stamp,
    restart_stamp_for,
    RecordingJob,
    RecordingPlan,
};

verus! {

/// State of the main capture slot.
#[derive(Debug, Clone, Copy, PartialEq, Eq, Structural)]
pub enum CaptureState {
    /// A capture session runs and feeds the main frame buffer.
    Playing,
    /// The session was stopped; its source is released.
    Stopped,
    /// No session could be brought up; the slot is empty.
    Failed,
}

/// Which frame buffer a delivery or a read is about.
#[derive(Debug, Clone, Copy, PartialEq, Eq, Structural)]
pub enum Slot {
    Main,
    Pip,
}

/// What the caller has to do with the picture-in-picture capture.
pub enum PipAction {
    /// Tear the running capture down, releasing the camera.
    TearDown,
    /// Bring up a capture from `description`, its output caps set to the size.
    Launch { description: String, width: u64, height: u64 },
}

/// A recording restarted because its audio configuration changed: the job to
/// finalize and the plan of its successor.
pub struct RecordingRestart {
    pub finished: RecordingJob,
    pub next: RecordingPlan,
}

/// Result of the record shortcut.
pub enum RecordingToggle {
    Stopped(RecordingJob),
    Started(RecordingPlan),
}

/// What an orderly exit has to tear down.
pub struct ShutdownPlan {
    pub recording: Option<RecordingJob>,
    pub stop_pip: bool,
    pub stop_main: bool,
}

/// The abstract state of the orchestration object.
pub struct AppView {
    pub frame: FrameView,
    pub pip_frame: FrameView,
    pub capture: CaptureState,
    pub recording: Option<RecordingJob>,
    pub mic_enabled: bool,
    pub show_pip: bool,
    pub pip_size: (u64, u64),
    pub device_idx: Option<usize>,
    pub mic_idx: Option<usize>,
    pub video_devices: Seq<MediaDeviceInfo>,
    pub audio_devices: Seq<MediaDeviceInfo>,
}

/// The frame buffer a slot that holds no frame yet starts with.
pub open spec fn inert_frame() -> FrameView {
    FrameView { pixels: None, width: CAMERA_WIDTH as int, height: CAMERA_HEIGHT as int }
}

pub open spec fn fresh_frame(dims: (int, int)) -> FrameView {
    FrameView { pixels: None, width: dims.0, height: dims.1 }
}

/// The frame dimensions a recording started in state `s` announces.
pub open spec fn main_dims(s: AppView) -> (i32, i32) {
    (s.frame.width as i32, s.frame.height as i32)
}

pub open spec fn pip_dims(s: AppView) -> Option<(i32, i32)> {
    if s.show_pip {
        Some((s.pip_frame.width as i32, s.pip_frame.height as i32))
    } else {
        None
    }
}

/// State after the main capture is stopped.
pub open spec fn after_stop_capture(s: AppView) -> AppView {
    if s.capture == CaptureState::Playing {
        AppView { capture: CaptureState::Stopped, ..s }
    } else {
        s
    }
}

/// State after the recording is stopped.
pub open spec fn after_stop_recording(s: AppView) -> AppView {
    AppView { recording: None, ..s }
}

/// State after the picture-in-picture capture is torn down.
pub open spec fn after_pip_teardown(s: AppView) -> AppView {
    if s.show_pip {
        AppView { show_pip: false, pip_frame: FrameView { pixels: None, width: 0, height: 0 }, ..s }
    } else {
        s
    }
}

/// `t` is state `s` with a recording started at `timestamp` from plan `p`.
pub open spec fn is_recording_start(p: RecordingPlan, s: AppView, t: AppView, timestamp: Seq<char>) -> bool {
    &&& is_recording_plan(p, timestamp, main_dims(s), pip_dims(s), s.mic_enabled)
    &&& t.recording matches Some(j) && is_job_of(j, p)
    &&& t == (AppView { recording: t.recording, ..s })
}

/// Plan `p` writes to none of the files of job `j`.
pub open spec fn writes_new_files(p: RecordingPlan, j: RecordingJob) -> bool {
    &&& p.main.path@ != j.main_path@
    &&& match (p.pip, j.pip_path) {
        (Some(t), Some(q)) => t.path@ != q@,
        _ => true,
    }
}

/// From state `s`, a running recording is stopped and started again,
/// reporting it in `r` and leaving state `t`; without a recording nothing
/// happens. The new recording is named after `timestamp`, marked where needed
/// so that it writes to none of the finished recording's files.
pub open spec fn is_restart(
    r: Option<RecordingRestart>,
    s: AppView,
    t: AppView,
    timestamp: Seq<char>,
) -> bool {
    match s.recording {
        None => r is None && t == s,
        Some(j) => {
            &&& r matches Some(x) && x.finished == j && is_recording_start(
                x.next,
                s,
                t,
                restart_stamp(timestamp, j),
            ) && writes_new_files(x.next, j)
        },
    }
}

pub open spec fn with_mic_enabled(s: AppView, enabled: bool) -> AppView {
    AppView { mic_enabled: enabled, ..s }
}

pub open spec fn with_mic_idx(s: AppView, index: usize) -> AppView {
    AppView { mic_idx: Some(index), ..s }
}

/// `a` asks for a picture-in-picture capture at the minimum overlay size.
pub open spec fn is_pip_launch(a: PipAction) -> bool {
    &&& a matches PipAction::Launch { description, width, height } && description@
        == PIP_CAPTURE_PIPELINE@ && width == PIP_MIN_WIDTH && height == PIP_MIN_HEIGHT
}

/// Label of the current video source; the camera's when none is selected.
pub open spec fn device_label(s: AppView) -> Seq<char> {
    match s.device_idx {
        Some(i) => if i < s.video_devices.len() {
            s.video_devices[i as int].label@
        } else {
            CAMERA_LABEL@
        },
        None => CAMERA_LABEL@,
    }
}

/// Label of the current microphone; the default one's when none is selected.
pub open spec fn mic_label(s: AppView) -> Seq<char> {
    match s.mic_idx {
        Some(i) => if i < s.audio_devices.len() {
            s.audio_devices[i as int].label@
        } else {
            DEFAULT_MIC_LABEL@
        },
        None => DEFAULT_MIC_LABEL@,
    }
}

pub open spec fn slot_frame(s: AppView, slot: Slot) -> FrameView {
    match slot {
        Slot::Main => s.frame,
        Slot::Pip => s.pip_frame,
    }
}

pub open spec fn with_slot_frame(s: AppView, slot: Slot, f: FrameView) -> AppView {
    match slot {
        Slot::Main => AppView { frame: f, ..s },
        Slot::Pip => AppView { pip_frame: f, ..s },
    }
}

/// Orchestrates the main capture, the optional picture-in-picture capture and
/// the recording that feeds on both.
///
/// The media pipelines themselves are run by the caller; this object decides
/// what to start and stop, keeps the latest frames, and enforces that a slot's
/// session is stopped before another replaces it.
pub struct ScreenCapApp {
    frame: FrameBuffer,
    pip_frame: FrameBuffer,
    capture: CaptureState,
    recording: Option<RecordingJob>,
    is_mic_enabled: bool,
    show_pip: bool,
    pip_size: (u64, u64),
    current_device_idx: Option<usize>,
    current_mic_idx: Option<usize>,
    audio_devices: Vec<MediaDeviceInfo>,
    video_devices: Vec<MediaDeviceInfo>,
}

impl View for ScreenCapApp {
    type V = AppView;

    closed spec fn view(&self) -> AppView {
        AppView {
            frame: self.frame@,
            pip_frame: self.pip_frame@,
            capture: self.capture,
            recording: self.recording,
            mic_enabled: self.is_mic_enabled,
            show_pip: self.show_pip,
            pip_size: self.pip_size,
            device_idx: self.current_device_idx,
            mic_idx: self.current_mic_idx,
            video_devices: self.video_devices@,
            audio_devices: self.audio_devices@,
        }
    }
}

impl ScreenCapApp {
    /// Sets up the application state once the first capture was attempted
    /// from entry 0 of `video_devices`. When it failed (or there is no such
    /// entry) the slot is left empty with an inert frame buffer, so that the
    /// rest of the application can run without video input; the catalog is
    /// kept either way, so another source can still be chosen.
    pub fn new(
        audio_devices: Vec<MediaDeviceInfo>,
        video_devices: Vec<MediaDeviceInfo>,
        displays: &Vec<DisplayBounds>,
        started: Result<(), CaptureError>,
    ) -> (r: ScreenCapApp)
        ensures
            r@.recording is None,
            r@.mic_enabled,
            !r@.show_pip,
            r@.pip_frame == (FrameView { pixels: None, width: 0, height: 0 }),
            r@.pip_size == (PIP_MIN_WIDTH, PIP_MIN_HEIGHT),
            r@.device_idx == Some(0usize),
            r@.audio_devices == audio_devices@,
            r@.video_devices == video_devices@,
            started is Ok && video_devices@.len() > 0 ==> {
                &&& r@.capture == CaptureState::Playing
                &&& r@.frame == fresh_frame(resolved_dimensions(video_devices@[0], displays@))
                &&& r@.mic_idx == if audio_devices@.len() > 0 {
                    Some(0usize)
                } else {
                    None
                }
            },
            !(started is Ok && video_devices@.len() > 0) ==> {
                &&& r@.capture == CaptureState::Failed
                &&& r@.frame == inert_frame()
                &&& r@.mic_idx is None
            },
    {
        let ok = started.is_ok() && video_devices.len() > 0;
        if ok {
            let dims = resolve_dimensions(&video_devices[0], displays);
            let current_mic_idx = if audio_devices.len() > 0 {
                Some(0)
            } else {
                None
            };
            ScreenCapApp {
                frame: FrameBuffer::with_dimensions(dims.0, dims.1),
                pip_frame: FrameBuffer::empty(),
                capture: CaptureState::Playing,
                recording: None,
                is_mic_enabled: true,
                show_pip: false,
                pip_size: (PIP_MIN_WIDTH, PIP_MIN_HEIGHT),
                current_device_idx: Some(0),
                current_mic_idx,
                audio_devices,
                video_devices,
            }
        } else {
            ScreenCapApp {
                frame: FrameBuffer::with_dimensions(CAMERA_WIDTH, CAMERA_HEIGHT),
                pip_frame: FrameBuffer::empty(),
                capture: CaptureState::Failed,
                recording: None,
                is_mic_enabled: true,
                show_pip: false,
                pip_size: (PIP_MIN_WIDTH, PIP_MIN_HEIGHT),
                current_device_idx: Some(0),
                current_mic_idx: None,
                audio_devices,
                video_devices,
            }
        }
    }

    /// Stops the main capture session. Returns whether one was running, that
    /// is whether its pipeline has to be brought to the null state; stopping
    /// a stopped or empty slot does nothing.
    pub fn stop_capture(&mut self) -> (was_playing: bool)
        ensures
            was_playing == (old(self)@.capture == CaptureState::Playing),
            final(self)@ == after_stop_capture(old(self)@),
    {
        if self.capture == CaptureState::Playing {
            self.capture = CaptureState::Stopped;
            true
        } else {
            false
        }
    }

    /// Installs the capture session started from entry `index` of the fresh
    /// catalog `devices`, once the caller has tried to bring it up. Either the
    /// session, its frame buffer and its negotiated dimensions all replace the
    /// old ones, or the slot is left empty and the error returned.
    pub fn switch_source(
        &mut self,
        index: usize,
        devices: Vec<MediaDeviceInfo>,
        displays: &Vec<DisplayBounds>,
        started: Result<(), CaptureError>,
    ) -> (r: Result<(), CaptureError>)
        requires
            old(self)@.capture != CaptureState::Playing,
        ensures
            index >= devices@.len() ==> r == Err::<(), CaptureError>(CaptureError::DeviceUnavailable),
            index < devices@.len() ==> r == started,
            r is Ok ==> final(self)@ == (AppView {
                capture: CaptureState::Playing,
                frame: fresh_frame(resolved_dimensions(devices@[index as int], displays@)),
                device_idx: Some(index),
                video_devices: devices@,
                ..old(self)@
            }),
            r is Err ==> final(self)@ == (AppView {
                capture: CaptureState::Failed,
                frame: inert_frame(),
                device_idx: None,
                ..old(self)@
            }),
    {
        let outcome = if index >= devices.len() {
            Err(CaptureError::DeviceUnavailable)
        } else {
            started
        };
        match outcome {
            Ok(u) => {
                let dims = resolve_dimensions(&devices[index], displays);
                self.frame = FrameBuffer::with_dimensions(dims.0, dims.1);
                self.capture = CaptureState::Playing;
                self.current_device_idx = Some(index);
                self.video_devices = devices;
                Ok(u)
            },
            Err(e) => {
                self.frame = FrameBuffer::with_dimensions(CAMERA_WIDTH, CAMERA_HEIGHT);
                self.capture = CaptureState::Failed;
                self.current_device_idx = None;
                Err(e)
            },
        }
    }

    /// Starts a recording whose files are named after `timestamp`. The
    /// injection points announce the frame dimensions held right now; a
    /// second stream records the picture-in-picture frames when they are
    /// shown. Fails, changing nothing, while a recording runs.
    pub fn start_recording_at(&mut self, timestamp: &str) -> (r: Result<RecordingPlan, CaptureError>)
        ensures
            old(self)@.recording is Some ==> r is Err && r->Err_0 == CaptureError::AlreadyRecording
                && final(self)@ == old(self)@,
            old(self)@.recording is None ==> r is Ok && is_recording_start(
                r->Ok_0,
                old(self)@,
                final(self)@,
                timestamp@,
            ),
    {
        if self.recording.is_some() {
            return Err(CaptureError::AlreadyRecording);
        }
        let plan = self.plan_at(timestamp);
        self.recording = Some(job_for(&plan));
        Ok(plan)
    }

    fn plan_at(&self, timestamp: &str) -> (r: RecordingPlan)
        ensures
            is_recording_plan(r, timestamp@, main_dims(self@), pip_dims(self@), self@.mic_enabled),
    {
        let main = self.frame.dimensions();
        let pip = if self.show_pip {
            Some(self.pip_frame.dimensions())
        } else {
            None
        };
        plan_recording(timestamp, main, pip, self.is_mic_enabled)
    }

    /// Starts a recording named after the current local time.
    pub fn start_recording(&mut self) -> (r: Result<RecordingPlan, CaptureError>)
        ensures
            (r is Ok) == (old(self)@.recording is None),
            r is Err ==> r->Err_0 == CaptureError::AlreadyRecording && final(self)@ == old(self)@,
            r is Ok ==> exists|timestamp: Seq<char>|
                is_recording_start(r->Ok_0, old(self)@, final(self)@, timestamp),
    {
        if self.recording.is_some() {
            return Err(CaptureError::AlreadyRecording);
        }
        let timestamp = local_timestamp();
        self.start_recording_at(timestamp.as_str())
    }

    /// Stops the recording. Returns the job whose pipelines the caller brings
    /// to the null state, which finalizes its files; without a recording
    /// nothing happens.
    pub fn stop_recording(&mut self) -> (r: Option<RecordingJob>)
        ensures
            r == old(self)@.recording,
            final(self)@ == after_stop_recording(old(self)@),
    {
        self.recording.take()
    }

    fn restart_at(&mut self, timestamp: &str) -> (r: Option<RecordingRestart>)
        ensures
            is_restart(r, old(self)@, final(self)@, timestamp@),
    {
        match self.recording.take() {
            None => None,
            Some(finished) => {
                let stamp = restart_stamp_for(timestamp, &finished);
                let next = self.plan_at(stamp.as_str());
                self.recording = Some(job_for(&next));
                Some(RecordingRestart { finished, next })
            },
        }
    }

    /// Turns the microphone on or off. A change while recording stops the
    /// recording and starts a new one, with or without its audio branch,
    /// named after `timestamp` and writing to new files.
    pub fn set_mic_enabled_at(&mut self, enabled: bool, timestamp: &str) -> (r: Option<
        RecordingRestart,
    >)
        ensures
            enabled == old(self)@.mic_enabled ==> r is None && final(self)@ == old(self)@,
            enabled != old(self)@.mic_enabled ==> is_restart(
                r,
                AppView { mic_enabled: enabled, ..old(self)@ },
                final(self)@,
                timestamp@,
            ),
    {
        if enabled == self.is_mic_enabled {
            return None;
        }
        self.is_mic_enabled = enabled;
        self.restart_at(timestamp)
    }

    /// Turns the microphone on or off, naming a restarted recording after the
    /// current local time.
    pub fn set_mic_enabled(&mut self, enabled: bool) -> (r: Option<RecordingRestart>)
        ensures
            enabled == old(self)@.mic_enabled ==> r is None && final(self)@ == old(self)@,
            enabled != old(self)@.mic_enabled ==> exists|timestamp: Seq<char>|
                #[trigger] is_restart(r, with_mic_enabled(old(self)@, enabled), final(self)@, timestamp),
    {
        let ghost before = self@;
        if enabled == self.is_mic_enabled {
            return None;
        }
        if self.recording.is_none() {
            self.is_mic_enabled = enabled;
            assert(is_restart(None, with_mic_enabled(before, enabled), self@, Seq::empty()));
            return None;
        }
        let timestamp = local_timestamp();
        self.set_mic_enabled_at(enabled, timestamp.as_str())
    }

    /// Selects microphone `index`. While recording, the recording is stopped
    /// and started again, named after `timestamp` and writing to new files.
    pub fn switch_mic_at(&mut self, index: usize, timestamp: &str) -> (r: Option<RecordingRestart>)
        ensures
            is_restart(r, AppView { mic_idx: Some(index), ..old(self)@ }, final(self)@, timestamp@),
    {
        self.current_mic_idx = Some(index);
        self.restart_at(timestamp)
    }

    /// Selects microphone `index`, naming a restarted recording after the
    /// current local time.
    pub fn switch_mic(&mut self, index: usize) -> (r: Option<RecordingRestart>)
        ensures
            exists|timestamp: Seq<char>|
                #[trigger] is_restart(r, with_mic_idx(old(self)@, index), final(self)@, timestamp),
    {
        let ghost before = self@;
        if self.recording.is_none() {
            self.current_mic_idx = Some(index);
            assert(is_restart(None, with_mic_idx(before, index), self@, Seq::empty()));
            return None;
        }
        let timestamp = local_timestamp();
        self.switch_mic_at(index, timestamp.as_str())
    }

    /// The record shortcut: stops a running recording, else starts one named
    /// after `timestamp`.
    pub fn toggle_recording_at(&mut self, timestamp: &str) -> (r: RecordingToggle)
        ensures
            match old(self)@.recording {
                Some(j) => r matches RecordingToggle::Stopped(x) && x == j && final(self)@
                    == after_stop_recording(old(self)@),
                None => r matches RecordingToggle::Started(p) && is_recording_start(
                    p,
                    old(self)@,
                    final(self)@,
                    timestamp@,
                ),
            },
    {
        match self.recording.take() {
            Some(job) => RecordingToggle::Stopped(job),
            None => {
                let plan = self.plan_at(timestamp);
                self.recording = Some(job_for(&plan));
                RecordingToggle::Started(plan)
            },
        }
    }

    /// The record shortcut, naming a new recording after the current local
    /// time.
    pub fn toggle_recording(&mut self) -> (r: RecordingToggle)
        ensures
            match old(self)@.recording {
                Some(j) => r matches RecordingToggle::Stopped(x) && x == j && final(self)@
                    == after_stop_recording(old(self)@),
                None => r matches RecordingToggle::Started(p) && exists|timestamp: Seq<char>|
                    is_recording_start(p, old(self)@, final(self)@, timestamp),
            },
    {
        match self.recording.take() {
            Some(job) => RecordingToggle::Stopped(job),
            None => {
                let timestamp = local_timestamp();
                self.toggle_recording_at(timestamp.as_str())
            },
        }
    }

    /// Shows or hides the picture-in-picture overlay. Hiding takes effect at
    /// once and asks the caller to release the camera; showing asks the
    /// caller to launch the capture and report back through `pip_started`.
    pub fn toggle_pip(&mut self) -> (r: PipAction)
        ensures
            old(self)@.show_pip ==> r is TearDown && final(self)@ == after_pip_teardown(old(self)@),
            !old(self)@.show_pip ==> is_pip_launch(r) && final(self)@ == old(self)@,
    {
        if self.show_pip {
            self.show_pip = false;
            self.pip_frame = FrameBuffer::empty();
            PipAction::TearDown
        } else {
            PipAction::Launch {
                description: String::from_str(PIP_CAPTURE_PIPELINE),
                width: PIP_MIN_WIDTH,
                height: PIP_MIN_HEIGHT,
            }
        }
    }

    /// Records the outcome of a picture-in-picture launch. On success the
    /// overlay is shown at its minimum size with a fresh frame buffer; on
    /// failure nothing changes and the error is handed back.
    pub fn pip_started(&mut self, started: Result<(), CaptureError>) -> (r: Result<(), CaptureError>)
        ensures
            r == started,
            r is Ok ==> final(self)@ == (AppView {
                show_pip: true,
                pip_size: (PIP_MIN_WIDTH, PIP_MIN_HEIGHT),
                pip_frame: fresh_frame((PIP_MIN_WIDTH as int, PIP_MIN_HEIGHT as int)),
                ..old(self)@
            }),
            r is Err ==> final(self)@ == old(self)@,
    {
        match started {
            Ok(u) => {
                self.show_pip = true;
                self.pip_size = (PIP_MIN_WIDTH, PIP_MIN_HEIGHT);
                self.pip_frame = FrameBuffer::with_dimensions(
                    PIP_MIN_WIDTH as i32,
                    PIP_MIN_HEIGHT as i32,
                );
                Ok(u)
            },
            Err(e) => Err(e),
        }
    }

    /// Applies a finished resize of the overlay to `requested_width` pixels.
    /// Returns the snapped size the capture's output caps are set to, or
    /// `None` when the overlay is hidden.
    pub fn update_pip_size(&mut self, requested_width: u32) -> (r: Option<(u64, u64)>)
        ensures
            old(self)@.show_pip ==> (r matches Some(size) && (size.0 as nat, size.1 as nat)
                == pip_size_for(requested_width as nat) && final(self)@ == (AppView {
                pip_size: size,
                ..old(self)@
            })),
            !old(self)@.show_pip ==> r is None && final(self)@ == old(self)@,
    {
        if !self.show_pip {
            return None;
        }
        let size = snap_pip_size(requested_width);
        self.pip_size = size;
        Some(size)
    }

    /// Offers a frame delivered by the capture session of `slot`, with the
    /// dimensions its format metadata reported.
    pub fn deliver_frame(
        &mut self,
        slot: Slot,
        width: Option<i32>,
        height: Option<i32>,
        data: Vec<u8>,
    ) -> (accepted: bool)
        ensures
            delivery(slot_frame(old(self)@, slot), slot_frame(final(self)@, slot), width, height, data@, accepted),
            final(self)@ == with_slot_frame(old(self)@, slot, slot_frame(final(self)@, slot)),
    {
        match slot {
            Slot::Main => self.frame.deliver(width, height, data),
            Slot::Pip => self.pip_frame.deliver(width, height, data),
        }
    }

    /// A fresh copy of the latest frame of `slot`: what an encoder asking for
    /// its next frame is handed.
    pub fn recording_frame(&self, slot: Slot) -> (r: Option<Vec<u8>>)
        ensures
            match r {
                Some(p) => slot_frame(self@, slot).pixels == Some(p@),
                None => slot_frame(self@, slot).pixels is None,
            },
    {
        match slot {
            Slot::Main => self.frame.snapshot(),
            Slot::Pip => self.pip_frame.snapshot(),
        }
    }

    /// Tears everything down on exit: the recording, the picture-in-picture
    /// capture and the main capture.
    pub fn on_exit(&mut self) -> (r: ShutdownPlan)
        ensures
            r.recording == old(self)@.recording,
            r.stop_pip == old(self)@.show_pip,
            r.stop_main == (old(self)@.capture == CaptureState::Playing),
            final(self)@ == after_stop_capture(after_pip_teardown(after_stop_recording(old(self)@))),
    {
        let recording = self.stop_recording();
        let stop_pip = self.show_pip;
        if stop_pip {
            self.show_pip = false;
            self.pip_frame = FrameBuffer::empty();
        }
        let stop_main = self.stop_capture();
        ShutdownPlan { recording, stop_pip, stop_main }
    }

    /// Label of the current video source.
    pub fn current_device_label(&self) -> (r: String)
        ensures
            r@ == device_label(self@),
    {
        match self.current_device_idx {
            Some(i) => {
                if i < self.video_devices.len() {
                    return self.video_devices[i].label.clone();
                }
            },
            None => {},
        }
        String::from_str(CAMERA_LABEL)
    }

    /// Label of the current microphone.
    pub fn current_mic_label(&self) -> (r: String)
        ensures
            r@ == mic_label(self@),
    {
        match self.current_mic_idx {
            Some(i) => {
                if i < self.audio_devices.len() {
                    return self.audio_devices[i].label.clone();
                }
            },
            None => {},
        }
        String::from_str(DEFAULT_MIC_LABEL)
    }

    /// A copy of the latest main frame, if any.
    pub fn get_current_frame(&self) -> (r: Option<Vec<u8>>)
        ensures
            match r {
                Some(p) => self@.frame.pixels == Some(p@),
                None => self@.frame.pixels is None,
            },
    {
        self.frame.snapshot()
    }

    /// Width and height of the main frame buffer.
    pub fn get_dimensions(&self) -> (r: (i32, i32))
        ensures
            r.0 as int == self@.frame.width,
            r.1 as int == self@.frame.height,
    {
        self.frame.dimensions()
    }

    /// The RGBA value of pixel (x, y) of the latest main frame.
    pub fn get_pixel(&self, x: i32, y: i32) -> (r: Option<[u8; 4]>)
        ensures
            ({
                let v = self@.frame;
                if v.pixels is Some && 0 <= x < v.width && 0 <= y < v.height {
                    let p = v.pixels->0;
                    let o = crate::frame::pixel_offset(v.width, x as int, y as int);
                    r matches Some(px) && px@ == seq![p[o], p[o + 1], p[o + 2], p[o + 3]]
                } else {
                    r is None
                }
            }),
    {
        self.frame.pixel(x, y)
    }
    pub fn is_recording(&self) -> (r: bool)
        ensures
            r == self@.recording is Some,
    {
        self.recording.is_some()
    }

    pub fn recording_job(&self) -> (r: Option<&RecordingJob>)
        ensures
            match r {
                Some(j) => self@.recording == Some(*j),
                None => self@.recording is None,
            },
    {
        match &self.recording {
            Some(j) => Some(j),
            None => None,
        }
    }

    pub fn is_mic_enabled(&self) -> (r: bool)
        ensures
            r == self@.mic_enabled,
    {
        self.is_mic_enabled
    }

    pub fn show_pip(&self) -> (r: bool)
        ensures
            r == self@.show_pip,
    {
        self.show_pip
    }

    pub fn pip_size(&self) -> (r: (u64, u64))
        ensures
            r == self@.pip_size,
    {
        self.pip_size
    }

    pub fn capture_state(&self) -> (r: CaptureState)
        ensures
            r == self@.capture,
    {
        self.capture
    }

    pub fn current_device_idx(&self) -> (r: Option<usize>)
        ensures
            r == self@.device_idx,
    {
        self.current_device_idx
    }

    pub fn current_mic_idx(&self) -> (r: Option<usize>)
        ensures
            r == self@.mic_idx,
    {
        self.current_mic_idx
    }

    pub fn video_devices(&self) -> (r: &Vec<MediaDeviceInfo>)
        ensures
            r@ == self@.video_devices,
    {
        &self.video_devices
    }

    pub fn audio_devices(&self) -> (r: &Vec<MediaDeviceInfo>)
        ensures
            r@ == self@.audio_devices,
    {
        &self.audio_devices
    }

    /// The main frame buffer.
    pub fn frame(&self) -> (r: &FrameBuffer)
        ensures
            r@ == self@.frame,
    {
        &self.frame
    }

    /// The picture-in-picture frame buffer.
    pub fn pip_frame(&self) -> (r: &FrameBuffer)
        ensures
            r@ == self@.pip_frame,
    {
        &self.pip_frame
    }
}

/// Stopping is idempotent: stopping the main capture, the recording or the
/// picture-in-picture capture a second time changes nothing and hands
/// nothing back to tear down, so no pipeline is released twice.
pub proof fn lemma_stop_idempotent(s: AppView)
    ensures
        after_stop_capture(after_stop_capture(s)) == after_stop_capture(s),
        after_stop_capture(s).capture != CaptureState::Playing,
        after_stop_recording(after_stop_recording(s)) == after_stop_recording(s),
        after_stop_recording(s).recording is None,
        after_pip_teardown(after_pip_teardown(s)) == after_pip_teardown(s),
        !after_pip_teardown(s).show_pip,
{
}

} // verus!
