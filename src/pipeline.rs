use vstd::prelude::*;
use crate::text::{decimal, push_decimal};

verus! {

/// Capture chain of the built-in camera: 1280x720 at 30 fps, converted to
/// RGBA, at most one frame in flight, older frames dropped.
pub const CAMERA_PIPELINE: &'static str = "avfvideosrc device-index=0 ! video/x-raw,width=1280,height=720,framerate=30/1 ! videoconvert ! video/x-raw,format=RGBA,width=1280,height=720 ! queue leaky=downstream max-size-buffers=1 ! appsink name=sink sync=false drop=true max-buffers=1 emit-signals=true";

/// Screen capture chain, before the display index.
pub const SCREEN_PIPELINE_HEAD: &'static str = "avfvideosrc capture-screen=true capture-screen-cursor=true device-index=";

/// Screen capture chain, after the display index.
pub const SCREEN_PIPELINE_TAIL: &'static str = " ! videoconvert ! video/x-raw,format=RGBA,framerate=60/1 ! queue leaky=downstream max-size-buffers=1 ! appsink name=sink sync=false drop=true max-buffers=1 emit-signals=true";

/// Capture chain of the picture-in-picture camera; its size is set on the
/// capsfilter named `size`.
pub const PIP_CAPTURE_PIPELINE: &'static str = "avfvideosrc device-index=0 ! video/x-raw,width=1280,height=720,framerate=30/1 ! videoscale ! capsfilter name=size ! videoconvert ! video/x-raw,format=RGBA ! appsink name=pip_sink sync=false drop=true max-buffers=1";

/// Main recording chain up to the output location.
pub const MAIN_RECORDING_HEAD: &'static str = "appsrc name=video_src format=time is-live=true do-timestamp=true ! videoconvert ! video/x-raw,format=I420 ! x264enc tune=zerolatency speed-preset=slower bitrate=8000 key-int-max=60 ! matroskamux name=mux ! filesink location=";

/// Microphone branch of the main recording, muxed into the same container.
pub const AUDIO_BRANCH: &'static str = " osxaudiosrc ! audioconvert ! audioresample ! audio/x-raw,rate=44100,channels=2 ! avenc_aac bitrate=320000 ! queue ! mux.";

/// Picture-in-picture recording chain up to the output location.
pub const PIP_RECORDING_HEAD: &'static str = "appsrc name=pip_src format=time is-live=true do-timestamp=true ! videoconvert ! video/x-raw,format=I420 ! x264enc tune=zerolatency speed-preset=slower bitrate=4000 key-int-max=60 ! matroskamux ! filesink location=";

pub open spec fn screen_pipeline(index: nat) -> Seq<char> {
    SCREEN_PIPELINE_HEAD@ + decimal(index) + SCREEN_PIPELINE_TAIL@
}

/// The main recording chain writing to `path`; the microphone branch is
/// present exactly when audio is enabled.
pub open spec fn main_recording_pipeline(path: Seq<char>, with_audio: bool) -> Seq<char> {
    if with_audio {
        MAIN_RECORDING_HEAD@ + path + AUDIO_BRANCH@
    } else {
        MAIN_RECORDING_HEAD@ + path
    }
}

pub open spec fn pip_recording_pipeline(path: Seq<char>) -> Seq<char> {
    PIP_RECORDING_HEAD@ + path
}

/// Enabling audio adds exactly the microphone branch to the same video
/// chain; without it the recording pipeline has no audio branch at all.
pub proof fn lemma_audio_branch(path: Seq<char>)
    ensures
        main_recording_pipeline(path, true) == main_recording_pipeline(path, false) + AUDIO_BRANCH@,
        main_recording_pipeline(path, false) == MAIN_RECORDING_HEAD@ + path,
{
}

/// Capture chain of the display with the given index.
pub fn screen_pipeline_for(index: u64) -> (r: String)
    ensures
        r@ == screen_pipeline(index as nat),
{
    let mut s = String::from_str(SCREEN_PIPELINE_HEAD);
    push_decimal(&mut s, index);
    s.append(SCREEN_PIPELINE_TAIL);
    s
}

/// Description of the main recording pipeline.
pub fn main_recording_pipeline_for(path: &str, with_audio: bool) -> (r: String)
    ensures
        r@ == main_recording_pipeline(path@, with_audio),
{
    let mut s = String::from_str(MAIN_RECORDING_HEAD);
    s.append(path);
    if with_audio {
        s.append(AUDIO_BRANCH);
    }
    s
}

/// Description of the picture-in-picture recording pipeline.
pub fn pip_recording_pipeline_for(path: &str) -> (r: String)
    ensures
        r@ == pip_recording_pipeline(path@),
{
    let mut s = String::from_str(PIP_RECORDING_HEAD);
    s.append(path);
    s
}

} // verus!
