use vstd::prelude::*;
use crate::pipeline::{
    main_recording_pipeline,
    main_recording_pipeline_for,
    pip_recording_pipeline,
    pip_recording_pipeline_for,
};

verus! {

/// Output file of the main stream of a recording started at `timestamp`.
pub open spec fn main_recording_path(timestamp: Seq<char>) -> Seq<char> {
    "recording_"@ + timestamp + "_main.mkv"@
}

/// Output file of the picture-in-picture stream of a recording started at
/// `timestamp`.
pub open spec fn pip_recording_path(timestamp: Seq<char>) -> Seq<char> {
    "recording_"@ + timestamp + "_pip.mkv"@
}

/// One encoding pipeline to bring up: where it writes, its description, and
/// the frame format its injection point announces (a snapshot of the frame
/// buffer's dimensions at start time).
pub struct RecordingTarget {
    pub path: String,
    pub description: String,
    pub width: i32,
    pub height: i32,
}

/// The pipelines a recording start asks for.
pub struct RecordingPlan {
    pub main: RecordingTarget,
    pub pip: Option<RecordingTarget>,
    pub with_audio: bool,
}

/// A running recording: the files it writes to, finalized when it stops.
pub struct RecordingJob {
    pub main_path: String,
    pub pip_path: Option<String>,
    pub with_audio: bool,
}

pub open spec fn is_main_target(t: RecordingTarget, timestamp: Seq<char>, dims: (i32, i32), with_audio: bool) -> bool {
    &&& t.path@ == main_recording_path(timestamp)
    &&& t.description@ == main_recording_pipeline(main_recording_path(timestamp), with_audio)
    &&& t.width == dims.0
    &&& t.height == dims.1
}

pub open spec fn is_pip_target(t: RecordingTarget, timestamp: Seq<char>, dims: (i32, i32)) -> bool {
    &&& t.path@ == pip_recording_path(timestamp)
    &&& t.description@ == pip_recording_pipeline(pip_recording_path(timestamp))
    &&& t.width == dims.0
    &&& t.height == dims.1
}

/// The plan for a recording started at `timestamp` over frames of `main_dims`,
/// with a second stream over `pip_dims` when picture-in-picture is shown.
pub open spec fn is_recording_plan(
    p: RecordingPlan,
    timestamp: Seq<char>,
    main_dims: (i32, i32),
    pip_dims: Option<(i32, i32)>,
    with_audio: bool,
) -> bool {
    &&& is_main_target(p.main, timestamp, main_dims, with_audio)
    &&& p.with_audio == with_audio
    &&& match pip_dims {
        Some(d) => p.pip matches Some(t) && is_pip_target(t, timestamp, d),
        None => p.pip is None,
    }
}

/// `j` is the job that plan `p` starts: it writes to the plan's files.
pub open spec fn is_job_of(j: RecordingJob, p: RecordingPlan) -> bool {
    &&& j.main_path@ == p.main.path@
    &&& match (j.pip_path, p.pip) {
        (Some(a), Some(t)) => a@ == t.path@,
        (None, None) => true,
        _ => false,
    }
    &&& j.with_audio == p.with_audio
}

fn recording_path(timestamp: &str, suffix: &str) -> (r: String)
    ensures
        r@ == "recording_"@ + timestamp@ + suffix@,
{
    let mut s = String::from_str("recording_");
    s.append(timestamp);
    s.append(suffix);
    s
}

/// Lays out the pipelines of a recording started at `timestamp`.
pub fn plan_recording(
    timestamp: &str,
    main_dims: (i32, i32),
    pip_dims: Option<(i32, i32)>,
    with_audio: bool,
) -> (r: RecordingPlan)
    ensures
        is_recording_plan(r, timestamp@, main_dims, pip_dims, with_audio),
{
    let main_path = recording_path(timestamp, "_main.mkv");
    let main_description = main_recording_pipeline_for(main_path.as_str(), with_audio);
    let main = RecordingTarget {
        path: main_path,
        description: main_description,
        width: main_dims.0,
        height: main_dims.1,
    };
    let pip = match pip_dims {
        Some(d) => {
            let pip_path = recording_path(timestamp, "_pip.mkv");
            let pip_description = pip_recording_pipeline_for(pip_path.as_str());
            Some(RecordingTarget { path: pip_path, description: pip_description, width: d.0, height: d.1 })
        },
        None => None,
    };
    RecordingPlan { main, pip, with_audio }
}

/// The job a plan starts, keeping the output paths.
pub fn job_for(p: &RecordingPlan) -> (r: RecordingJob)
    ensures
        is_job_of(r, *p),
{
    RecordingJob {
        main_path: p.main.path.clone(),
        pip_path: match &p.pip {
            Some(t) => Some(t.path.clone()),
            None => None,
        },
        with_audio: p.with_audio,
    }
}

/// Appended to the name of a restarted recording that would otherwise reuse
/// the files of the recording it replaces.
pub const RESTART_MARK: &'static str = "_r";

/// A recording named after `stamp` would write to a file of job `j`.
pub open spec fn collides(stamp: Seq<char>, j: RecordingJob) -> bool {
    main_recording_path(stamp) == j.main_path@ || match j.pip_path {
        Some(p) => pip_recording_path(stamp) == p@,
        None => false,
    }
}

/// The name a recording restarted at `timestamp` after job `j` gets: the
/// timestamp itself, or the timestamp marked once or twice, whichever first
/// writes to files other than those of `j`.
pub open spec fn restart_stamp(timestamp: Seq<char>, j: RecordingJob) -> Seq<char> {
    let once = timestamp + RESTART_MARK@;
    if !collides(timestamp, j) {
        timestamp
    } else if !collides(once, j) {
        once
    } else {
        once + RESTART_MARK@
    }
}

/// A restarted recording never writes to a file of the recording it
/// replaces, so the finished files are not reopened or overwritten.
pub proof fn lemma_restart_stamp_fresh(timestamp: Seq<char>, j: RecordingJob)
    ensures
        !collides(restart_stamp(timestamp, j), j),
{
    reveal_strlit("_r");
    let once = timestamp + RESTART_MARK@;
    let twice = once + RESTART_MARK@;
    assert(once.len() == timestamp.len() + 2);
    assert(twice.len() == timestamp.len() + 4);
    assert(main_recording_path(once).len() == main_recording_path(timestamp).len() + 2);
    assert(main_recording_path(twice).len() == main_recording_path(timestamp).len() + 4);
    assert(pip_recording_path(once).len() == pip_recording_path(timestamp).len() + 2);
    assert(pip_recording_path(twice).len() == pip_recording_path(timestamp).len() + 4);
}

fn collides_with(stamp: &str, j: &RecordingJob) -> (r: bool)
    ensures
        r == collides(stamp@, *j),
{
    let main = recording_path(stamp, "_main.mkv");
    if main == j.main_path {
        return true;
    }
    match &j.pip_path {
        Some(p) => {
            let pip = recording_path(stamp, "_pip.mkv");
            pip == *p
        },
        None => false,
    }
}

/// Picks the name of a recording restarted at `timestamp` after job `j`.
pub fn restart_stamp_for(timestamp: &str, j: &RecordingJob) -> (r: String)
    ensures
        r@ == restart_stamp(timestamp@, *j),
        !collides(r@, *j),
{
    proof {
        lemma_restart_stamp_fresh(timestamp@, *j);
    }
    let mut stamp = String::from_str(timestamp);
    if !collides_with(stamp.as_str(), j) {
        return stamp;
    }
    stamp.append(RESTART_MARK);
    if !collides_with(stamp.as_str(), j) {
        return stamp;
    }
    stamp.append(RESTART_MARK);
    stamp
}

/// Relies on chrono::Local::now and DateTime::format: the local wall-clock
/// time written as `%Y%m%d_%H%M%S`, which names the files of a recording.
#[verifier::external_body]
pub(crate) fn local_timestamp() -> (r: String) {
    chrono::Local::now().format("%Y%m%d_%H%M%S").to_string()
}

} // verus!
