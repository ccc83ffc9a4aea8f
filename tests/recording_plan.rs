use screencap::pipeline::{
    main_recording_pipeline_for, pip_recording_pipeline_for, AUDIO_BRANCH, MAIN_RECORDING_HEAD,
};
use screencap::recording::{job_for, plan_recording, restart_stamp_for, RecordingJob};

#[test]
fn main_pipeline_with_audio_has_microphone_branch() {
    let d = main_recording_pipeline_for("out.mkv", true);
    assert_eq!(
        d,
        "appsrc name=video_src format=time is-live=true do-timestamp=true ! videoconvert ! video/x-raw,format=I420 ! x264enc tune=zerolatency speed-preset=slower bitrate=8000 key-int-max=60 ! matroskamux name=mux ! filesink location=out.mkv osxaudiosrc ! audioconvert ! audioresample ! audio/x-raw,rate=44100,channels=2 ! avenc_aac bitrate=320000 ! queue ! mux."
    );
}

#[test]
fn main_pipeline_without_audio_has_no_audio_branch() {
    let d = main_recording_pipeline_for("out.mkv", false);
    assert_eq!(d, format!("{}out.mkv", MAIN_RECORDING_HEAD));
    assert!(!d.contains("osxaudiosrc"));
    assert_eq!(main_recording_pipeline_for("out.mkv", true), format!("{}{}", d, AUDIO_BRANCH));
}

#[test]
fn pip_pipeline_writes_to_its_file() {
    let d = pip_recording_pipeline_for("p.mkv");
    assert!(d.starts_with("appsrc name=pip_src"));
    assert!(d.ends_with("matroskamux ! filesink location=p.mkv"));
}

#[test]
fn plan_names_files_after_timestamp() {
    let p = plan_recording("20240102_030405", (1280, 720), Some((320, 180)), true);
    assert_eq!(p.main.path, "recording_20240102_030405_main.mkv");
    assert_eq!(p.main.description, main_recording_pipeline_for(&p.main.path, true));
    assert_eq!((p.main.width, p.main.height), (1280, 720));
    let pip = p.pip.as_ref().unwrap();
    assert_eq!(pip.path, "recording_20240102_030405_pip.mkv");
    assert_eq!(pip.description, pip_recording_pipeline_for(&pip.path));
    assert_eq!((pip.width, pip.height), (320, 180));
    assert!(p.with_audio);
    let job = job_for(&p);
    assert_eq!(job.main_path, p.main.path);
    assert_eq!(job.pip_path.as_deref(), Some("recording_20240102_030405_pip.mkv"));
}

#[test]
fn plan_without_pip_has_single_stream() {
    let p = plan_recording("t", (2, 2), None, false);
    assert!(p.pip.is_none());
    assert!(!p.with_audio);
    assert!(!p.main.description.contains("osxaudiosrc"));
}

#[test]
fn restart_stamp_avoids_finished_files() {
    let job = RecordingJob {
        main_path: "recording_t_main.mkv".to_string(),
        pip_path: Some("recording_t_r_pip.mkv".to_string()),
        with_audio: true,
    };
    assert_eq!(restart_stamp_for("u", &job), "u");
    assert_eq!(restart_stamp_for("t", &job), "t_r_r");
    let plain = RecordingJob { main_path: "recording_t_main.mkv".to_string(), pip_path: None, with_audio: false };
    assert_eq!(restart_stamp_for("t", &plain), "t_r");
}
