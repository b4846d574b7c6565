use recording_session::inputs::{
    Bounds, RecordingMode, ScreenCaptureTarget, StartRecordingInputs,
};
use recording_session::lifecycle::{
    delete_recording, handle_actor_done, pause_recording, restart_recording, resume_recording,
    start_recording, stop_recording, ActorDoneEvent, FinishEnv, PostStudioRecordingBehaviour,
    RecorderState, StartEnv,
};
use recording_session::meta::{Platform, RecordingMetaInner, SegmentMeta, StudioRecordingMeta};
use recording_session::session::{EngineArtifacts, InProgressRecording, VideoUploadInfo};

fn studio_inputs() -> StartRecordingInputs {
    StartRecordingInputs {
        capture_target: ScreenCaptureTarget::Screen { id: 1 },
        capture_system_audio: false,
        mode: RecordingMode::Studio,
    }
}

fn instant_inputs() -> StartRecordingInputs {
    StartRecordingInputs {
        capture_target: ScreenCaptureTarget::Screen { id: 1 },
        capture_system_audio: true,
        mode: RecordingMode::Instant,
    }
}

fn env_with(authenticated: bool, ticket: Option<VideoUploadInfo>) -> StartEnv {
    StartEnv {
        authenticated,
        id: "0000-test-id".to_string(),
        screen_title: Some("Built-in Display".to_string()),
        on_screen_windows: Vec::new(),
        precreated_video: ticket,
        window_display: None,
        spawn_outcome: Ok(Bounds { x: 0, y: 0, width: 1920, height: 1080 }),
    }
}

fn ticket() -> VideoUploadInfo {
    VideoUploadInfo {
        id: "vid-1".to_string(),
        link: "https://example.invalid/s/vid-1".to_string(),
    }
}

fn studio_artifacts() -> EngineArtifacts {
    EngineArtifacts::Studio {
        meta: StudioRecordingMeta::MultipleSegments {
            segments: vec![SegmentMeta {
                display_path: "segments/segment-0/display.mp4".to_string(),
                duration_ms: 5000,
            }],
        },
    }
}

fn finish_env() -> FinishEnv {
    FinishEnv {
        timestamp: "2024-01-01 12:00:00".to_string(),
        platform: Platform::MacOS,
        default_config: None,
        post_studio_behaviour: PostStudioRecordingBehaviour::OpenEditor,
        main_window_open: true,
    }
}

#[test]
fn start_then_stop_persists_exactly_one_meta() {
    let mut st = RecorderState::new();
    let started = start_recording(&mut st, env_with(true, None), studio_inputs());
    assert!(started.is_ok());
    assert!(st.current_recording.is_some());
    assert_eq!(st.persisted_metas.len(), 0);

    let stopped = stop_recording(&mut st, Ok(studio_artifacts()), finish_env());
    let outcome = stopped.unwrap();
    assert!(st.current_recording.is_none());
    assert_eq!(st.persisted_metas.len(), 1);
    assert_eq!(outcome.meta.pretty_name, "Built-in Display 2024-01-01 12:00:00");
    assert_eq!(outcome.meta.project_path, "0000-test-id.cap");
    assert_eq!(st.persisted_metas[0].pretty_name, outcome.meta.pretty_name);
    assert!(!st.log_redirect);
}

#[test]
fn start_while_active_is_rejected() {
    let mut st = RecorderState::new();
    start_recording(&mut st, env_with(true, None), studio_inputs()).unwrap();
    assert_eq!(st.live_dirs.len(), 1);

    let second = start_recording(&mut st, env_with(true, None), studio_inputs());
    assert_eq!(second.err().unwrap(), "Recording already in progress");
    assert!(st.current_recording.is_some());
    assert_eq!(st.live_dirs.len(), 1);
    assert_eq!(st.persisted_metas.len(), 0);
}

#[test]
fn delete_writes_no_meta_and_removes_directory() {
    let mut st = RecorderState::new();
    start_recording(&mut st, env_with(true, Some(ticket())), instant_inputs()).unwrap();
    assert_eq!(st.live_dirs, vec!["0000-test-id.cap".to_string()]);

    let outcome = delete_recording(&mut st);
    assert!(st.current_recording.is_none());
    assert_eq!(st.persisted_metas.len(), 0);
    assert!(st.live_dirs.is_empty());
    assert_eq!(outcome.removed_dir.unwrap(), "0000-test-id.cap");
    assert_eq!(outcome.remote_delete_video_id.unwrap(), "vid-1");
}

#[test]
fn delete_without_session_is_harmless() {
    let mut st = RecorderState::new();
    let outcome = delete_recording(&mut st);
    assert!(outcome.removed_dir.is_none());
    assert!(outcome.remote_delete_video_id.is_none());
}

#[test]
fn restart_equals_cancel_then_start() {
    let mut restarted = RecorderState::new();
    start_recording(&mut restarted, env_with(true, None), studio_inputs()).unwrap();
    let fresh_env = || StartEnv { id: "1111-test-id".to_string(), ..env_with(true, None) };
    let (cleanup, second) = restart_recording(&mut restarted, fresh_env());
    assert_eq!(cleanup.removed_dir.unwrap(), "0000-test-id.cap");
    assert!(second.is_ok());

    let mut composed = RecorderState::new();
    start_recording(&mut composed, env_with(true, None), studio_inputs()).unwrap();
    let inputs = *match &composed.current_recording {
        Some(r) => r.inputs(),
        None => unreachable!(),
    };
    delete_recording(&mut composed);
    start_recording(&mut composed, fresh_env(), inputs).unwrap();

    assert_eq!(restarted.live_dirs, composed.live_dirs);
    assert_eq!(restarted.persisted_metas.len(), composed.persisted_metas.len());
    let (a, b) = (&restarted.current_recording, &composed.current_recording);
    match (a, b) {
        (
            Some(InProgressRecording::Studio { recording_dir: d1, inputs: i1, .. }),
            Some(InProgressRecording::Studio { recording_dir: d2, inputs: i2, .. }),
        ) => {
            assert_eq!(d1, d2);
            assert_eq!(d1, "1111-test-id.cap");
            assert!(matches!(i1.capture_target, ScreenCaptureTarget::Screen { id: 1 }));
            assert_eq!(i1.capture_system_audio, i2.capture_system_audio);
        }
        _ => panic!("expected studio sessions on both paths"),
    }
}

#[test]
fn restart_without_session_is_rejected() {
    let mut st = RecorderState::new();
    let (cleanup, started) = restart_recording(&mut st, env_with(true, None));
    assert!(cleanup.removed_dir.is_none());
    assert_eq!(started.err().unwrap(), "No recording in progress");
}

#[test]
fn instant_unauthenticated_start_is_rejected() {
    let mut st = RecorderState::new();
    let r = start_recording(&mut st, env_with(false, None), instant_inputs());
    assert_eq!(r.err().unwrap(), "Please sign in to use instant recording");
    assert!(st.current_recording.is_none());
    assert!(st.live_dirs.is_empty());
    assert!(!st.log_redirect);
}

#[test]
fn studio_stop_has_studio_inner_and_no_sharing() {
    let mut st = RecorderState::new();
    start_recording(&mut st, env_with(true, None), studio_inputs()).unwrap();
    let outcome = stop_recording(&mut st, Ok(studio_artifacts()), finish_env()).unwrap();
    assert!(matches!(outcome.meta.inner, RecordingMetaInner::Studio(_)));
    assert!(outcome.meta.sharing.is_none());
    assert!(outcome.project_config.is_some());
    assert!(!outcome.run_upload_followup);
    assert!(outcome.open_link.is_none());
    assert!(matches!(
        outcome.post_studio_action,
        Some(PostStudioRecordingBehaviour::OpenEditor)
    ));
}

#[test]
fn failed_precreation_degrades_to_no_ticket() {
    let mut st = RecorderState::new();
    let started = start_recording(&mut st, env_with(true, None), instant_inputs()).unwrap();
    assert!(started.shareable_link.is_none());
    match &st.current_recording {
        Some(InProgressRecording::Instant { progressive_upload, video_upload_info, .. }) => {
            assert!(progressive_upload.is_none());
            assert!(video_upload_info.is_none());
        }
        _ => panic!("expected an instant session"),
    }

    let outcome = stop_recording(&mut st, Ok(EngineArtifacts::Instant), finish_env()).unwrap();
    assert!(outcome.run_upload_followup);
    assert!(outcome.open_link.is_none());
    assert!(outcome.meta.sharing.is_none());
    assert!(matches!(outcome.meta.inner, RecordingMetaInner::Instant(_)));
}

#[test]
fn instant_stop_with_ticket_shares_and_opens_link() {
    let mut st = RecorderState::new();
    let started = start_recording(&mut st, env_with(true, Some(ticket())), instant_inputs())
        .unwrap();
    assert_eq!(started.shareable_link.unwrap(), "https://example.invalid/s/vid-1");
    let outcome = stop_recording(&mut st, Ok(EngineArtifacts::Instant), finish_env()).unwrap();
    assert_eq!(outcome.open_link.unwrap(), "https://example.invalid/s/vid-1");
    let sharing = outcome.meta.sharing.unwrap();
    assert_eq!(sharing.id, "vid-1");
    assert_eq!(sharing.link, "https://example.invalid/s/vid-1");
    assert_eq!(
        outcome.screenshot_source,
        "0000-test-id.cap/content/output.mp4"
    );
    assert_eq!(
        outcome.screenshot_target,
        "0000-test-id.cap/screenshots/display.jpg"
    );
}

#[test]
fn stop_without_session_is_an_error() {
    let mut st = RecorderState::new();
    let r = stop_recording(&mut st, Ok(EngineArtifacts::Instant), finish_env());
    assert_eq!(r.err().unwrap(), "Recording not in progress");
}

#[test]
fn engine_stop_failure_is_surfaced_and_still_cleans_up() {
    let mut st = RecorderState::new();
    start_recording(&mut st, env_with(true, None), studio_inputs()).unwrap();
    assert!(st.log_redirect);
    let r = stop_recording(&mut st, Err("encoder died".to_string()), finish_env());
    assert_eq!(r.err().unwrap(), "encoder died");
    assert!(st.current_recording.is_none());
    assert!(!st.log_redirect);
    assert_eq!(st.persisted_metas.len(), 0);
}

#[test]
fn pause_and_resume_without_session_are_noops() {
    let mut st = RecorderState::new();
    assert!(pause_recording(&mut st, Err("ignored".to_string())).is_ok());
    assert!(resume_recording(&mut st, Err("ignored".to_string())).is_ok());
}

#[test]
fn pause_and_resume_surface_engine_outcome() {
    let mut st = RecorderState::new();
    start_recording(&mut st, env_with(true, None), studio_inputs()).unwrap();
    assert!(pause_recording(&mut st, Ok(())).is_ok());
    assert_eq!(
        pause_recording(&mut st, Err("pause failed".to_string())).err().unwrap(),
        "pause failed"
    );
    assert_eq!(
        resume_recording(&mut st, Err("resume failed".to_string())).err().unwrap(),
        "resume failed"
    );
    assert!(st.current_recording.is_some());
}

#[test]
fn actor_panic_clears_session_and_feeds() {
    let mut st = RecorderState::new();
    st.set_camera_feed(true);
    st.set_mic_feed(true);
    start_recording(&mut st, env_with(true, None), studio_inputs()).unwrap();

    let outcome = handle_actor_done(&mut st, ActorDoneEvent::ChannelClosed, false);
    assert!(!outcome.fire_finish_upload);
    assert_eq!(outcome.dialog_message.unwrap(), "Recording failed unexpectedly");
    assert!(st.current_recording.is_none());
    assert!(!st.camera_feed);
    assert!(!st.mic_feed);
    assert!(!st.log_redirect);
    assert_eq!(st.persisted_metas.len(), 0);
}

#[test]
fn actor_reported_failure_shows_its_reason() {
    let mut st = RecorderState::new();
    start_recording(&mut st, env_with(true, None), studio_inputs()).unwrap();
    let outcome = handle_actor_done(
        &mut st,
        ActorDoneEvent::ReportedFailure { message: "no frames".to_string() },
        true,
    );
    assert!(!outcome.fire_finish_upload);
    assert_eq!(outcome.dialog_message.unwrap(), "no frames");
    assert!(st.current_recording.is_none());
}

#[test]
fn actor_success_fires_finish_trigger_and_leaves_state() {
    let mut st = RecorderState::new();
    start_recording(&mut st, env_with(true, None), studio_inputs()).unwrap();
    let outcome = handle_actor_done(&mut st, ActorDoneEvent::Success, true);
    assert!(outcome.fire_finish_upload);
    assert!(outcome.dialog_message.is_none());
    assert!(st.current_recording.is_some());
}

#[test]
fn spawn_failure_is_surfaced_with_reason() {
    let mut st = RecorderState::new();
    let env = StartEnv {
        spawn_outcome: Err("no permission".to_string()),
        ..env_with(true, None)
    };
    let r = start_recording(&mut st, env, studio_inputs());
    assert_eq!(
        r.err().unwrap(),
        "Failed to spawn recording actor: no permission"
    );
    assert!(st.current_recording.is_none());
    assert!(st.live_dirs.is_empty());
}

#[test]
fn occluder_is_shown_for_area_and_window_targets_only() {
    let mut st = RecorderState::new();
    let area_inputs = StartRecordingInputs {
        capture_target: ScreenCaptureTarget::Area {
            screen: 7,
            bounds: Bounds { x: 0, y: 0, width: 100, height: 100 },
        },
        capture_system_audio: false,
        mode: RecordingMode::Studio,
    };
    let started = start_recording(&mut st, env_with(true, None), area_inputs).unwrap();
    assert_eq!(started.show_occluder_over.unwrap(), 7);
    assert!(started.protect_camera_window);
    delete_recording(&mut st);

    let window_inputs = StartRecordingInputs {
        capture_target: ScreenCaptureTarget::Window { id: 3 },
        capture_system_audio: false,
        mode: RecordingMode::Studio,
    };
    let env = StartEnv { window_display: Some(2), ..env_with(true, None) };
    let started = start_recording(&mut st, env, window_inputs).unwrap();
    assert_eq!(started.show_occluder_over.unwrap(), 2);
    delete_recording(&mut st);

    let started = start_recording(&mut st, env_with(true, None), studio_inputs()).unwrap();
    assert!(started.show_occluder_over.is_none());
}
