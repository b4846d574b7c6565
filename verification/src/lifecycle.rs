//! The session lifecycle controller: the single mutable slot holding the
//! active session, and the operations that drive it through its legal
//! transitions.
//!
//! Every operation is specified as a transition function on [`StateModel`],
//! the mathematical view of the controller state; the executable operations
//! are proved to follow those transitions exactly. Outside effects — the
//! capture engine, the remote video service, dialogs, the filesystem — are
//! performed by the embedding process: their outcomes enter as parameters,
//! and each operation returns what the embedding process must do next.

use vstd::prelude::*;
use vstd::string::StringExecFns;
use crate::inputs::{
    Bounds, RecordingMode, ScreenCaptureTarget, StartRecordingInputs, WindowInfo,
    target_name_for, target_name_spec,
};
use crate::session::{
    CaptureHandle, CompletedModel, CompletedRecording, EngineArtifacts, HandleModel,
    InProgressRecording, ProgressiveModel, ProgressiveUpload, SessionModel, TicketModel,
    VideoUploadInfo, completed_of,
};
use crate::meta::{
    ConfigModel, InstantMetaModel, InstantRecordingMeta, MetaInnerModel, MetaModel, Platform,
    ProjectConfiguration, RecordingMeta, RecordingMetaInner, SegmentMeta, SharingMeta,
    SharingModel, StudioMetaModel, StudioRecordingMeta, config_from_recording_spec,
    pretty_name_for, pretty_name_spec, project_config_from_recording,
};
use crate::ident::{
    display_screenshot_path, display_screenshot_path_spec, instant_output_path,
    instant_output_path_spec, instant_output_rel_spec, joined_path, joined_path_spec,
    recording_dir_name, recording_dir_spec,
};

verus! {

/// The shared controller state: the single active session, the metadata
/// entries persisted so far, the session directories currently on disk, and
/// the process-wide resources the controller is responsible for releasing
/// (the per-session log redirection and the camera and microphone feeds).
pub struct RecorderState {
    pub current_recording: Option<InProgressRecording>,
    pub persisted_metas: Vec<RecordingMeta>,
    pub live_dirs: Vec<String>,
    pub log_redirect: bool,
    pub camera_feed: bool,
    pub mic_feed: bool,
}

/// Spec-level mirror of [`RecorderState`].
#[verifier::ext_equal]
pub struct StateModel {
    pub current: Option<SessionModel>,
    pub metas: Seq<MetaModel>,
    pub dirs: Seq<Seq<char>>,
    pub log_redirect: bool,
    pub camera_feed: bool,
    pub mic_feed: bool,
}

impl View for RecorderState {
    type V = StateModel;

    open spec fn view(&self) -> StateModel {
        StateModel {
            current: match &self.current_recording {
                Some(s) => Some(s@),
                None => None,
            },
            metas: self.persisted_metas@.map_values(|m: RecordingMeta| m@),
            dirs: self.live_dirs@.map_values(|d: String| d@),
            log_redirect: self.log_redirect,
            camera_feed: self.camera_feed,
            mic_feed: self.mic_feed,
        }
    }
}

/// The controller state of a process that has never recorded: no session, no
/// persisted metadata, no session directories, no redirected log, no feeds.
pub open spec fn initial_state() -> StateModel {
    StateModel {
        current: None,
        metas: Seq::empty(),
        dirs: Seq::empty(),
        log_redirect: false,
        camera_feed: false,
        mic_feed: false,
    }
}

/// A controller state is well formed when the session it holds, if any, is.
pub open spec fn state_wf(s: StateModel) -> bool {
    match s.current {
        Some(session) => session.wf(),
        None => true,
    }
}

impl RecorderState {
    /// A fresh controller state.
    pub fn new() -> (r: RecorderState)
        ensures
            r@ == initial_state(),
    {
        let r = RecorderState {
            current_recording: None,
            persisted_metas: Vec::new(),
            live_dirs: Vec::new(),
            log_redirect: false,
            camera_feed: false,
            mic_feed: false,
        };
        proof {
            assert(r@ =~~= initial_state());
        }
        r
    }

    /// Whether a session is currently active.
    pub fn is_recording(&self) -> (r: bool)
        ensures
            r == (self@.current is Some),
    {
        self.current_recording.is_some()
    }

    /// Records that the camera feed was opened or closed by the embedding
    /// process.
    pub fn set_camera_feed(&mut self, on: bool)
        ensures
            final(self)@ == (StateModel { camera_feed: on, ..old(self)@ }),
    {
        self.camera_feed = on;
        proof {
            assert(self@ =~~= (StateModel { camera_feed: on, ..old(self)@ }));
        }
    }

    /// Records that the microphone feed was opened or closed by the
    /// embedding process.
    pub fn set_mic_feed(&mut self, on: bool)
        ensures
            final(self)@ == (StateModel { mic_feed: on, ..old(self)@ }),
    {
        self.mic_feed = on;
        proof {
            assert(self@ =~~= (StateModel { mic_feed: on, ..old(self)@ }));
        }
    }
}

/// Everything the embedding process gathered for a start: whether an
/// authenticated identity exists, the fresh session identifier, what the
/// platform reports about the target, the outcome of pre-creating the remote
/// video (instant mode; absent when pre-creation failed or never ran), the
/// display resolved for a window target, and the outcome of spawning the
/// capture engine.
pub struct StartEnv {
    pub authenticated: bool,
    pub id: String,
    pub screen_title: Option<String>,
    pub on_screen_windows: Vec<WindowInfo>,
    pub precreated_video: Option<VideoUploadInfo>,
    pub window_display: Option<u32>,
    pub spawn_outcome: Result<Bounds, String>,
}

/// The view of the pre-created remote video identity in a start environment.
pub open spec fn precreated_view(env: StartEnv) -> Option<TicketModel> {
    match env.precreated_video {
        Some(v) => Some(v@),
        None => None,
    }
}

/// What the embedding process must do right after a successful start: create
/// the session directory, show the shareable link if one exists, occlude the
/// captured region for window and area targets, and protect the camera
/// window from capture during studio recordings.
pub struct StartOutcome {
    pub recording_dir: String,
    pub shareable_link: Option<String>,
    pub show_occluder_over: Option<u32>,
    pub protect_camera_window: bool,
}

/// Spec-level mirror of [`StartOutcome`].
#[verifier::ext_equal]
pub struct StartOutcomeModel {
    pub recording_dir: Seq<char>,
    pub shareable_link: Option<Seq<char>>,
    pub show_occluder_over: Option<u32>,
    pub protect_camera_window: bool,
}

impl View for StartOutcome {
    type V = StartOutcomeModel;

    open spec fn view(&self) -> StartOutcomeModel {
        StartOutcomeModel {
            recording_dir: self.recording_dir@,
            shareable_link: match &self.shareable_link {
                Some(l) => Some(l@),
                None => None,
            },
            show_occluder_over: self.show_occluder_over,
            protect_camera_window: self.protect_camera_window,
        }
    }
}

/// The screen a capture-occlusion overlay is shown over: the resolved
/// display for a window target, the chosen screen for an area target, and
/// none for a whole-screen target.
pub open spec fn occluder_spec(
    target: ScreenCaptureTarget,
    window_display: Option<u32>,
) -> Option<u32> {
    match target {
        ScreenCaptureTarget::Window { .. } => window_display,
        ScreenCaptureTarget::Area { screen, .. } => Some(screen),
        ScreenCaptureTarget::Screen { .. } => None,
    }
}

/// Whether a start is accepted, and the error when it is not: a start is
/// rejected while a session is active, rejected in instant mode without an
/// authenticated identity, and rejected when the capture engine could not be
/// spawned.
pub open spec fn start_result(
    s: StateModel,
    env: StartEnv,
    inputs: StartRecordingInputs,
) -> Result<(), Seq<char>> {
    if s.current is Some {
        Err("Recording already in progress"@)
    } else if inputs.mode == RecordingMode::Instant && !env.authenticated {
        Err("Please sign in to use instant recording"@)
    } else {
        match env.spawn_outcome {
            Err(e) => Err("Failed to spawn recording actor: "@ + e@),
            Ok(_) => Ok(()),
        }
    }
}

/// The session a successful start stores: the target name derived from the
/// platform's reports, the engine handle under the fresh identifier, and —
/// instant mode — the upload ticket when pre-creation succeeded, with a
/// progressive upload spawned exactly when a ticket exists.
pub open spec fn started_session(env: StartEnv, inputs: StartRecordingInputs) -> SessionModel {
    let target_name = target_name_spec(
        inputs.capture_target,
        env.screen_title,
        env.on_screen_windows@,
    );
    let dir = recording_dir_spec(env.id@);
    let handle = HandleModel {
        id: env.id@,
        capture_target: inputs.capture_target,
        bounds: match env.spawn_outcome {
            Ok(b) => b,
            Err(_) => Bounds { x: 0, y: 0, width: 0, height: 0 },
        },
    };
    match inputs.mode {
        RecordingMode::Studio => SessionModel::Studio {
            target_name,
            handle,
            inputs,
            recording_dir: dir,
        },
        RecordingMode::Instant => SessionModel::Instant {
            target_name,
            handle,
            progressive_upload: match precreated_view(env) {
                Some(_) => Some(ProgressiveModel { output_path: instant_output_path_spec(dir) }),
                None => None,
            },
            video_upload_info: precreated_view(env),
            inputs,
            recording_dir: dir,
        },
    }
}

/// The state transition of a start: on acceptance the fresh session fills
/// the slot, its directory is established, and logging is redirected to the
/// per-session log file; a rejected start changes nothing.
pub open spec fn start_transition(
    s: StateModel,
    env: StartEnv,
    inputs: StartRecordingInputs,
) -> StateModel {
    if start_result(s, env, inputs) is Ok {
        StateModel {
            current: Some(started_session(env, inputs)),
            dirs: s.dirs.push(recording_dir_spec(env.id@)),
            log_redirect: true,
            ..s
        }
    } else {
        s
    }
}

/// What a successful start tells the embedding process to do.
pub open spec fn start_outcome_spec(
    env: StartEnv,
    inputs: StartRecordingInputs,
) -> StartOutcomeModel {
    StartOutcomeModel {
        recording_dir: recording_dir_spec(env.id@),
        shareable_link: if inputs.mode == RecordingMode::Instant {
            match precreated_view(env) {
                Some(t) => Some(t.link),
                None => None,
            }
        } else {
            None
        },
        show_occluder_over: occluder_spec(inputs.capture_target, env.window_display),
        protect_camera_window: inputs.mode == RecordingMode::Studio,
    }
}

/// Starts a recording session.
///
/// A start is rejected while a session is already active — the slot is never
/// silently overwritten — and rejected in instant mode when no authenticated
/// identity exists; a failure to spawn the capture engine is surfaced with
/// its reason. Failure of the remote pre-creation does not reject the start:
/// the session then simply carries no upload ticket and no progressive
/// upload. On acceptance the session fills the slot before the call returns,
/// so no later operation can observe a half-initialized session.
pub fn start_recording(
    state: &mut RecorderState,
    env: StartEnv,
    inputs: StartRecordingInputs,
) -> (r: Result<StartOutcome, String>)
    ensures
        final(state)@ == start_transition(old(state)@, env, inputs),
        match r {
            Ok(o) => start_result(old(state)@, env, inputs) is Ok && o@ == start_outcome_spec(
                env,
                inputs,
            ),
            Err(e) => start_result(old(state)@, env, inputs) matches Err(m) && e@ == m,
        },
{
    let ghost env0 = env;
    if state.current_recording.is_some() {
        return Err(String::from_str("Recording already in progress"));
    }
    let is_instant = match inputs.mode {
        RecordingMode::Instant => true,
        RecordingMode::Studio => false,
    };
    if is_instant && !env.authenticated {
        return Err(String::from_str("Please sign in to use instant recording"));
    }
    let bounds = match env.spawn_outcome {
        Ok(b) => b,
        Err(e) => {
            return Err(String::from_str("Failed to spawn recording actor: ").concat(e.as_str()));
        },
    };
    let target_name = target_name_for(&inputs.capture_target, &env.screen_title, &env.on_screen_windows);
    let dir = recording_dir_name(&env.id);
    let shareable_link = if is_instant {
        match &env.precreated_video {
            Some(v) => Some(v.link.clone()),
            None => None,
        }
    } else {
        None
    };
    let show_occluder_over = match &inputs.capture_target {
        ScreenCaptureTarget::Window { .. } => env.window_display,
        ScreenCaptureTarget::Area { screen, .. } => Some(*screen),
        ScreenCaptureTarget::Screen { .. } => None,
    };
    let handle = CaptureHandle { id: env.id, capture_target: inputs.capture_target, bounds };
    let session = if is_instant {
        let progressive_upload = match &env.precreated_video {
            Some(_) => Some(ProgressiveUpload { output_path: instant_output_path(&dir) }),
            None => None,
        };
        InProgressRecording::Instant {
            target_name,
            handle,
            progressive_upload,
            video_upload_info: env.precreated_video,
            inputs,
            recording_dir: dir.clone(),
        }
    } else {
        InProgressRecording::Studio {
            target_name,
            handle,
            inputs,
            recording_dir: dir.clone(),
        }
    };
    state.current_recording = Some(session);
    state.live_dirs.push(dir.clone());
    state.log_redirect = true;
    proof {
        assert(state.live_dirs@.map_values(|d: String| d@) =~= old(
            state,
        )@.dirs.push(recording_dir_spec(env0.id@)));
        assert(state@ =~~= start_transition(old(state)@, env0, inputs));
    }
    let outcome = StartOutcome {
        recording_dir: dir,
        shareable_link,
        show_occluder_over,
        protect_camera_window: !is_instant,
    };
    proof {
        assert(outcome@ =~~= start_outcome_spec(env0, inputs));
    }
    Ok(outcome)
}

/// Pauses the active session by delegating to the capture engine, whose
/// outcome is surfaced verbatim. Pausing when no session is active is
/// harmless and succeeds. The controller state is unchanged either way.
pub fn pause_recording(state: &mut RecorderState, engine_result: Result<(), String>) -> (r: Result<
    (),
    String,
>)
    ensures
        final(state)@ == old(state)@,
        r == (if old(state)@.current is Some {
            engine_result
        } else {
            Result::<(), String>::Ok(())
        }),
{
    match &state.current_recording {
        Some(recording) => recording.pause(engine_result),
        None => Ok(()),
    }
}

/// How the end of a studio recording is presented: the project editor is
/// opened, or a transient "recording added" overlay is shown.
#[derive(Clone, Copy, PartialEq, Eq, Structural, Debug)]
pub enum PostStudioRecordingBehaviour {
    OpenEditor,
    ShowOverlay,
}

/// Everything the embedding process supplies for finalization: the timestamp
/// that names the recording, the platform tag, the user's default preset if
/// one exists, the configured post-recording behaviour, and whether the main
/// window is open (when it is not, the camera and microphone feeds are
/// released during cleanup).
pub struct FinishEnv {
    pub timestamp: String,
    pub platform: Platform,
    pub default_config: Option<ProjectConfiguration>,
    pub post_studio_behaviour: PostStudioRecordingBehaviour,
    pub main_window_open: bool,
}

/// The view of the default preset in a finish environment.
pub open spec fn default_config_view(env: FinishEnv) -> Option<ConfigModel> {
    match env.default_config {
        Some(c) => Some(c@),
        None => None,
    }
}

/// What the embedding process must do once a session has stopped
/// successfully: persist the metadata, write the project configuration
/// (studio), render a screenshot from the display output into the screenshots
/// directory, open the shareable link (instant, when a ticket exists), run
/// the upload follow-up decision (instant), and present the studio
/// post-recording behaviour.
pub struct StopOutcome {
    pub meta: RecordingMeta,
    pub project_config: Option<ProjectConfiguration>,
    pub screenshot_source: String,
    pub screenshot_target: String,
    pub open_link: Option<String>,
    pub run_upload_followup: bool,
    pub post_studio_action: Option<PostStudioRecordingBehaviour>,
}

/// Spec-level mirror of [`StopOutcome`].
#[verifier::ext_equal]
pub struct StopOutcomeModel {
    pub meta: MetaModel,
    pub project_config: Option<ConfigModel>,
    pub screenshot_source: Seq<char>,
    pub screenshot_target: Seq<char>,
    pub open_link: Option<Seq<char>>,
    pub run_upload_followup: bool,
    pub post_studio_action: Option<PostStudioRecordingBehaviour>,
}

impl View for StopOutcome {
    type V = StopOutcomeModel;

    open spec fn view(&self) -> StopOutcomeModel {
        StopOutcomeModel {
            meta: self.meta@,
            project_config: match &self.project_config {
                Some(c) => Some(c@),
                None => None,
            },
            screenshot_source: self.screenshot_source@,
            screenshot_target: self.screenshot_target@,
            open_link: match &self.open_link {
                Some(l) => Some(l@),
                None => None,
            },
            run_upload_followup: self.run_upload_followup,
            post_studio_action: self.post_studio_action,
        }
    }
}

/// Where the display output of the first capture segment lies, relative to
/// the project directory: the representative screenshot is rendered from it.
pub open spec fn display_source_rel(meta: StudioMetaModel) -> Seq<char> {
    match meta {
        StudioMetaModel::SingleSegment { segment } => segment.display_path,
        StudioMetaModel::MultipleSegments { segments } => segments[0].display_path,
    }
}

/// The file the representative screenshot is rendered from: the first
/// segment's display output for a studio recording, the muxed output file
/// for an instant recording.
pub open spec fn screenshot_source_spec(c: CompletedModel) -> Seq<char> {
    match c {
        CompletedModel::Studio { meta, project_path, .. } => joined_path_spec(
            project_path,
            display_source_rel(meta),
        ),
        CompletedModel::Instant { project_path, .. } => instant_output_path_spec(project_path),
    }
}

/// The metadata persisted for a completed recording: the platform tag, the
/// project path, sharing information exactly when an instant recording has a
/// remote identity, the display name made of the target name and the
/// timestamp, and the mode-specific payload.
pub open spec fn finish_meta(c: CompletedModel, timestamp: Seq<char>, platform: Platform) -> MetaModel {
    MetaModel {
        platform,
        project_path: c.project_path(),
        sharing: match c {
            CompletedModel::Instant { video_upload_info: Some(t), .. } => Some(
                SharingModel { link: t.link, id: t.id },
            ),
            _ => None,
        },
        pretty_name: pretty_name_spec(c.target_name(), timestamp),
        inner: match c {
            CompletedModel::Studio { meta, .. } => MetaInnerModel::Studio(meta),
            CompletedModel::Instant { .. } => MetaInnerModel::Instant(
                InstantMetaModel { output_path: instant_output_rel_spec() },
            ),
        },
    }
}

/// What a successful stop tells the embedding process to do.
pub open spec fn stop_outcome_spec(c: CompletedModel, env: FinishEnv) -> StopOutcomeModel {
    StopOutcomeModel {
        meta: finish_meta(c, env.timestamp@, env.platform),
        project_config: match c {
            CompletedModel::Studio { meta, .. } => Some(
                config_from_recording_spec(meta.segments(), default_config_view(env)),
            ),
            CompletedModel::Instant { .. } => None,
        },
        screenshot_source: screenshot_source_spec(c),
        screenshot_target: display_screenshot_path_spec(c.project_path()),
        open_link: match c {
            CompletedModel::Instant { video_upload_info: Some(t), .. } => Some(t.link),
            _ => None,
        },
        run_upload_followup: c is Instant,
        post_studio_action: match c {
            CompletedModel::Studio { .. } => Some(env.post_studio_behaviour),
            CompletedModel::Instant { .. } => None,
        },
    }
}

/// The end-of-session cleanup run whenever a session leaves the slot for any
/// reason: the slot is empty, logging is no longer redirected, and — when the
/// main window is closed — the camera and microphone feeds are released.
pub open spec fn end_cleanup(s: StateModel, main_window_open: bool) -> StateModel {
    StateModel {
        current: None,
        log_redirect: false,
        camera_feed: s.camera_feed && main_window_open,
        mic_feed: s.mic_feed && main_window_open,
        ..s
    }
}

/// Whether a stop is accepted, and the error when it is not: stopping with
/// no active session is a caller mistake, and an engine failure is surfaced
/// verbatim.
pub open spec fn stop_result(s: StateModel, engine: Result<EngineArtifacts, String>) -> Result<
    (),
    Seq<char>,
> {
    if s.current is None {
        Err("Recording not in progress"@)
    } else {
        match engine {
            Err(e) => Err(e@),
            Ok(_) => Ok(()),
        }
    }
}

/// The state transition of a stop: the slot is cleared whenever a session
/// existed — even when the engine fails — and exactly on engine success one
/// metadata entry is appended; end-of-session cleanup runs on both paths.
pub open spec fn stop_transition(
    s: StateModel,
    engine: Result<EngineArtifacts, String>,
    env: FinishEnv,
) -> StateModel {
    match s.current {
        None => s,
        Some(sess) => {
            let cleaned = end_cleanup(s, env.main_window_open);
            match engine {
                Err(_) => cleaned,
                Ok(a) => StateModel {
                    metas: cleaned.metas.push(
                        finish_meta(completed_of(sess, a), env.timestamp@, env.platform),
                    ),
                    ..cleaned
                },
            }
        },
    }
}

/// Releases what the controller owns at the end of a session: empties the
/// slot, restores plain logging, and — when the main window is closed —
/// releases the camera and microphone feeds.
fn end_session_cleanup(state: &mut RecorderState, main_window_open: bool)
    ensures
        final(state)@ == end_cleanup(old(state)@, main_window_open),
{
    state.current_recording = None;
    state.log_redirect = false;
    if !main_window_open {
        state.camera_feed = false;
        state.mic_feed = false;
    }
    proof {
        assert(state@ =~~= end_cleanup(old(state)@, main_window_open));
    }
}

/// Validity of the engine's stop artifacts for the session they belong to:
/// the variant agrees with the session's mode, a studio layout is well
/// formed, and its segment count fits the timeline indices.
pub open spec fn artifacts_valid_for(a: EngineArtifacts, sess: SessionModel) -> bool {
    &&& a.mode() == sess.mode()
    &&& match a {
        EngineArtifacts::Studio { meta } => meta@.wf() && meta@.segments().len() <= u32::MAX,
        EngineArtifacts::Instant => true,
    }
}

/// Finalizes a completed recording: appends exactly one metadata entry to
/// the persisted record, runs end-of-session cleanup, and returns what the
/// embedding process must still do.
fn handle_recording_finish(
    state: &mut RecorderState,
    completed: CompletedRecording,
    env: FinishEnv,
) -> (o: StopOutcome)
    requires
        completed@ matches CompletedModel::Studio { meta, .. } ==> meta.wf() && meta.segments().len()
            <= u32::MAX,
    ensures
        final(state)@ == (StateModel {
            metas: old(state)@.metas.push(
                finish_meta(completed@, env.timestamp@, env.platform),
            ),
            ..end_cleanup(old(state)@, env.main_window_open)
        }),
        o@ == stop_outcome_spec(completed@, env),
{
    let ghost env0 = env;
    let ghost completed0 = completed@;
    let screenshot_target = display_screenshot_path(completed.project_path());
    let screenshot_source = match &completed {
        CompletedRecording::Studio { meta, project_path, .. } => {
            let rel = match meta {
                StudioRecordingMeta::SingleSegment { segment } => &segment.display_path,
                StudioRecordingMeta::MultipleSegments { segments } => &segments[0].display_path,
            };
            joined_path(project_path, rel)
        },
        CompletedRecording::Instant { project_path, .. } => instant_output_path(project_path),
    };
    let project_config = match &completed {
        CompletedRecording::Studio { meta, .. } => {
            let config = match meta {
                StudioRecordingMeta::SingleSegment { segment } => {
                    let one: Vec<SegmentMeta> = vec![segment.duplicate()];
                    proof {
                        assert(one@.map_values(|s: SegmentMeta| s@) =~= completed0->Studio_meta.segments());
                    }
                    project_config_from_recording(&one, env.default_config)
                },
                StudioRecordingMeta::MultipleSegments { segments } => {
                    project_config_from_recording(segments, env.default_config)
                },
            };
            Some(config)
        },
        CompletedRecording::Instant { .. } => None,
    };
    let pretty_name = pretty_name_for(completed.target_name(), &env.timestamp);
    let (project_path, sharing, inner, open_link) = match completed {
        CompletedRecording::Studio { project_path, meta, .. } => (
            project_path,
            None,
            RecordingMetaInner::Studio(meta),
            None,
        ),
        CompletedRecording::Instant { project_path, video_upload_info, .. } => {
            let (sharing, open_link) = match video_upload_info {
                Some(t) => (
                    Some(SharingMeta { link: t.link.clone(), id: t.id }),
                    Some(t.link),
                ),
                None => (None, None),
            };
            (
                project_path,
                sharing,
                RecordingMetaInner::Instant(
                    InstantRecordingMeta { output_path: String::from_str("content/output.mp4") },
                ),
                open_link,
            )
        },
    };
    let run_upload_followup = match &inner {
        RecordingMetaInner::Instant(_) => true,
        RecordingMetaInner::Studio(_) => false,
    };
    let post_studio_action = match &inner {
        RecordingMetaInner::Studio(_) => Some(env.post_studio_behaviour),
        RecordingMetaInner::Instant(_) => None,
    };
    let meta = RecordingMeta {
        platform: env.platform,
        project_path,
        sharing,
        pretty_name,
        inner,
    };
    proof {
        assert(meta@ =~~= finish_meta(completed0, env0.timestamp@, env0.platform));
    }
    state.persisted_metas.push(meta.duplicate());
    end_session_cleanup(state, env.main_window_open);
    proof {
        assert(state.persisted_metas@.map_values(|m: RecordingMeta| m@) =~= old(
            state,
        )@.metas.push(finish_meta(completed0, env0.timestamp@, env0.platform)));
        assert(state@ =~~= (StateModel {
            metas: old(state)@.metas.push(finish_meta(completed0, env0.timestamp@, env0.platform)),
            ..end_cleanup(old(state)@, env0.main_window_open)
        }));
    }
    let o = StopOutcome {
        meta,
        project_config,
        screenshot_source,
        screenshot_target,
        open_link,
        run_upload_followup,
        post_studio_action,
    };
    proof {
        assert(o@ =~~= stop_outcome_spec(completed0, env0));
    }
    o
}

/// Stops the active session.
///
/// The slot is cleared before the engine's terminal operation is observed,
/// so any concurrent lifecycle call sees "no active session" rather than a
/// handle mid-teardown. Stopping with no active session is a caller mistake
/// and is rejected. An engine failure is surfaced verbatim, and end-of-
/// session cleanup still runs, so no resource outlives the session on the
/// error path. On success exactly one metadata entry is appended, and the
/// returned outcome carries everything the embedding process must persist,
/// render, open and present.
pub fn stop_recording(
    state: &mut RecorderState,
    engine_outcome: Result<EngineArtifacts, String>,
    env: FinishEnv,
) -> (r: Result<StopOutcome, String>)
    requires
        match (old(state)@.current, engine_outcome) {
            (Some(sess), Ok(a)) => artifacts_valid_for(a, sess),
            _ => true,
        },
    ensures
        final(state)@ == stop_transition(old(state)@, engine_outcome, env),
        match r {
            Ok(o) => old(state)@.current matches Some(sess) && engine_outcome matches Ok(a)
                && o@ == stop_outcome_spec(completed_of(sess, a), env),
            Err(e) => stop_result(old(state)@, engine_outcome) matches Err(m) && e@ == m,
        },
{
    let ghost s0 = state@;
    let ghost engine0 = engine_outcome;
    let ghost env0 = env;
    let taken = state.current_recording.take();
    let current = match taken {
        Some(c) => c,
        None => {
            proof {
                assert(state@ =~~= s0);
            }
            return Err(String::from_str("Recording not in progress"));
        },
    };
    let completed = match current.stop(engine_outcome) {
        Ok(c) => c,
        Err(e) => {
            end_session_cleanup(state, env.main_window_open);
            proof {
                assert(state@ =~~= stop_transition(s0, engine0, env0));
            }
            return Err(e);
        },
    };
    let outcome = handle_recording_finish(state, completed, env);
    proof {
        assert(state@ =~~= stop_transition(s0, engine0, env0));
    }
    Ok(outcome)
}

/// Resumes the active session by delegating to the capture engine, whose
/// outcome is surfaced verbatim. Resuming when no session is active is
/// harmless and succeeds. The controller state is unchanged either way.
pub fn resume_recording(state: &mut RecorderState, engine_result: Result<(), String>) -> (r: Result<
    (),
    String,
>)
    ensures
        final(state)@ == old(state)@,
        r == (if old(state)@.current is Some {
            engine_result
        } else {
            Result::<(), String>::Ok(())
        }),
{
    match &state.current_recording {
        Some(recording) => recording.resume(engine_result),
        None => Ok(()),
    }
}

/// What the embedding process must do after a cancel or delete: remove the
/// session directory tree, and — when the session had a pre-created remote
/// video — issue a best-effort remote delete for it.
pub struct DeleteOutcome {
    pub removed_dir: Option<String>,
    pub remote_delete_video_id: Option<String>,
}

/// Spec-level mirror of [`DeleteOutcome`].
#[verifier::ext_equal]
pub struct DeleteOutcomeModel {
    pub removed_dir: Option<Seq<char>>,
    pub remote_delete_video_id: Option<Seq<char>>,
}

impl View for DeleteOutcome {
    type V = DeleteOutcomeModel;

    open spec fn view(&self) -> DeleteOutcomeModel {
        DeleteOutcomeModel {
            removed_dir: match &self.removed_dir {
                Some(d) => Some(d@),
                None => None,
            },
            remote_delete_video_id: match &self.remote_delete_video_id {
                Some(i) => Some(i@),
                None => None,
            },
        }
    }
}

/// The directories that remain once every one equal to `dir` is removed,
/// their order kept.
pub open spec fn dirs_without(dirs: Seq<Seq<char>>, dir: Seq<char>) -> Seq<Seq<char>>
    decreases dirs.len(),
{
    if dirs.len() == 0 {
        Seq::empty()
    } else {
        let rest = dirs_without(dirs.drop_last(), dir);
        if dirs.last() == dir {
            rest
        } else {
            rest.push(dirs.last())
        }
    }
}

/// The state transition of a cancel or delete: the slot is emptied, the
/// session's directory leaves the set of directories on disk, logging is no
/// longer redirected — and no metadata is written. With no active session
/// nothing changes.
pub open spec fn cancel_transition(s: StateModel) -> StateModel {
    match s.current {
        None => s,
        Some(sess) => StateModel {
            current: None,
            dirs: dirs_without(s.dirs, sess.recording_dir()),
            log_redirect: false,
            ..s
        },
    }
}

/// What a cancel or delete tells the embedding process to do.
pub open spec fn delete_outcome_spec(s: StateModel) -> DeleteOutcomeModel {
    match s.current {
        None => DeleteOutcomeModel { removed_dir: None, remote_delete_video_id: None },
        Some(sess) => DeleteOutcomeModel {
            removed_dir: Some(sess.recording_dir()),
            remote_delete_video_id: match sess.video_upload_info() {
                Some(t) => Some(t.id),
                None => None,
            },
        },
    }
}

/// Deletes the active session, discarding its output.
///
/// The session leaves the slot, its directory is removed, and — for an
/// instant session with a pre-created remote video — a best-effort remote
/// delete is requested. No metadata is ever written on this path. Deleting
/// with no active session is harmless.
pub fn delete_recording(state: &mut RecorderState) -> (r: DeleteOutcome)
    ensures
        final(state)@ == cancel_transition(old(state)@),
        r@ == delete_outcome_spec(old(state)@),
{
    let ghost s0 = state@;
    let taken = state.current_recording.take();
    let recording = match taken {
        Some(rec) => rec,
        None => {
            proof {
                assert(state@ =~~= s0);
            }
            return DeleteOutcome { removed_dir: None, remote_delete_video_id: None };
        },
    };
    let dir = recording.recording_dir().clone();
    let remote_delete_video_id = match &recording {
        InProgressRecording::Instant { video_upload_info: Some(t), .. } => Some(t.id.clone()),
        _ => None,
    };
    let mut kept: Vec<String> = Vec::new();
    let mut i: usize = 0;
    while i < state.live_dirs.len()
        invariant
            i <= state.live_dirs.len(),
            kept@.map_values(|d: String| d@) =~~= dirs_without(
                state.live_dirs@.take(i as int).map_values(|d: String| d@),
                dir@,
            ),
            dir@ == recording@.recording_dir(),
        decreases state.live_dirs.len() - i,
    {
        let ghost kept0 = kept@;
        if !string_eq(&state.live_dirs[i], &dir) {
            kept.push(state.live_dirs[i].clone());
        }
        proof {
            let prefix = state.live_dirs@.take(i as int).map_values(|d: String| d@);
            let extended = state.live_dirs@.take(i + 1).map_values(|d: String| d@);
            assert(extended.len() == i + 1);
            assert(extended.last() == state.live_dirs@[i as int]@);
            assert(extended.drop_last() =~~= prefix);
            if state.live_dirs@[i as int]@ != dir@ {
                assert(kept@ == kept0.push(state.live_dirs@[i as int]));
                assert(kept@.map_values(|d: String| d@) =~~= kept0.map_values(
                    |d: String| d@,
                ).push(state.live_dirs@[i as int]@));
            } else {
                assert(kept@ == kept0);
            }
            assert(kept@.map_values(|d: String| d@) =~~= dirs_without(extended, dir@));
        }
        i = i + 1;
    }
    proof {
        assert(state.live_dirs@.take(state.live_dirs@.len() as int) =~= state.live_dirs@);
    }
    state.live_dirs = kept;
    state.log_redirect = false;
    proof {
        assert(state@ =~~= cancel_transition(s0));
    }
    let r = DeleteOutcome { removed_dir: Some(dir), remote_delete_video_id };
    proof {
        assert(r@ =~~= delete_outcome_spec(s0));
    }
    r
}

/// Whether two strings hold the same characters.
fn string_eq(a: &String, b: &String) -> (r: bool)
    ensures
        r == (a@ == b@),
{
    a.eq(b)
}

/// Whether a restart is accepted, and the error when it is not: a restart
/// needs an active session to take its inputs from; afterwards it is
/// accepted exactly as a fresh start of those inputs is.
pub open spec fn restart_result(s: StateModel, env: StartEnv) -> Result<(), Seq<char>> {
    match s.current {
        None => Err("No recording in progress"@),
        Some(sess) => start_result(cancel_transition(s), env, sess.inputs()),
    }
}

/// The state transition of a restart: exactly a cancel followed by a start
/// with the inputs the active session was started with.
pub open spec fn restart_transition(s: StateModel, env: StartEnv) -> StateModel {
    match s.current {
        None => s,
        Some(sess) => start_transition(cancel_transition(s), env, sess.inputs()),
    }
}

/// Restarts the active session: cancels it — with the same cleanup a delete
/// performs — and starts a fresh session with the inputs the old one was
/// started with (capture target, audio flag and mode unchanged), under the
/// fresh identity in `env`. The returned pair carries the cleanup the
/// embedding process owes for the old session and the outcome of the new
/// start. Restarting with no active session is rejected.
pub fn restart_recording(state: &mut RecorderState, env: StartEnv) -> (r: (
    DeleteOutcome,
    Result<StartOutcome, String>,
))
    ensures
        final(state)@ == restart_transition(old(state)@, env),
        r.0@ == delete_outcome_spec(old(state)@),
        match r.1 {
            Ok(o) => restart_result(old(state)@, env) is Ok && (old(state)@.current matches Some(
                sess,
            ) && o@ == start_outcome_spec(env, sess.inputs())),
            Err(e) => restart_result(old(state)@, env) matches Err(m) && e@ == m,
        },
{
    let ghost s0 = state@;
    let inputs = match &state.current_recording {
        Some(recording) => *recording.inputs(),
        None => {
            return (
                DeleteOutcome { removed_dir: None, remote_delete_video_id: None },
                Err(String::from_str("No recording in progress")),
            );
        },
    };
    let cleanup = delete_recording(state);
    let started = start_recording(state, env, inputs);
    (cleanup, started)
}

/// The completion signal observed by the supervising monitor: the capture
/// actor reported success, it reported a failure, or its channel closed
/// without any signal — the actor task panicked.
pub enum ActorDoneEvent {
    Success,
    ReportedFailure { message: String },
    ChannelClosed,
}

/// What the monitor tells the embedding process to do: fire the progressive
/// upload's finish trigger, or show a blocking error dialog with the given
/// message.
pub struct MonitorOutcome {
    pub fire_finish_upload: bool,
    pub dialog_message: Option<String>,
}

/// The dialog shown for a completion signal: none on success, the reported
/// reason on failure, and a generic message when the actor panicked without
/// signaling.
pub open spec fn monitor_message_spec(event: ActorDoneEvent) -> Option<Seq<char>> {
    match event {
        ActorDoneEvent::Success => None,
        ActorDoneEvent::ReportedFailure { message } => Some(message@),
        ActorDoneEvent::ChannelClosed => Some("Recording failed unexpectedly"@),
    }
}

/// The state transition of the monitor: success leaves the state to the
/// explicit stop path; a reported failure and a silent channel closure both
/// run the same end-of-session cleanup, so no session, feed or log redirect
/// outlives a crashed actor.
pub open spec fn monitor_transition(
    s: StateModel,
    event: ActorDoneEvent,
    main_window_open: bool,
) -> StateModel {
    match event {
        ActorDoneEvent::Success => s,
        ActorDoneEvent::ReportedFailure { .. } => end_cleanup(s, main_window_open),
        ActorDoneEvent::ChannelClosed => end_cleanup(s, main_window_open),
    }
}

/// Reacts to the capture actor's completion signal.
///
/// On success the progressive upload's finish trigger is fired and nothing
/// else happens — the explicit stop path owns finalization. On a reported
/// failure, and equally on a channel closure without any signal, an error
/// dialog is requested and the end-of-session cleanup runs: the slot is
/// cleared, logging is restored, and — when the main window is closed — the
/// camera and microphone feeds are released, so a crashed actor leaves no
/// stray handles in shared state.
pub fn handle_actor_done(
    state: &mut RecorderState,
    event: ActorDoneEvent,
    main_window_open: bool,
) -> (r: MonitorOutcome)
    ensures
        final(state)@ == monitor_transition(old(state)@, event, main_window_open),
        r.fire_finish_upload == (event is Success),
        match r.dialog_message {
            Some(m) => monitor_message_spec(event) matches Some(m2) && m@ == m2,
            None => monitor_message_spec(event) is None,
        },
{
    match event {
        ActorDoneEvent::Success => MonitorOutcome {
            fire_finish_upload: true,
            dialog_message: None,
        },
        ActorDoneEvent::ReportedFailure { message } => {
            end_session_cleanup(state, main_window_open);
            MonitorOutcome { fire_finish_upload: false, dialog_message: Some(message) }
        },
        ActorDoneEvent::ChannelClosed => {
            end_session_cleanup(state, main_window_open);
            MonitorOutcome {
                fire_finish_upload: false,
                dialog_message: Some(String::from_str("Recording failed unexpectedly")),
            }
        },
    }
}

} // verus!
