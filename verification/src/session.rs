//! The single active recording session and the completed recording produced
//! by stopping it.
//!
//! The capture engine itself runs outside the library; its handle is
//! represented here by the values the lifecycle reads from it (the session
//! identifier, the capture target and its geometry), and the outcome of each
//! engine call enters as a plain `Result`.

use vstd::prelude::*;
use crate::inputs::{Bounds, RecordingMode, ScreenCaptureTarget, StartRecordingInputs};
use crate::meta::{StudioMetaModel, StudioRecordingMeta};

verus! {

/// The pre-allocated identity of an instantly-shared recording on the remote
/// video service: its identifier and the shareable link.
pub struct VideoUploadInfo {
    pub id: String,
    pub link: String,
}

/// Spec-level mirror of [`VideoUploadInfo`].
#[verifier::ext_equal]
pub struct TicketModel {
    pub id: Seq<char>,
    pub link: Seq<char>,
}

impl View for VideoUploadInfo {
    type V = TicketModel;

    open spec fn view(&self) -> TicketModel {
        TicketModel { id: self.id@, link: self.link@ }
    }
}

/// A progressive multipart upload running concurrently with capture. It
/// streams the muxed output file as bytes are produced; the embedding
/// process drives the actual transfer.
pub struct ProgressiveUpload {
    pub output_path: String,
}

/// Spec-level mirror of [`ProgressiveUpload`].
#[verifier::ext_equal]
pub struct ProgressiveModel {
    pub output_path: Seq<char>,
}

impl View for ProgressiveUpload {
    type V = ProgressiveModel;

    open spec fn view(&self) -> ProgressiveModel {
        ProgressiveModel { output_path: self.output_path@ }
    }
}

/// What the lifecycle holds of a running capture engine: the session
/// identifier it was spawned with, the capture target, and the geometry the
/// engine reported. Pause, resume, stop and cancel are performed by the
/// engine itself; their outcomes enter the lifecycle as plain results.
pub struct CaptureHandle {
    pub id: String,
    pub capture_target: ScreenCaptureTarget,
    pub bounds: Bounds,
}

/// Spec-level mirror of [`CaptureHandle`].
#[verifier::ext_equal]
pub struct HandleModel {
    pub id: Seq<char>,
    pub capture_target: ScreenCaptureTarget,
    pub bounds: Bounds,
}

impl View for CaptureHandle {
    type V = HandleModel;

    open spec fn view(&self) -> HandleModel {
        HandleModel { id: self.id@, capture_target: self.capture_target, bounds: self.bounds }
    }
}

/// The single active recording session: an instant recording with its upload
/// machinery, or a studio recording.
pub enum InProgressRecording {
    Instant {
        target_name: String,
        handle: CaptureHandle,
        progressive_upload: Option<ProgressiveUpload>,
        video_upload_info: Option<VideoUploadInfo>,
        inputs: StartRecordingInputs,
        recording_dir: String,
    },
    Studio {
        target_name: String,
        handle: CaptureHandle,
        inputs: StartRecordingInputs,
        recording_dir: String,
    },
}

/// Spec-level mirror of [`InProgressRecording`].
#[verifier::ext_equal]
pub enum SessionModel {
    Instant {
        target_name: Seq<char>,
        handle: HandleModel,
        progressive_upload: Option<ProgressiveModel>,
        video_upload_info: Option<TicketModel>,
        inputs: StartRecordingInputs,
        recording_dir: Seq<char>,
    },
    Studio {
        target_name: Seq<char>,
        handle: HandleModel,
        inputs: StartRecordingInputs,
        recording_dir: Seq<char>,
    },
}

impl View for InProgressRecording {
    type V = SessionModel;

    open spec fn view(&self) -> SessionModel {
        match self {
            InProgressRecording::Instant {
                target_name,
                handle,
                progressive_upload,
                video_upload_info,
                inputs,
                recording_dir,
            } => SessionModel::Instant {
                target_name: target_name@,
                handle: handle@,
                progressive_upload: match progressive_upload {
                    Some(p) => Some(p@),
                    None => None,
                },
                video_upload_info: match video_upload_info {
                    Some(v) => Some(v@),
                    None => None,
                },
                inputs: *inputs,
                recording_dir: recording_dir@,
            },
            InProgressRecording::Studio { target_name, handle, inputs, recording_dir } => {
                SessionModel::Studio {
                    target_name: target_name@,
                    handle: handle@,
                    inputs: *inputs,
                    recording_dir: recording_dir@,
                }
            },
        }
    }
}

impl SessionModel {
    /// The mode the session was started in.
    pub open spec fn mode(self) -> RecordingMode {
        match self {
            SessionModel::Instant { .. } => RecordingMode::Instant,
            SessionModel::Studio { .. } => RecordingMode::Studio,
        }
    }

    /// The start inputs kept in the session.
    pub open spec fn inputs(self) -> StartRecordingInputs {
        match self {
            SessionModel::Instant { inputs, .. } => inputs,
            SessionModel::Studio { inputs, .. } => inputs,
        }
    }

    /// The session's on-disk directory.
    pub open spec fn recording_dir(self) -> Seq<char> {
        match self {
            SessionModel::Instant { recording_dir, .. } => recording_dir,
            SessionModel::Studio { recording_dir, .. } => recording_dir,
        }
    }

    /// The human-readable target name derived at start.
    pub open spec fn target_name(self) -> Seq<char> {
        match self {
            SessionModel::Instant { target_name, .. } => target_name,
            SessionModel::Studio { target_name, .. } => target_name,
        }
    }

    /// The capture engine handle held by the session.
    pub open spec fn handle(self) -> HandleModel {
        match self {
            SessionModel::Instant { handle, .. } => handle,
            SessionModel::Studio { handle, .. } => handle,
        }
    }

    /// The remote video identity pre-allocated for an instant session, if
    /// pre-creation succeeded. Always absent for studio sessions.
    pub open spec fn video_upload_info(self) -> Option<TicketModel> {
        match self {
            SessionModel::Instant { video_upload_info, .. } => video_upload_info,
            SessionModel::Studio { .. } => None,
        }
    }

    /// The progressive upload spawned for an instant session, if any.
    pub open spec fn progressive_upload(self) -> Option<ProgressiveModel> {
        match self {
            SessionModel::Instant { progressive_upload, .. } => progressive_upload,
            SessionModel::Studio { .. } => None,
        }
    }

    /// A session is well formed when its variant agrees with the mode in its
    /// start inputs, and a progressive upload exists only under a remote
    /// video identity to stream to.
    pub open spec fn wf(self) -> bool {
        &&& self.mode() == self.inputs().mode
        &&& self.progressive_upload() is Some ==> self.video_upload_info() is Some
    }
}

/// What the capture engine hands back when a session is stopped
/// successfully: for a studio session, the layout of the captured segments;
/// for an instant session, nothing beyond the muxed output file at its
/// conventional place.
pub enum EngineArtifacts {
    Instant,
    Studio { meta: StudioRecordingMeta },
}

impl EngineArtifacts {
    /// The mode of session these artifacts belong to.
    pub open spec fn mode(self) -> RecordingMode {
        match self {
            EngineArtifacts::Instant => RecordingMode::Instant,
            EngineArtifacts::Studio { .. } => RecordingMode::Studio,
        }
    }
}

/// A recording produced by a successful stop: its identifier, its project
/// directory, its target name, and — for instant recordings — the upload
/// bookkeeping carried over from the session.
pub enum CompletedRecording {
    Instant {
        id: String,
        project_path: String,
        target_name: String,
        progressive_upload: Option<ProgressiveUpload>,
        video_upload_info: Option<VideoUploadInfo>,
    },
    Studio {
        id: String,
        project_path: String,
        target_name: String,
        meta: StudioRecordingMeta,
    },
}

/// Spec-level mirror of [`CompletedRecording`].
#[verifier::ext_equal]
pub enum CompletedModel {
    Instant {
        id: Seq<char>,
        project_path: Seq<char>,
        target_name: Seq<char>,
        progressive_upload: Option<ProgressiveModel>,
        video_upload_info: Option<TicketModel>,
    },
    Studio {
        id: Seq<char>,
        project_path: Seq<char>,
        target_name: Seq<char>,
        meta: StudioMetaModel,
    },
}

impl View for CompletedRecording {
    type V = CompletedModel;

    open spec fn view(&self) -> CompletedModel {
        match self {
            CompletedRecording::Instant {
                id,
                project_path,
                target_name,
                progressive_upload,
                video_upload_info,
            } => CompletedModel::Instant {
                id: id@,
                project_path: project_path@,
                target_name: target_name@,
                progressive_upload: match progressive_upload {
                    Some(p) => Some(p@),
                    None => None,
                },
                video_upload_info: match video_upload_info {
                    Some(v) => Some(v@),
                    None => None,
                },
            },
            CompletedRecording::Studio { id, project_path, target_name, meta } => {
                CompletedModel::Studio {
                    id: id@,
                    project_path: project_path@,
                    target_name: target_name@,
                    meta: meta@,
                }
            },
        }
    }
}

impl CompletedModel {
    /// The identifier of the completed recording.
    pub open spec fn id(self) -> Seq<char> {
        match self {
            CompletedModel::Instant { id, .. } => id,
            CompletedModel::Studio { id, .. } => id,
        }
    }

    /// The on-disk project directory.
    pub open spec fn project_path(self) -> Seq<char> {
        match self {
            CompletedModel::Instant { project_path, .. } => project_path,
            CompletedModel::Studio { project_path, .. } => project_path,
        }
    }

    /// The target name carried over from the session.
    pub open spec fn target_name(self) -> Seq<char> {
        match self {
            CompletedModel::Instant { target_name, .. } => target_name,
            CompletedModel::Studio { target_name, .. } => target_name,
        }
    }
}

/// The completed recording obtained by stopping `session` once the engine
/// reported the given artifacts: the session's identifier, directory, target
/// name and upload bookkeeping, joined with what the engine produced.
pub open spec fn completed_of(session: SessionModel, artifacts: EngineArtifacts) -> CompletedModel {
    match session {
        SessionModel::Instant {
            target_name,
            handle,
            progressive_upload,
            video_upload_info,
            recording_dir,
            ..
        } => CompletedModel::Instant {
            id: handle.id,
            project_path: recording_dir,
            target_name: target_name,
            progressive_upload: progressive_upload,
            video_upload_info: video_upload_info,
        },
        SessionModel::Studio { target_name, handle, recording_dir, .. } => {
            CompletedModel::Studio {
                id: handle.id,
                project_path: recording_dir,
                target_name: target_name,
                meta: match artifacts {
                    EngineArtifacts::Studio { meta } => meta@,
                    EngineArtifacts::Instant => StudioMetaModel::MultipleSegments {
                        segments: Seq::empty(),
                    },
                },
            }
        },
    }
}

impl CompletedRecording {
    /// The identifier of the completed recording.
    pub fn id(&self) -> (r: &String)
        ensures
            r@ == self@.id(),
    {
        match self {
            CompletedRecording::Instant { id, .. } => id,
            CompletedRecording::Studio { id, .. } => id,
        }
    }

    /// The on-disk project directory of the completed recording.
    pub fn project_path(&self) -> (r: &String)
        ensures
            r@ == self@.project_path(),
    {
        match self {
            CompletedRecording::Instant { project_path, .. } => project_path,
            CompletedRecording::Studio { project_path, .. } => project_path,
        }
    }

    /// The target name carried over from the session.
    pub fn target_name(&self) -> (r: &String)
        ensures
            r@ == self@.target_name(),
    {
        match self {
            CompletedRecording::Instant { target_name, .. } => target_name,
            CompletedRecording::Studio { target_name, .. } => target_name,
        }
    }
}

impl InProgressRecording {
    /// The capture target the session was started on.
    pub fn capture_target(&self) -> (r: &ScreenCaptureTarget)
        ensures
            *r == self@.handle().capture_target,
    {
        match self {
            InProgressRecording::Instant { handle, .. } => &handle.capture_target,
            InProgressRecording::Studio { handle, .. } => &handle.capture_target,
        }
    }

    /// The inputs the session was started with.
    pub fn inputs(&self) -> (r: &StartRecordingInputs)
        ensures
            *r == self@.inputs(),
    {
        match self {
            InProgressRecording::Instant { inputs, .. } => inputs,
            InProgressRecording::Studio { inputs, .. } => inputs,
        }
    }

    /// The session's on-disk directory.
    pub fn recording_dir(&self) -> (r: &String)
        ensures
            r@ == self@.recording_dir(),
    {
        match self {
            InProgressRecording::Instant { recording_dir, .. } => recording_dir,
            InProgressRecording::Studio { recording_dir, .. } => recording_dir,
        }
    }

    /// The geometry the capture engine reported for the session's target.
    pub fn bounds(&self) -> (r: &Bounds)
        ensures
            *r == self@.handle().bounds,
    {
        match self {
            InProgressRecording::Instant { handle, .. } => &handle.bounds,
            InProgressRecording::Studio { handle, .. } => &handle.bounds,
        }
    }

    /// The mode the session was started in.
    pub fn mode(&self) -> (r: RecordingMode)
        ensures
            r == self@.mode(),
    {
        match self {
            InProgressRecording::Instant { .. } => RecordingMode::Instant,
            InProgressRecording::Studio { .. } => RecordingMode::Studio,
        }
    }

    /// Delegates a pause to the capture engine: the engine's outcome is
    /// surfaced verbatim, whatever it was.
    pub fn pause(&self, engine_result: Result<(), String>) -> (r: Result<(), String>)
        ensures
            r == engine_result,
    {
        engine_result
    }

    /// Delegates a resume to the capture engine: the engine's outcome is
    /// surfaced verbatim, whatever it was.
    pub fn resume(&self, engine_result: Result<(), String>) -> (r: Result<(), String>)
        ensures
            r == engine_result,
    {
        engine_result
    }

    /// Stops the session. The handle is consumed: the session cannot be used
    /// afterward. On engine success the completed recording carries the
    /// session's identity, directory, target name and upload bookkeeping,
    /// joined with the engine's artifacts; an engine failure is surfaced
    /// verbatim.
    pub fn stop(self, engine_result: Result<EngineArtifacts, String>) -> (r: Result<
        CompletedRecording,
        String,
    >)
        requires
            engine_result matches Ok(a) ==> a.mode() == self@.mode(),
        ensures
            match engine_result {
                Ok(artifacts) => r matches Ok(c) && c@ == completed_of(self@, artifacts),
                Err(e) => r matches Err(e2) && e2 == e,
            },
    {
        match engine_result {
            Ok(artifacts) => Ok(
                match self {
                    InProgressRecording::Instant {
                        target_name,
                        handle,
                        progressive_upload,
                        video_upload_info,
                        recording_dir,
                        ..
                    } => CompletedRecording::Instant {
                        id: handle.id,
                        project_path: recording_dir,
                        target_name,
                        progressive_upload,
                        video_upload_info,
                    },
                    InProgressRecording::Studio { target_name, handle, recording_dir, .. } => {
                        let meta = match artifacts {
                            EngineArtifacts::Studio { meta } => meta,
                            EngineArtifacts::Instant => StudioRecordingMeta::MultipleSegments {
                                segments: Vec::new(),
                            },
                        };
                        CompletedRecording::Studio {
                            id: handle.id,
                            project_path: recording_dir,
                            target_name,
                            meta,
                        }
                    },
                },
            ),
            Err(e) => Err(e),
        }
    }

    /// Cancels the session, discarding its output. The handle is consumed:
    /// the session cannot be used afterward. The engine's outcome is
    /// surfaced verbatim; callers treat it as best-effort.
    pub fn cancel(self, engine_result: Result<(), String>) -> (r: Result<(), String>)
        ensures
            r == engine_result,
    {
        engine_result
    }
}

} // verus!
