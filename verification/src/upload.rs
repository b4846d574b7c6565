//! The upload coordinator's follow-up decision for instantly-shared
//! recordings.
//!
//! Two upload strategies coexist: a progressive multipart upload streaming
//! output while capture runs, and a fallback full-file upload after capture
//! ends. Exactly one follow-up action runs once capture is over: when the
//! progressive upload succeeded, only a lightweight screenshot-attach call is
//! made — the full file is never paid for twice; when it failed or was never
//! started, the whole muxed file plus the screenshot is uploaded once.

use vstd::prelude::*;
use crate::session::{CompletedRecording, ProgressiveModel};

verus! {

/// How the progressive upload of an instant recording ended up: it was never
/// spawned (no remote video identity existed), it completed successfully, or
/// it failed.
#[derive(Clone, Copy, PartialEq, Eq, Structural, Debug)]
pub enum ProgressiveStatus {
    NotStarted,
    Succeeded,
    Failed,
}

/// The single follow-up action run after an instant recording's capture
/// ends: attach a screenshot to the already-uploaded video, or upload the
/// full muxed file together with the screenshot.
#[derive(Clone, Copy, PartialEq, Eq, Structural, Debug)]
pub enum UploadFollowup {
    AttachScreenshot,
    FullUpload,
}

/// The status of the progressive upload, given whether one was spawned and
/// how it reported.
pub open spec fn progressive_status_spec(
    progressive_upload: Option<ProgressiveModel>,
    result: Option<Result<(), Seq<char>>>,
) -> ProgressiveStatus {
    match progressive_upload {
        None => ProgressiveStatus::NotStarted,
        Some(_) => match result {
            Some(Ok(_)) => ProgressiveStatus::Succeeded,
            _ => ProgressiveStatus::Failed,
        },
    }
}

/// The follow-up decision: only a success of the progressive upload avoids
/// the full-file upload.
pub open spec fn upload_followup_spec(status: ProgressiveStatus) -> UploadFollowup {
    match status {
        ProgressiveStatus::Succeeded => UploadFollowup::AttachScreenshot,
        ProgressiveStatus::NotStarted => UploadFollowup::FullUpload,
        ProgressiveStatus::Failed => UploadFollowup::FullUpload,
    }
}

/// Chooses the follow-up action from the progressive upload's status.
pub fn upload_followup_plan(status: ProgressiveStatus) -> (r: UploadFollowup)
    ensures
        r == upload_followup_spec(status),
{
    match status {
        ProgressiveStatus::Succeeded => UploadFollowup::AttachScreenshot,
        ProgressiveStatus::NotStarted => UploadFollowup::FullUpload,
        ProgressiveStatus::Failed => UploadFollowup::FullUpload,
    }
}

/// The view of an awaited progressive-upload result.
pub open spec fn progressive_result_view(r: Option<Result<(), String>>) -> Option<
    Result<(), Seq<char>>,
> {
    match r {
        None => None,
        Some(Ok(())) => Some(Ok(())),
        Some(Err(e)) => Some(Err(e@)),
    }
}

/// Decides the follow-up action for a completed instant recording, given the
/// awaited result of its progressive upload. The embedding process awaits
/// the progressive upload only when one was spawned, and hands its result in
/// here.
pub fn instant_upload_followup(
    completed: &CompletedRecording,
    progressive_result: Option<Result<(), String>>,
) -> (r: UploadFollowup)
    requires
        completed@ is Instant,
        progressive_result is Some <==> completed@->Instant_progressive_upload is Some,
    ensures
        r == upload_followup_spec(
            progressive_status_spec(
                completed@->Instant_progressive_upload,
                progressive_result_view(progressive_result),
            ),
        ),
{
    let started = match completed {
        CompletedRecording::Instant { progressive_upload, .. } => progressive_upload.is_some(),
        CompletedRecording::Studio { .. } => false,
    };
    let status = if !started {
        ProgressiveStatus::NotStarted
    } else {
        match progressive_result {
            Some(Ok(())) => ProgressiveStatus::Succeeded,
            _ => ProgressiveStatus::Failed,
        }
    };
    upload_followup_plan(status)
}

} // verus!
