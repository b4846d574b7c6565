//! The laws the lifecycle obeys, stated over the spec-level transition
//! functions and proved once and for all.

use vstd::prelude::*;
use crate::inputs::{RecordingMode, StartRecordingInputs};
use crate::session::{CompletedModel, EngineArtifacts, ProgressiveModel, SessionModel, completed_of};
use crate::upload::{
    ProgressiveStatus, UploadFollowup, progressive_status_spec, upload_followup_spec,
};
use crate::lifecycle::{
    ActorDoneEvent, FinishEnv, StartEnv, StateModel, cancel_transition, dirs_without,
    end_cleanup, finish_meta, monitor_message_spec, monitor_transition, restart_result,
    restart_transition, start_result, start_transition, started_session, state_wf,
    stop_transition,
};

verus! {

/// A start followed by a stop persists exactly one metadata entry — the one
/// finalization builds for the stopped session — and leaves the session slot
/// empty.
pub proof fn lemma_start_stop_persists_exactly_one(
    s: StateModel,
    env: StartEnv,
    inputs: StartRecordingInputs,
    artifacts: EngineArtifacts,
    fin: FinishEnv,
)
    requires
        start_result(s, env, inputs) is Ok,
    ensures
        ({
            let s1 = start_transition(s, env, inputs);
            let s2 = stop_transition(s1, Ok(artifacts), fin);
            &&& s2.metas == s.metas.push(
                finish_meta(
                    completed_of(started_session(env, inputs), artifacts),
                    fin.timestamp@,
                    fin.platform,
                ),
            )
            &&& s2.current is None
        }),
{
}

/// A start while a session is already active is rejected and changes
/// nothing: the active session is never silently overwritten, so at most one
/// session exists at any time.
pub proof fn lemma_start_never_overwrites(s: StateModel, env: StartEnv, inputs: StartRecordingInputs)
    requires
        s.current is Some,
    ensures
        start_result(s, env, inputs) matches Err(m) && m == "Recording already in progress"@,
        start_transition(s, env, inputs) == s,
{
}

/// No directory equal to `dir` survives `dirs_without`.
pub proof fn lemma_dirs_without_excludes(dirs: Seq<Seq<char>>, dir: Seq<char>)
    ensures
        forall|i: int|
            0 <= i < dirs_without(dirs, dir).len() ==> #[trigger] dirs_without(dirs, dir)[i]
                != dir,
    decreases dirs.len(),
{
    if dirs.len() > 0 {
        lemma_dirs_without_excludes(dirs.drop_last(), dir);
        let rest = dirs_without(dirs.drop_last(), dir);
        if dirs.last() == dir {
            assert(dirs_without(dirs, dir) == rest);
        } else {
            assert(dirs_without(dirs, dir) == rest.push(dirs.last()));
            assert forall|i: int|
                0 <= i < dirs_without(dirs, dir).len() implies #[trigger] dirs_without(dirs, dir)[i]
                != dir by {
                if i < rest.len() {
                    assert(rest.push(dirs.last())[i] == rest[i]);
                } else {
                    assert(rest.push(dirs.last())[i] == dirs.last());
                }
            }
        }
    }
}

/// A cancel never writes a metadata entry, empties the session slot, and
/// leaves the cancelled session's directory removed: no directory of that
/// name remains on disk.
pub proof fn lemma_cancel_writes_no_meta_and_removes_dir(s: StateModel, sess: SessionModel)
    requires
        s.current == Some(sess),
    ensures
        cancel_transition(s).metas == s.metas,
        cancel_transition(s).current is None,
        forall|i: int|
            0 <= i < cancel_transition(s).dirs.len() ==> #[trigger] cancel_transition(s).dirs[i]
                != sess.recording_dir(),
{
    lemma_dirs_without_excludes(s.dirs, sess.recording_dir());
}

/// When the progressive upload of an instant recording succeeds, the
/// follow-up is only the lightweight screenshot-attach call: the full file
/// is never uploaded a second time.
pub proof fn lemma_progressive_success_never_reuploads(
    progressive_upload: Option<ProgressiveModel>,
    result: Option<Result<(), Seq<char>>>,
)
    requires
        progressive_upload is Some,
        result == Some(Result::<(), Seq<char>>::Ok(())),
    ensures
        upload_followup_spec(progressive_status_spec(progressive_upload, result))
            == UploadFollowup::AttachScreenshot,
{
}

/// When the progressive upload was never started — no remote video identity
/// existed — the single follow-up action is the full-file-plus-screenshot
/// upload, whatever result value accompanies it.
pub proof fn lemma_no_progressive_falls_back_to_full_upload(result: Option<Result<(), Seq<char>>>)
    ensures
        progressive_status_spec(None, result) == ProgressiveStatus::NotStarted,
        upload_followup_spec(progressive_status_spec(None, result)) == UploadFollowup::FullUpload,
{
}

/// An instant session started without a pre-created remote video — the
/// pre-creation failed or never ran — carries no upload ticket and no
/// progressive upload, and the recording it completes into falls back to the
/// single full-file upload.
pub proof fn lemma_no_ticket_session_runs_fallback_only(
    env: StartEnv,
    inputs: StartRecordingInputs,
)
    requires
        inputs.mode == RecordingMode::Instant,
        env.precreated_video is None,
    ensures
        started_session(env, inputs).video_upload_info() is None,
        started_session(env, inputs).progressive_upload() is None,
        ({
            let c = completed_of(started_session(env, inputs), EngineArtifacts::Instant);
            &&& c matches CompletedModel::Instant {
                progressive_upload: None,
                video_upload_info: None,
                ..
            }
            &&& upload_followup_spec(progressive_status_spec(None, None))
                == UploadFollowup::FullUpload
        }),
{
}

/// A restart is exactly a cancel followed by a start with the inputs the
/// active session was started with: the capture target, the audio flag and
/// the mode are unchanged, and acceptance is decided as for that fresh
/// start.
pub proof fn lemma_restart_is_cancel_then_start(s: StateModel, env: StartEnv, sess: SessionModel)
    requires
        s.current == Some(sess),
    ensures
        restart_transition(s, env) == start_transition(cancel_transition(s), env, sess.inputs()),
        restart_result(s, env) == start_result(cancel_transition(s), env, sess.inputs()),
{
}

/// A capture actor that dies without signaling — its channel closes — is
/// treated as a failure: an error dialog is requested, the session slot is
/// cleared, logging is restored, and with the main window closed no camera
/// or microphone feed stays behind in shared state.
pub proof fn lemma_actor_crash_releases_resources(s: StateModel, main_window_open: bool)
    ensures
        ({
            let s2 = monitor_transition(s, ActorDoneEvent::ChannelClosed, main_window_open);
            &&& s2.current is None
            &&& !s2.log_redirect
            &&& s2.metas == s.metas
            &&& !main_window_open ==> !s2.camera_feed && !s2.mic_feed
        }),
        monitor_message_spec(ActorDoneEvent::ChannelClosed) is Some,
{
}

/// Every lifecycle transition preserves well-formedness of the controller
/// state: the session in the slot, if any, agrees with the mode it was
/// started in and carries a progressive upload only under a remote video
/// identity.
pub proof fn lemma_transitions_preserve_wf(
    s: StateModel,
    env: StartEnv,
    inputs: StartRecordingInputs,
    engine: Result<EngineArtifacts, String>,
    fin: FinishEnv,
    event: ActorDoneEvent,
    main_window_open: bool,
)
    requires
        state_wf(s),
    ensures
        state_wf(start_transition(s, env, inputs)),
        state_wf(stop_transition(s, engine, fin)),
        state_wf(cancel_transition(s)),
        state_wf(restart_transition(s, env)),
        state_wf(monitor_transition(s, event, main_window_open)),
        state_wf(end_cleanup(s, main_window_open)),
{
}

} // verus!
