//! Laws of the recorder that span several commands.

use vstd::prelude::*;
use crate::device::{DeviceMonitorType, LinkState};
use crate::error::RecordingError;
use crate::pause::PauseModel;
use crate::recording_commands::{start_obstacle, RecorderModel, StartAnswers, StartStep};
use crate::session::SessionModel;
use crate::shutdown::{ShutdownEvent, ShutdownStage};

verus! {

/// While a session is active every start is refused with `AlreadyActive`
/// and nothing is asked, whatever was asked for and whatever the
/// collaborators have answered.
pub proof fn lemma_active_session_refuses_start(
    recorder: RecorderModel,
    mic_device_name: Option<String>,
    system_device_name: Option<String>,
    meeting_name: Option<String>,
    answers: StartAnswers,
)
    requires
        recorder.session.is_some(),
    ensures
        start_obstacle(
            recorder.session.is_some(),
            mic_device_name,
            system_device_name,
            meeting_name,
            answers,
        ) == Some(StartStep::Refuse(RecordingError::AlreadyActive)),
{
}

/// Without an active session a start is refused with `ModelNotReady` when no
/// transcription model is ready, whatever else was answered, and the failure
/// is one the caller can act on.
pub proof fn lemma_missing_model_refuses_start(
    mic_device_name: Option<String>,
    system_device_name: Option<String>,
    meeting_name: Option<String>,
    answers: StartAnswers,
)
    requires
        answers.model is Some,
        answers.model->Some_0 is Err,
    ensures
        start_obstacle(false, mic_device_name, system_device_name, meeting_name, answers) == Some(
            StartStep::Refuse(
                RecordingError::ModelNotReady { detail: answers.model->Some_0->Err_0 },
            ),
        ),
        (RecordingError::ModelNotReady {
            detail: answers.model->Some_0->Err_0,
        }).spec_is_actionable(),
{
}

/// A session ends only when the save of a shutdown in its last stage is
/// reported: no other shutdown event, in no other stage, clears it. Until
/// then the recorder stays active and refuses every start.
pub proof fn lemma_session_ends_only_at_completion(recorder: RecorderModel, event: ShutdownEvent)
    requires
        recorder.consistent(),
        recorder.session is Some,
    ensures
        recorder.advanced(event).consistent(),
        recorder.advanced(event).session is None <==> recorder.shutdown == Some(
            ShutdownStage::Finalizing,
        ) && event is RecordingSaved,
{
}

/// When a shutdown event ends the session, as many transcription results
/// have been accounted for as chunks were captured, and the streams were
/// stopped: the shutdown cannot complete with a chunk still pending.
pub proof fn lemma_completion_accounts_for_every_chunk(
    recorder: RecorderModel,
    event: ShutdownEvent,
)
    requires
        recorder.consistent(),
        recorder.session is Some,
        recorder.advanced(event).session is None,
    ensures
        recorder.session->Some_0.chunks_processed == recorder.session->Some_0.chunks_captured,
        !recorder.session->Some_0.recording,
{
}

/// The drain does not end while a captured chunk is pending: a finished
/// worker pool leaves the shutdown where it is.
pub proof fn lemma_drain_waits_for_pending_chunks(recorder: RecorderModel)
    requires
        recorder.consistent(),
        recorder.shutdown == Some(ShutdownStage::ProcessingTranscripts),
        recorder.session->Some_0.pending_chunks() > 0,
    ensures
        recorder.advanced(ShutdownEvent::WorkersFinished) == recorder,
{
}

/// A shutdown that has left the drain behind has no captured chunk pending:
/// as many transcription results are accounted for as chunks were captured,
/// and no further chunk can be captured.
pub proof fn lemma_past_drain_nothing_pending(recorder: RecorderModel)
    requires
        recorder.consistent(),
        recorder.shutdown is Some,
        recorder.shutdown->Some_0.rank() >= ShutdownStage::UnloadingModel.rank(),
    ensures
        recorder.session is Some,
        recorder.session->Some_0.chunks_processed == recorder.session->Some_0.chunks_captured,
        !recorder.session->Some_0.recording,
{
}

/// After a pause an interval is open, so a second pause is refused; after
/// a resume none is open, so a second resume is refused, as is a resume
/// with no pause before it: a fresh session has no open interval.
pub proof fn lemma_pause_resume_alternate(m: PauseModel, now: int)
    ensures
        m.paused(now).open_since is Some,
        m.resumed(now).open_since is None,
        forall|microphone, system_audio, meeting_name, meeting_folder, auto_save, start: u64|
            !(#[trigger] SessionModel::started(
                microphone,
                system_audio,
                meeting_name,
                meeting_folder,
                auto_save,
                start,
            )).is_paused(),
{
}

/// Losing the device of one role leaves the other role as it was: its
/// binding, its connectivity and whether it captures.
pub proof fn lemma_disconnect_spares_other_role(s: SessionModel, role: DeviceMonitorType)
    ensures
        s.observed(role, false).link(role.spec_other()) == s.link(role.spec_other()),
        s.observed(role, false).captures(role.spec_other()) == s.captures(role.spec_other()),
        !s.observed(role, false).captures(role),
        s.observed(role, false).recording == s.recording,
        s.observed(role, false).pauses == s.pauses,
{
}

/// A successful reconnect of an absent role connects it again, so that it
/// captures whenever the session does, and leaves the other role as it was.
/// With the other role connected no reconnect is awaited any more.
pub proof fn lemma_reconnect_restores_role(
    s: SessionModel,
    device_name: String,
    role: DeviceMonitorType,
    handle: u64,
)
    ensures
        s.reconnected(device_name, role, Some(handle)).link_state(role) == Some(
            LinkState::Connected,
        ),
        s.reconnected(device_name, role, Some(handle)).captures(role) == (s.recording
            && !s.is_paused()),
        s.reconnected(device_name, role, Some(handle)).link(role.spec_other()) == s.link(
            role.spec_other(),
        ),
        s.reconnected(device_name, role, Some(handle)).captures(role.spec_other()) == s.captures(
            role.spec_other(),
        ),
        !s.is_absent(role.spec_other()) ==> !s.reconnected(
            device_name,
            role,
            Some(handle),
        ).is_reconnecting() && s.reconnected(
            device_name,
            role,
            Some(handle),
        ).disconnected_role().is_none(),
{
}

} // verus!
