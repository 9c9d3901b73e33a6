//! The commands a shell issues to the recorder: start, pause, resume, the
//! staged stop, the state queries and the device commands.

use vstd::prelude::*;
use vstd::string::*;
use crate::analytics::{summarize, MeetingSummary};
use crate::device::{role_text, AudioDevice, DeviceMonitorType};
pub use crate::device::{DeviceEventResponse, DisconnectedDeviceInfo, ReconnectionStatus};
use crate::error::RecordingError;
use crate::monitor::poll_result;
use crate::session::{bound_device, CaptureOutcome, RecordingManager, SessionModel};
use crate::shutdown::{ShutdownEvent, ShutdownStage};
use crate::transcript::{has_sequence_id, TranscriptSegment};
pub use crate::transcript::TranscriptUpdate;

verus! {

/// Where the caller wants a stopped recording saved.
pub struct RecordingArgs {
    pub save_path: String,
}

/// How busy the transcription pipeline is.
pub struct TranscriptionStatus {
    pub chunks_in_queue: usize,
    pub is_processing: bool,
    pub last_activity_ms: u64,
}

/// What the collaborators have answered so far to the questions of a
/// start; `None` is a question not yet asked.
pub struct StartAnswers {
    /// The readiness check of the transcription engine: why no model is
    /// ready, if none is.
    pub model: Option<Result<(), String>>,
    /// The lookup of the named microphone: its handle, or why the name is
    /// of no use.
    pub microphone: Option<Result<u64, String>>,
    /// The same for the named system-audio device.
    pub system_audio: Option<Result<u64, String>>,
    /// The auto-save preference, or why the preferences could not be loaded.
    pub auto_save: Option<Result<bool, String>>,
    /// The local time as text, for a generated meeting name.
    pub time_stamp: Option<String>,
}

/// A question that a start puts to a collaborator.
#[derive(Clone, Copy, Debug, PartialEq, Eq, Structural)]
pub enum StartQuestion {
    ModelReady,
    MicrophoneLookup,
    SystemAudioLookup,
    AutoSave,
    TimeStamp,
}

/// Where a start stands with the answers given so far.
pub enum StartStep {
    /// The next question is to be asked and its answer added.
    Ask(StartQuestion),
    /// The start is refused; nothing more is to be asked.
    Refuse(RecordingError),
    /// Every check has passed.
    Ready(StartPlan),
}

/// A start that passed its checks: what the capture subsystem is to open and
/// what the session will be called.
pub struct StartPlan {
    /// The chosen microphone; `None` asks for the default.
    pub microphone: Option<AudioDevice>,
    /// The chosen system-audio device; `None` asks for the default.
    pub system_audio: Option<AudioDevice>,
    pub meeting_name: String,
    pub auto_save: bool,
}

/// The detailed state of the recorder. Durations are in milliseconds.
pub struct RecordingStateReport {
    pub is_recording: bool,
    pub is_paused: bool,
    pub is_active: bool,
    pub recording_duration: Option<u64>,
    pub active_duration: Option<u64>,
    pub total_pause_duration: u64,
    pub current_pause_duration: Option<u64>,
}

/// What is left of a session once its shutdown is complete.
pub struct FinishedRecording {
    pub folder_path: Option<String>,
    pub meeting_name: Option<String>,
    /// The whole transcript history, in order of arrival.
    pub segments: Vec<TranscriptSegment>,
    pub chunks_captured: u64,
    pub chunks_processed: u64,
    /// Why the final save failed, if it did; the transcript is kept either way.
    pub save_error: Option<RecordingError>,
}

/// The answer to a shutdown event: the stage the shutdown is now in and, at
/// the end, what is left of the session.
pub struct ShutdownStep {
    pub stage: ShutdownStage,
    pub finished: Option<FinishedRecording>,
}

/// The mathematical state of the recorder.
pub struct RecorderModel {
    /// The active session, if there is one.
    pub session: Option<SessionModel>,
    /// The stage of the shutdown in progress, if one is.
    pub shutdown: Option<ShutdownStage>,
    /// Whether the worker pool still holds the session's hand-off channel.
    pub workers_attached: bool,
    /// Whether speech has been announced since the last start.
    pub speech_detected: bool,
}

impl RecorderModel {
    pub open spec fn idle() -> RecorderModel {
        RecorderModel {
            session: None,
            shutdown: None,
            workers_attached: false,
            speech_detected: false,
        }
    }

    /// The recorder after a shutdown is complete: no session is left; the
    /// speech latch stays as it is until the next start.
    pub open spec fn cleared(self) -> RecorderModel {
        RecorderModel { session: None, shutdown: None, workers_attached: false, ..self }
    }

    /// The recorder with its session replaced.
    pub open spec fn with_session(self, session: SessionModel) -> RecorderModel {
        RecorderModel { session: Some(session), ..self }
    }

    /// A shutdown needs a session; once the audio is stopped the streams
    /// stay stopped; and the stages after the drain are reached only with
    /// every captured chunk transcribed.
    pub open spec fn consistent(self) -> bool {
        match self.session {
            None => self.shutdown.is_none() && !self.workers_attached,
            Some(s) => {
                &&& s.consistent()
                &&& match self.shutdown {
                    None => true,
                    Some(stage) => {
                        &&& stage != ShutdownStage::Complete
                        &&& stage.rank() >= 1 ==> !s.recording
                        &&& stage.rank() >= 2 ==> s.pending_chunks() == 0 && !self.workers_attached
                    },
                }
            },
        }
    }

    /// Whether the shutdown in progress waits for this event.
    pub open spec fn awaits(self, event: ShutdownEvent) -> bool {
        match (self.shutdown, event) {
            (Some(ShutdownStage::StoppingAudio), ShutdownEvent::StreamsHalted(_)) => true,
            (Some(ShutdownStage::ProcessingTranscripts), ShutdownEvent::WorkersFinished) => true,
            (Some(ShutdownStage::UnloadingModel), ShutdownEvent::ModelUnloaded(_)) => true,
            (Some(ShutdownStage::Finalizing), ShutdownEvent::RecordingSaved(_)) => true,
            _ => false,
        }
    }
}

impl RecorderModel {
    /// Whether `after` and `r` are what a reconnect attempt for `role` leaves
    /// and answers: without a session `RecordingNotActive`, for a role that
    /// is not absent `NotDisconnected`, both with nothing changed; otherwise
    /// whether the device was found, with the session reconnected.
    pub open spec fn reconnect_settled(
        self,
        after: RecorderModel,
        r: Result<bool, RecordingError>,
        device_name: String,
        role: DeviceMonitorType,
        found: Option<u64>,
    ) -> bool {
        match self.session {
            None => r == Err::<bool, RecordingError>(RecordingError::RecordingNotActive) && after
                == self,
            Some(s) => if !s.is_absent(role) {
                r == Err::<bool, RecordingError>(RecordingError::NotDisconnected { role }) && after
                    == self
            } else {
                r == Ok::<bool, RecordingError>(found.is_some()) && after == self.with_session(
                    s.reconnected(device_name, role, found),
                )
            },
        }
    }

    /// The recorder after a shutdown event. An event that is not awaited, a
    /// failure to halt the audio, and a finished worker pool while captured
    /// chunks are pending all leave it as it is.
    pub open spec fn advanced(self, event: ShutdownEvent) -> RecorderModel {
        if !self.awaits(event) {
            self
        } else {
            match event {
                ShutdownEvent::StreamsHalted(Ok(_)) => RecorderModel {
                    session: Some(SessionModel { recording: false, ..self.session.unwrap() }),
                    shutdown: Some(ShutdownStage::ProcessingTranscripts),
                    ..self
                },
                ShutdownEvent::StreamsHalted(Err(_)) => self,
                ShutdownEvent::WorkersFinished => if self.session.unwrap().pending_chunks() > 0 {
                    self
                } else {
                    RecorderModel {
                        shutdown: Some(ShutdownStage::UnloadingModel),
                        workers_attached: false,
                        ..self
                    }
                },
                ShutdownEvent::ModelUnloaded(_) => RecorderModel {
                    shutdown: Some(ShutdownStage::Finalizing),
                    ..self
                },
                ShutdownEvent::RecordingSaved(_) => self.cleared(),
            }
        }
    }
}

/// What stands between a start and its plan, if anything: a refusal or
/// the next question. An active session refuses the start before anything
/// is asked. Then the model check is asked and refuses when no model is
/// ready; then the lookup of each named device, the microphone first, each
/// refusing a name that is of no use; then the auto-save preference; then,
/// where no meeting name was given, the time stamp. Nothing is asked once a
/// refusal stands.
pub open spec fn start_obstacle(
    active: bool,
    mic_device_name: Option<String>,
    system_device_name: Option<String>,
    meeting_name: Option<String>,
    answers: StartAnswers,
) -> Option<StartStep> {
    if active {
        Some(StartStep::Refuse(RecordingError::AlreadyActive))
    } else if answers.model is None {
        Some(StartStep::Ask(StartQuestion::ModelReady))
    } else if answers.model->Some_0 is Err {
        Some(
            StartStep::Refuse(
                RecordingError::ModelNotReady { detail: answers.model->Some_0->Err_0 },
            ),
        )
    } else if mic_device_name is Some && answers.microphone is None {
        Some(StartStep::Ask(StartQuestion::MicrophoneLookup))
    } else if mic_device_name is Some && answers.microphone->Some_0 is Err {
        Some(
            StartStep::Refuse(
                RecordingError::DeviceInvalid {
                    role: DeviceMonitorType::Microphone,
                    name: mic_device_name->Some_0,
                    detail: answers.microphone->Some_0->Err_0,
                },
            ),
        )
    } else if system_device_name is Some && answers.system_audio is None {
        Some(StartStep::Ask(StartQuestion::SystemAudioLookup))
    } else if system_device_name is Some && answers.system_audio->Some_0 is Err {
        Some(
            StartStep::Refuse(
                RecordingError::DeviceInvalid {
                    role: DeviceMonitorType::SystemAudio,
                    name: system_device_name->Some_0,
                    detail: answers.system_audio->Some_0->Err_0,
                },
            ),
        )
    } else if answers.auto_save is None {
        Some(StartStep::Ask(StartQuestion::AutoSave))
    } else if meeting_name is None && answers.time_stamp is None {
        Some(StartStep::Ask(StartQuestion::TimeStamp))
    } else {
        None
    }
}

/// The device a plan holds for a role: the named one under the handle it
/// was found by, or none where no name was given.
pub open spec fn planned_device(name: Option<String>, lookup: Option<Result<u64, String>>) -> Option<
    AudioDevice,
> {
    match (name, lookup) {
        (Some(n), Some(Ok(handle))) => Some(AudioDevice { name: n, handle }),
        _ => None,
    }
}

/// The auto-save setting of a plan: the preference, and on where the
/// preferences could not be loaded.
pub open spec fn planned_auto_save(answer: Option<Result<bool, String>>) -> bool {
    match answer {
        Some(Ok(wanted)) => wanted,
        _ => true,
    }
}

/// Whether the plan is the one that the request and the answers give, once
/// nothing stands in the way.
pub open spec fn plan_follows(
    plan: StartPlan,
    mic_device_name: Option<String>,
    system_device_name: Option<String>,
    meeting_name: Option<String>,
    answers: StartAnswers,
) -> bool {
    &&& plan.microphone == planned_device(mic_device_name, answers.microphone)
    &&& plan.system_audio == planned_device(system_device_name, answers.system_audio)
    &&& plan.auto_save == planned_auto_save(answers.auto_save)
    &&& match meeting_name {
        Some(name) => plan.meeting_name == name,
        None => answers.time_stamp is Some && plan.meeting_name@ == default_meeting_name_text(
            answers.time_stamp->Some_0@,
        ),
    }
}

/// Whether a step is the one that the request and the answers give.
pub open spec fn step_follows(
    step: StartStep,
    active: bool,
    mic_device_name: Option<String>,
    system_device_name: Option<String>,
    meeting_name: Option<String>,
    answers: StartAnswers,
) -> bool {
    match start_obstacle(active, mic_device_name, system_device_name, meeting_name, answers) {
        Some(obstacle) => step == obstacle,
        None => step is Ready && plan_follows(
            step->Ready_0,
            mic_device_name,
            system_device_name,
            meeting_name,
            answers,
        ),
    }
}

/// The name a session gets when the caller gave none.
pub open spec fn default_meeting_name_text(stamp: Seq<char>) -> Seq<char> {
    "Meeting "@ + stamp
}

/// The name a session gets when the caller gave none: `Meeting` and the
/// time stamp.
pub fn default_meeting_name(stamp: &str) -> (r: String)
    ensures
        r@ == default_meeting_name_text(stamp@),
{
    String::from_str("Meeting ").concat(stamp)
}

/// The recorder: at most one session, and the shutdown it may be in.
pub struct Recorder {
    manager: Option<RecordingManager>,
    shutdown: Option<ShutdownStage>,
    workers_attached: bool,
    speech_detected: bool,
}

impl View for Recorder {
    type V = RecorderModel;

    closed spec fn view(&self) -> RecorderModel {
        RecorderModel {
            session: match self.manager {
                Some(m) => Some(m@),
                None => None,
            },
            shutdown: self.shutdown,
            workers_attached: self.workers_attached,
            speech_detected: self.speech_detected,
        }
    }
}

impl Recorder {
    /// The recorder's invariant.
    pub open spec fn wf(&self) -> bool {
        self@.consistent()
    }

    /// A recorder without a session.
    pub fn new() -> (r: Recorder)
        ensures
            r.wf(),
            r@ == RecorderModel::idle(),
    {
        Recorder { manager: None, shutdown: None, workers_attached: false, speech_detected: false }
    }
}

/// Takes a start with the default devices and a generated meeting name one
/// step further; see `start_recording_with_devices_and_meeting`.
pub fn start_recording(recorder: &Recorder, answers: &StartAnswers) -> (r: StartStep)
    ensures
        step_follows(r, recorder@.session.is_some(), None, None, None, *answers),
{
    start_recording_with_devices_and_meeting(recorder, None, None, None, answers)
}

/// Takes a start with the default devices one step further; see
/// `start_recording_with_devices_and_meeting`.
pub fn start_recording_with_meeting_name(
    recorder: &Recorder,
    meeting_name: Option<String>,
    answers: &StartAnswers,
) -> (r: StartStep)
    ensures
        step_follows(r, recorder@.session.is_some(), None, None, meeting_name, *answers),
{
    start_recording_with_devices_and_meeting(recorder, None, None, meeting_name, answers)
}

/// Takes a start with the named devices and a generated meeting name one
/// step further; see `start_recording_with_devices_and_meeting`.
pub fn start_recording_with_devices(
    recorder: &Recorder,
    mic_device_name: Option<String>,
    system_device_name: Option<String>,
    answers: &StartAnswers,
) -> (r: StartStep)
    ensures
        step_follows(
            r,
            recorder@.session.is_some(),
            mic_device_name,
            system_device_name,
            None,
            *answers,
        ),
{
    start_recording_with_devices_and_meeting(
        recorder,
        mic_device_name,
        system_device_name,
        None,
        answers,
    )
}

/// Takes a start one step further, before anything is allocated: it
/// refuses the start, names the next question to ask, or hands out the
/// plan. The start is refused while a session is active, then when no
/// transcription model is ready, then when a named device is of no use;
/// each question is asked only when nothing before it refuses. The plan
/// holds the named devices, the meeting name (the given one, or `Meeting`
/// and the time stamp), and the auto-save preference, which is on where the
/// preferences could not be loaded. The recorder itself is not changed.
pub fn start_recording_with_devices_and_meeting(
    recorder: &Recorder,
    mic_device_name: Option<String>,
    system_device_name: Option<String>,
    meeting_name: Option<String>,
    answers: &StartAnswers,
) -> (r: StartStep)
    ensures
        step_follows(
            r,
            recorder@.session.is_some(),
            mic_device_name,
            system_device_name,
            meeting_name,
            *answers,
        ),
{
    if recorder.manager.is_some() {
        return StartStep::Refuse(RecordingError::AlreadyActive);
    }
    match &answers.model {
        None => {
            return StartStep::Ask(StartQuestion::ModelReady);
        },
        Some(Err(detail)) => {
            return StartStep::Refuse(RecordingError::ModelNotReady { detail: detail.clone() });
        },
        Some(Ok(_)) => {},
    }
    let microphone = match mic_device_name {
        Some(name) => match &answers.microphone {
            None => {
                return StartStep::Ask(StartQuestion::MicrophoneLookup);
            },
            Some(Ok(handle)) => Some(AudioDevice { name, handle: *handle }),
            Some(Err(detail)) => {
                return StartStep::Refuse(
                    RecordingError::DeviceInvalid {
                        role: DeviceMonitorType::Microphone,
                        name,
                        detail: detail.clone(),
                    },
                );
            },
        },
        None => None,
    };
    let system_audio = match system_device_name {
        Some(name) => match &answers.system_audio {
            None => {
                return StartStep::Ask(StartQuestion::SystemAudioLookup);
            },
            Some(Ok(handle)) => Some(AudioDevice { name, handle: *handle }),
            Some(Err(detail)) => {
                return StartStep::Refuse(
                    RecordingError::DeviceInvalid {
                        role: DeviceMonitorType::SystemAudio,
                        name,
                        detail: detail.clone(),
                    },
                );
            },
        },
        None => None,
    };
    let auto_save = match &answers.auto_save {
        None => {
            return StartStep::Ask(StartQuestion::AutoSave);
        },
        Some(Ok(wanted)) => *wanted,
        Some(Err(_)) => true,
    };
    let meeting_name = match meeting_name {
        Some(name) => name,
        None => match &answers.time_stamp {
            None => {
                return StartStep::Ask(StartQuestion::TimeStamp);
            },
            Some(stamp) => default_meeting_name(stamp.as_str()),
        },
    };
    StartStep::Ready(StartPlan { microphone, system_audio, meeting_name, auto_save })
}

/// Makes the planned session the active one, once the capture subsystem has
/// answered, and resets the speech latch. Refused with `AlreadyActive` while
/// a session is active and with `CaptureStartFailure` when capture failed; a
/// refusal changes nothing.
pub fn activate_session(
    recorder: &mut Recorder,
    plan: StartPlan,
    capture: CaptureOutcome,
    now: u64,
) -> (r: Result<(), RecordingError>)
    requires
        old(recorder).wf(),
    ensures
        final(recorder).wf(),
        old(recorder)@.session.is_some() ==> r == Err::<(), RecordingError>(
            RecordingError::AlreadyActive,
        ) && *final(recorder) == *old(recorder),
        old(recorder)@.session.is_none() ==> match capture {
            CaptureOutcome::Failed { detail } => r == Err::<(), RecordingError>(
                RecordingError::CaptureStartFailure { detail },
            ) && *final(recorder) == *old(recorder),
            CaptureOutcome::Started { default_microphone, default_system_audio, meeting_folder } => {
                &&& r is Ok
                &&& final(recorder)@ == (RecorderModel {
                    session: Some(
                        SessionModel::started(
                            bound_device(plan.microphone, default_microphone),
                            bound_device(plan.system_audio, default_system_audio),
                            plan.meeting_name,
                            meeting_folder,
                            plan.auto_save,
                            now,
                        ),
                    ),
                    shutdown: None,
                    workers_attached: true,
                    speech_detected: false,
                })
            },
        },
{
    if recorder.manager.is_some() {
        return Err(RecordingError::AlreadyActive);
    }
    match RecordingManager::start_recording(
        plan.microphone,
        plan.system_audio,
        plan.meeting_name,
        plan.auto_save,
        capture,
        now,
    ) {
        Ok(manager) => {
            recorder.manager = Some(manager);
            recorder.shutdown = None;
            recorder.workers_attached = true;
            recorder.speech_detected = false;
            Ok(())
        },
        Err(e) => Err(e),
    }
}

/// Begins the shutdown of the active session and says which stage it is
/// in; without a session there is nothing to stop and nothing changes. A
/// shutdown already in progress stays where it is.
pub fn stop_recording(recorder: &mut Recorder, args: RecordingArgs) -> (r: Option<ShutdownStage>)
    requires
        old(recorder).wf(),
    ensures
        final(recorder).wf(),
        match (old(recorder)@.session, old(recorder)@.shutdown) {
            (None, _) => r.is_none() && *final(recorder) == *old(recorder),
            (Some(_), Some(stage)) => r == Some(stage) && *final(recorder) == *old(recorder),
            (Some(_), None) => r == Some(ShutdownStage::StoppingAudio) && final(recorder)@ == (
            RecorderModel { shutdown: Some(ShutdownStage::StoppingAudio), ..old(recorder)@ }),
        },
{
    if recorder.manager.is_none() {
        return None;
    }
    match recorder.shutdown {
        Some(stage) => Some(stage),
        None => {
            recorder.shutdown = Some(ShutdownStage::StoppingAudio);
            Some(ShutdownStage::StoppingAudio)
        },
    }
}

/// Takes the shutdown one step further on the event that the current stage
/// waits for.
///
/// - Any other event is refused and changes nothing: `NotRecording` without
///   a session, `ShutdownOutOfOrder` otherwise.
/// - Audio halted: on failure `StopFailure` and nothing changes; on success
///   the streams are stopped and the drain begins.
/// - Workers finished: while captured chunks are still pending the drain
///   goes on, however long it takes; with none pending the model unload
///   begins.
/// - Model unloaded, whether it worked or not: finalizing begins.
/// - Recording saved, whether it worked or not: the shutdown is complete,
///   the session is cleared and what is left of it is handed out, with every
///   transcript segment and with as many chunks processed as were captured.
pub fn advance_shutdown(recorder: &mut Recorder, event: ShutdownEvent) -> (r: Result<
    ShutdownStep,
    RecordingError,
>)
    requires
        old(recorder).wf(),
    ensures
        final(recorder).wf(),
        final(recorder)@ == old(recorder)@.advanced(event),
        !old(recorder)@.awaits(event) ==> *final(recorder) == *old(recorder) && r == Err::<
            ShutdownStep,
            RecordingError,
        >(
            if old(recorder)@.session.is_none() {
                RecordingError::NotRecording
            } else {
                RecordingError::ShutdownOutOfOrder
            },
        ),
        old(recorder)@.awaits(event) ==> match event {
            ShutdownEvent::StreamsHalted(Err(detail)) => *final(recorder) == *old(recorder) && r
                == Err::<ShutdownStep, RecordingError>(RecordingError::StopFailure { detail }),
            ShutdownEvent::StreamsHalted(Ok(_)) => {
                &&& r is Ok
                &&& r->Ok_0.stage == ShutdownStage::ProcessingTranscripts
                &&& r->Ok_0.finished.is_none()
                &&& final(recorder)@ == (RecorderModel {
                    session: Some(
                        SessionModel { recording: false, ..old(recorder)@.session.unwrap() },
                    ),
                    shutdown: Some(ShutdownStage::ProcessingTranscripts),
                    ..old(recorder)@
                })
            },
            ShutdownEvent::WorkersFinished => {
                &&& r is Ok
                &&& r->Ok_0.finished.is_none()
                &&& if old(recorder)@.session.unwrap().pending_chunks() > 0 {
                    r->Ok_0.stage == ShutdownStage::ProcessingTranscripts && *final(recorder)
                        == *old(recorder)
                } else {
                    r->Ok_0.stage == ShutdownStage::UnloadingModel && final(recorder)@ == (
                    RecorderModel {
                        shutdown: Some(ShutdownStage::UnloadingModel),
                        workers_attached: false,
                        ..old(recorder)@
                    })
                }
            },
            ShutdownEvent::ModelUnloaded(_) => {
                &&& r is Ok
                &&& r->Ok_0.stage == ShutdownStage::Finalizing
                &&& r->Ok_0.finished.is_none()
                &&& final(recorder)@ == (RecorderModel {
                    shutdown: Some(ShutdownStage::Finalizing),
                    ..old(recorder)@
                })
            },
            ShutdownEvent::RecordingSaved(saved) => {
                let s = old(recorder)@.session.unwrap();
                &&& r is Ok
                &&& r->Ok_0.stage == ShutdownStage::Complete
                &&& final(recorder)@ == old(recorder)@.cleared()
                &&& r->Ok_0.finished is Some
                &&& r->Ok_0.finished->Some_0.segments@ == s.segments
                &&& r->Ok_0.finished->Some_0.chunks_captured == s.chunks_captured
                &&& r->Ok_0.finished->Some_0.chunks_processed == s.chunks_captured
                &&& r->Ok_0.finished->Some_0.folder_path == s.meeting_folder
                &&& r->Ok_0.finished->Some_0.meeting_name == (if s.meeting_folder is Some {
                    Some(s.meeting_name)
                } else {
                    None
                })
                &&& r->Ok_0.finished->Some_0.save_error == (match saved {
                    Ok(_) => None,
                    Err(detail) => Some(RecordingError::PersistenceFailure { detail }),
                })
            },
        },
{
    let stage = match recorder.shutdown {
        Some(stage) => stage,
        None => {
            if recorder.manager.is_none() {
                return Err(RecordingError::NotRecording);
            } else {
                return Err(RecordingError::ShutdownOutOfOrder);
            }
        },
    };
    let mut manager = match recorder.manager.take() {
        Some(manager) => manager,
        None => {
            return Err(RecordingError::NotRecording);
        },
    };
    match (stage, event) {
        (ShutdownStage::StoppingAudio, ShutdownEvent::StreamsHalted(halted)) => {
            let stopped = manager.stop_streams_and_force_flush(halted);
            recorder.manager = Some(manager);
            match stopped {
                Ok(_) => {
                    recorder.shutdown = Some(ShutdownStage::ProcessingTranscripts);
                    Ok(ShutdownStep { stage: ShutdownStage::ProcessingTranscripts, finished: None })
                },
                Err(e) => Err(e),
            }
        },
        (ShutdownStage::ProcessingTranscripts, ShutdownEvent::WorkersFinished) => {
            let pending = manager.pending_chunks();
            recorder.manager = Some(manager);
            if pending > 0 {
                Ok(ShutdownStep { stage: ShutdownStage::ProcessingTranscripts, finished: None })
            } else {
                recorder.shutdown = Some(ShutdownStage::UnloadingModel);
                recorder.workers_attached = false;
                Ok(ShutdownStep { stage: ShutdownStage::UnloadingModel, finished: None })
            }
        },
        (ShutdownStage::UnloadingModel, ShutdownEvent::ModelUnloaded(_)) => {
            recorder.manager = Some(manager);
            recorder.shutdown = Some(ShutdownStage::Finalizing);
            Ok(ShutdownStep { stage: ShutdownStage::Finalizing, finished: None })
        },
        (ShutdownStage::Finalizing, ShutdownEvent::RecordingSaved(saved)) => {
            let folder_path = manager.get_meeting_folder();
            let meeting_name = if folder_path.is_some() {
                Some(manager.get_meeting_name())
            } else {
                None
            };
            let save_error = match manager.save_recording_only(saved) {
                Ok(_) => None,
                Err(e) => Some(e),
            };
            let finished = FinishedRecording {
                folder_path,
                meeting_name,
                segments: manager.get_transcript_segments(),
                chunks_captured: manager.get_chunks_captured(),
                chunks_processed: manager.get_chunks_processed(),
                save_error,
            };
            recorder.shutdown = None;
            recorder.workers_attached = false;
            Ok(ShutdownStep { stage: ShutdownStage::Complete, finished: Some(finished) })
        },
        _ => {
            recorder.manager = Some(manager);
            Err(RecordingError::ShutdownOutOfOrder)
        },
    }
}

/// Takes note that speech was heard. Says whether this is the first time
/// in the active session, which is when it is announced; without a session
/// nothing is noted.
pub fn note_speech_detected(recorder: &mut Recorder) -> (first: bool)
    requires
        old(recorder).wf(),
    ensures
        final(recorder).wf(),
        first == (old(recorder)@.session.is_some() && !old(recorder)@.speech_detected),
        final(recorder)@ == (RecorderModel {
            speech_detected: old(recorder)@.speech_detected || old(recorder)@.session.is_some(),
            ..old(recorder)@
        }),
{
    if recorder.manager.is_some() && !recorder.speech_detected {
        recorder.speech_detected = true;
        true
    } else {
        false
    }
}

/// The figures of the active session at `now`, for the report sent when it
/// ends; none without a session.
pub fn meeting_summary(recorder: &Recorder, now: u64) -> (r: Option<MeetingSummary>)
    requires
        recorder.wf(),
    ensures
        match recorder@.session {
            Some(s) => r is Some && r->Some_0.sums_up(s, now as int),
            None => r.is_none(),
        },
{
    match &recorder.manager {
        Some(manager) => Some(summarize(manager, now)),
        None => None,
    }
}

/// Whether a session is active: from a successful start until its shutdown
/// is complete.
pub fn is_recording(recorder: &Recorder) -> (r: bool)
    ensures
        r == recorder@.session.is_some(),
{
    recorder.manager.is_some()
}

/// The shutdown stage the recorder is in, if a shutdown is in progress.
pub fn shutdown_stage(recorder: &Recorder) -> (r: Option<ShutdownStage>)
    ensures
        r == recorder@.shutdown,
{
    recorder.shutdown
}

/// The pipeline's status: processing while a session is active; queue
/// length and last activity are not tracked here and read zero.
pub fn get_transcription_status(recorder: &Recorder) -> (r: TranscriptionStatus)
    ensures
        r.chunks_in_queue == 0,
        r.is_processing == recorder@.session.is_some(),
        r.last_activity_ms == 0,
{
    TranscriptionStatus {
        chunks_in_queue: 0,
        is_processing: recorder.manager.is_some(),
        last_activity_ms: 0,
    }
}

/// Pauses the active session at `now`. Without a session, or with its
/// streams stopped, `NotRecording`; when already paused, `AlreadyPaused`.
/// A refusal changes nothing.
pub fn pause_recording(recorder: &mut Recorder, now: u64) -> (r: Result<(), RecordingError>)
    requires
        old(recorder).wf(),
    ensures
        final(recorder).wf(),
        match old(recorder)@.session {
            None => r == Err::<(), RecordingError>(RecordingError::NotRecording) && *final(recorder)
                == *old(recorder),
            Some(s) => if !s.recording {
                r == Err::<(), RecordingError>(RecordingError::NotRecording) && final(recorder)@
                    == old(recorder)@
            } else if s.is_paused() {
                r == Err::<(), RecordingError>(RecordingError::AlreadyPaused) && final(recorder)@
                    == old(recorder)@
            } else {
                r is Ok && final(recorder)@ == old(recorder)@.with_session(
                    SessionModel { pauses: s.pauses.paused(now as int), ..s },
                )
            },
        },
{
    match recorder.manager.take() {
        None => Err(RecordingError::NotRecording),
        Some(mut manager) => {
            let r = manager.pause_recording(now);
            recorder.manager = Some(manager);
            r
        },
    }
}

/// Resumes the paused session at `now`. Whenever no pause is open, with
/// or without a session, `NotPaused`. A refusal changes nothing.
pub fn resume_recording(recorder: &mut Recorder, now: u64) -> (r: Result<(), RecordingError>)
    requires
        old(recorder).wf(),
    ensures
        final(recorder).wf(),
        match old(recorder)@.session {
            None => r == Err::<(), RecordingError>(RecordingError::NotPaused) && *final(recorder)
                == *old(recorder),
            Some(s) => if !s.is_paused() {
                r == Err::<(), RecordingError>(RecordingError::NotPaused) && final(recorder)@
                    == old(recorder)@
            } else {
                r is Ok && final(recorder)@ == old(recorder)@.with_session(
                    SessionModel { pauses: s.pauses.resumed(now as int), ..s },
                )
            },
        },
{
    match recorder.manager.take() {
        None => Err(RecordingError::NotPaused),
        Some(mut manager) => {
            let r = manager.resume_recording(now);
            recorder.manager = Some(manager);
            r
        },
    }
}

/// Whether the active session is paused; without a session, no.
pub fn is_recording_paused(recorder: &Recorder) -> (r: bool)
    ensures
        r == match recorder@.session {
            Some(s) => s.is_paused(),
            None => false,
        },
{
    match &recorder.manager {
        Some(manager) => manager.is_paused(),
        None => false,
    }
}

/// The detailed state at `now`. The active and the paused time of a session
/// add up to its total time.
pub fn get_recording_state(recorder: &Recorder, now: u64) -> (r: RecordingStateReport)
    requires
        recorder.wf(),
    ensures
        r.is_recording == recorder@.session.is_some(),
        match recorder@.session {
            None => {
                &&& !r.is_paused
                &&& !r.is_active
                &&& r.recording_duration.is_none()
                &&& r.active_duration.is_none()
                &&& r.total_pause_duration == 0
                &&& r.current_pause_duration.is_none()
            },
            Some(s) => {
                &&& r.is_paused == s.is_paused()
                &&& r.is_active == (s.recording && !s.is_paused())
                &&& r.recording_duration is Some
                &&& r.recording_duration->Some_0 as int == s.pauses.total_duration(now as int)
                &&& r.active_duration is Some
                &&& r.active_duration->Some_0 as int == s.pauses.active_duration(now as int)
                &&& r.total_pause_duration as int == s.pauses.total_pause
                &&& r.active_duration->Some_0 + r.total_pause_duration
                    == r.recording_duration->Some_0
                &&& match r.current_pause_duration {
                    Some(d) => s.pauses.current_pause_duration(now as int) == Some(d as int),
                    None => s.pauses.current_pause_duration(now as int).is_none(),
                }
            },
        },
{
    match &recorder.manager {
        Some(manager) => RecordingStateReport {
            is_recording: true,
            is_paused: manager.is_paused(),
            is_active: manager.is_active(),
            recording_duration: Some(manager.get_recording_duration(now)),
            active_duration: Some(manager.get_active_recording_duration(now)),
            total_pause_duration: manager.get_total_pause_duration(),
            current_pause_duration: manager.get_current_pause_duration(now),
        },
        None => RecordingStateReport {
            is_recording: false,
            is_paused: false,
            is_active: false,
            recording_duration: None,
            active_duration: None,
            total_pause_duration: 0,
            current_pause_duration: None,
        },
    }
}

/// The folder of the active session's meeting, if it has one.
pub fn get_meeting_folder_path(recorder: &Recorder) -> (r: Option<String>)
    ensures
        r == match recorder@.session {
            Some(s) => s.meeting_folder,
            None => None,
        },
{
    match &recorder.manager {
        Some(manager) => manager.get_meeting_folder(),
        None => None,
    }
}

/// The transcript segments of the active session, in order of arrival;
/// none without a session.
pub fn get_transcript_history(recorder: &Recorder) -> (r: Vec<TranscriptSegment>)
    ensures
        r@ == match recorder@.session {
            Some(s) => s.segments,
            None => Seq::<TranscriptSegment>::empty(),
        },
{
    match &recorder.manager {
        Some(manager) => manager.get_transcript_segments(),
        None => Vec::new(),
    }
}

/// The meeting name of the active session.
pub fn get_recording_meeting_name(recorder: &Recorder) -> (r: Option<String>)
    ensures
        r == match recorder@.session {
            Some(s) => Some(s.meeting_name),
            None => None,
        },
{
    match &recorder.manager {
        Some(manager) => Some(manager.get_meeting_name()),
        None => None,
    }
}

/// Records a transcription result in the active session's history, as the
/// segment `seg_` and the sequence id, unless a segment with that sequence
/// id is already held. Says whether a segment was appended; without a
/// session nothing is.
pub fn add_transcript_segment(recorder: &mut Recorder, update: TranscriptUpdate) -> (appended: bool)
    requires
        old(recorder).wf(),
    ensures
        final(recorder).wf(),
        match old(recorder)@.session {
            None => !appended && *final(recorder) == *old(recorder),
            Some(s) => {
                &&& appended == !has_sequence_id(s.segments, update.sequence_id)
                &&& final(recorder)@.session is Some
                &&& final(recorder)@ == old(recorder)@.with_session(
                    SessionModel {
                        segments: final(recorder)@.session->Some_0.segments,
                        ..s
                    },
                )
                &&& if appended {
                    &&& final(recorder)@.session->Some_0.segments.len() == s.segments.len() + 1
                    &&& final(recorder)@.session->Some_0.segments.drop_last() == s.segments
                    &&& final(recorder)@.session->Some_0.segments.last().records(update)
                } else {
                    final(recorder)@.session->Some_0.segments == s.segments
                }
            },
        },
{
    match recorder.manager.take() {
        None => false,
        Some(mut manager) => {
            let ghost before = manager@.segments;
            let segment = TranscriptSegment::from_update(update);
            let appended = manager.add_transcript_segment(segment);
            proof {
                if appended {
                    assert(before.push(segment).drop_last() =~= before);
                }
            }
            recorder.manager = Some(manager);
            appended
        },
    }
}

/// Counts a chunk handed to the transcription pipeline; refused without a
/// session, with stopped streams, or with a full counter.
pub fn record_chunk_captured(recorder: &mut Recorder) -> (counted: bool)
    requires
        old(recorder).wf(),
    ensures
        final(recorder).wf(),
        match old(recorder)@.session {
            None => !counted && *final(recorder) == *old(recorder),
            Some(s) => {
                &&& counted == (s.recording && s.chunks_captured < u64::MAX)
                &&& counted ==> final(recorder)@ == old(recorder)@.with_session(
                    SessionModel { chunks_captured: (s.chunks_captured + 1) as u64, ..s },
                )
                &&& !counted ==> final(recorder)@ == old(recorder)@
            },
        },
{
    match recorder.manager.take() {
        None => false,
        Some(mut manager) => {
            let counted = manager.note_chunk_captured();
            recorder.manager = Some(manager);
            counted
        },
    }
}

/// Counts a chunk whose transcription completed at `now`; refused without
/// a session or when no captured chunk is pending.
pub fn record_chunk_processed(recorder: &mut Recorder, now: u64) -> (counted: bool)
    requires
        old(recorder).wf(),
    ensures
        final(recorder).wf(),
        match old(recorder)@.session {
            None => !counted && *final(recorder) == *old(recorder),
            Some(s) => {
                &&& counted == (s.pending_chunks() > 0)
                &&& counted ==> final(recorder)@ == old(recorder)@.with_session(
                    SessionModel {
                        chunks_processed: (s.chunks_processed + 1) as u64,
                        last_activity: now,
                        ..s
                    },
                )
                &&& !counted ==> final(recorder)@ == old(recorder)@
            },
        },
{
    match recorder.manager.take() {
        None => false,
        Some(mut manager) => {
            let counted = manager.note_chunk_processed(now);
            recorder.manager = Some(manager);
            counted
        },
    }
}

/// Takes note of what the device monitor saw for `role`; see
/// `RecordingManager::observe_device`. Without a session nothing happens.
pub fn observe_device(recorder: &mut Recorder, role: DeviceMonitorType, present: bool) -> (lost:
    bool)
    requires
        old(recorder).wf(),
    ensures
        final(recorder).wf(),
        match old(recorder)@.session {
            None => !lost && *final(recorder) == *old(recorder),
            Some(s) => {
                &&& final(recorder)@ == old(recorder)@.with_session(s.observed(role, present))
                &&& lost == (!present && s.link_state(role) == Some(
                    crate::device::LinkState::Connected,
                ))
            },
        },
{
    match recorder.manager.take() {
        None => false,
        Some(mut manager) => {
            let lost = manager.observe_device(role, present);
            recorder.manager = Some(manager);
            lost
        },
    }
}

/// Queues a `DeviceListChanged` event for the active session.
pub fn note_device_list_changed(recorder: &mut Recorder)
    requires
        old(recorder).wf(),
    ensures
        final(recorder).wf(),
        match old(recorder)@.session {
            None => *final(recorder) == *old(recorder),
            Some(s) => final(recorder)@ == old(recorder)@.with_session(
                SessionModel {
                    events: s.events.push(crate::device::DeviceEvent::DeviceListChanged),
                    ..s
                },
            ),
        },
{
    match recorder.manager.take() {
        None => {},
        Some(mut manager) => {
            manager.note_device_list_changed();
            recorder.manager = Some(manager);
        },
    }
}

/// Hands out the oldest queued device event in its response form, if there
/// is a session and an event waits; never blocks.
pub fn poll_audio_device_events(recorder: &mut Recorder) -> (r: Option<DeviceEventResponse>)
    requires
        old(recorder).wf(),
    ensures
        final(recorder).wf(),
        match old(recorder)@.session {
            None => r.is_none() && *final(recorder) == *old(recorder),
            Some(s) => {
                &&& final(recorder)@ == old(recorder)@.with_session(s.polled())
                &&& match poll_result(s.events) {
                    Some(event) => r is Some && r->Some_0.renders(event),
                    None => r.is_none(),
                }
            },
        },
{
    match recorder.manager.take() {
        None => None,
        Some(mut manager) => {
            let event = manager.poll_device_events();
            recorder.manager = Some(manager);
            match event {
                Some(event) => Some(DeviceEventResponse::from_event(event)),
                None => None,
            }
        },
    }
}

/// Whether a reconnect is awaited, and for which device; without a session
/// neither.
pub fn get_reconnection_status(recorder: &Recorder) -> (r: ReconnectionStatus)
    ensures
        match recorder@.session {
            None => !r.is_reconnecting && r.disconnected_device.is_none(),
            Some(s) => {
                &&& r.is_reconnecting == s.is_reconnecting()
                &&& match s.disconnected_role() {
                    Some(role) => {
                        &&& r.disconnected_device is Some
                        &&& r.disconnected_device->Some_0.name == s.link(role).unwrap().device.name
                        &&& r.disconnected_device->Some_0.device_type@ == role_text(role)
                    },
                    None => r.disconnected_device.is_none(),
                }
            },
        },
{
    match &recorder.manager {
        Some(manager) => {
            let disconnected_device = match manager.get_disconnected_device() {
                Some((device, role)) => Some(
                    DisconnectedDeviceInfo { name: device.name, device_type: role.name() },
                ),
                None => None,
            };
            ReconnectionStatus { is_reconnecting: manager.is_reconnecting(), disconnected_device }
        },
        None => ReconnectionStatus { is_reconnecting: false, disconnected_device: None },
    }
}

/// Whether a reconnect can be attempted for the role named by
/// `device_type`, before any device is looked up. A text that names no role
/// is `InvalidDeviceType`; a role without a session is `RecordingNotActive`.
pub fn check_reconnect_request(recorder: &Recorder, device_type: &str) -> (r: Result<
    DeviceMonitorType,
    RecordingError,
>)
    ensures
        match r {
            Ok(role) => role_text(role) == device_type@ && recorder@.session is Some,
            Err(RecordingError::InvalidDeviceType { given }) => {
                &&& given@ == device_type@
                &&& device_type@ != role_text(DeviceMonitorType::Microphone)
                &&& device_type@ != role_text(DeviceMonitorType::SystemAudio)
            },
            Err(RecordingError::RecordingNotActive) => {
                &&& recorder@.session is None
                &&& (device_type@ == role_text(DeviceMonitorType::Microphone) || device_type@
                    == role_text(DeviceMonitorType::SystemAudio))
            },
            Err(_) => false,
        },
{
    match DeviceMonitorType::parse(device_type) {
        None => Err(RecordingError::InvalidDeviceType { given: String::from_str(device_type) }),
        Some(role) => {
            if recorder.manager.is_none() {
                Err(RecordingError::RecordingNotActive)
            } else {
                Ok(role)
            }
        },
    }
}

/// Settles a reconnect attempt for the role named by `device_type`. `found`
/// is the handle under which the device was found, if it was; it is not
/// read where the attempt is refused. A text that names no role is
/// `InvalidDeviceType`; without a session `RecordingNotActive`; for a role
/// that is not absent `NotDisconnected`. Otherwise the answer says whether
/// the device was found and the session is changed as
/// `RecordingManager::attempt_device_reconnect` says.
pub fn attempt_device_reconnect(
    recorder: &mut Recorder,
    device_name: String,
    device_type: String,
    found: Option<u64>,
) -> (r: Result<bool, RecordingError>)
    requires
        old(recorder).wf(),
    ensures
        final(recorder).wf(),
        device_type@ != role_text(DeviceMonitorType::Microphone) && device_type@ != role_text(
            DeviceMonitorType::SystemAudio,
        ) ==> r == Err::<bool, RecordingError>(
            RecordingError::InvalidDeviceType { given: device_type },
        ) && *final(recorder) == *old(recorder),
        old(recorder)@.session is None ==> *final(recorder) == *old(recorder),
        device_type@ == role_text(DeviceMonitorType::Microphone) ==> old(recorder)@.reconnect_settled(
            final(recorder)@,
            r,
            device_name,
            DeviceMonitorType::Microphone,
            found,
        ),
        device_type@ == role_text(DeviceMonitorType::SystemAudio) ==> old(recorder)@.reconnect_settled(final(recorder)@, r, device_name, DeviceMonitorType::SystemAudio, found),
{
    let role = match DeviceMonitorType::parse(device_type.as_str()) {
        Some(role) => role,
        None => {
            return Err(RecordingError::InvalidDeviceType { given: device_type });
        },
    };
    proof {
        crate::device::lemma_role_text_injective(role, DeviceMonitorType::Microphone);
        crate::device::lemma_role_text_injective(role, DeviceMonitorType::SystemAudio);
    }
    match recorder.manager.take() {
        None => Err(RecordingError::RecordingNotActive),
        Some(mut manager) => {
            let r = manager.attempt_device_reconnect(device_name, role, found);
            recorder.manager = Some(manager);
            r
        },
    }
}

/// Marks the active session as having met a fatal error; says whether
/// there was a session to mark.
pub fn record_fatal_error(recorder: &mut Recorder) -> (marked: bool)
    requires
        old(recorder).wf(),
    ensures
        final(recorder).wf(),
        marked == old(recorder)@.session.is_some(),
        match old(recorder)@.session {
            None => *final(recorder) == *old(recorder),
            Some(s) => final(recorder)@ == old(recorder)@.with_session(
                SessionModel { fatal_error: true, ..s },
            ),
        },
{
    match recorder.manager.take() {
        None => false,
        Some(mut manager) => {
            manager.record_fatal_error();
            recorder.manager = Some(manager);
            true
        },
    }
}

/// Whether the active session has met a fatal error; without a session, no.
pub fn has_fatal_error(recorder: &Recorder) -> (r: bool)
    ensures
        r == match recorder@.session {
            Some(s) => s.fatal_error,
            None => false,
        },
{
    match &recorder.manager {
        Some(manager) => manager.has_fatal_error(),
        None => false,
    }
}

/// The device bound to a role of the active session, if there is a session
/// and the role is bound.
pub fn get_bound_device(recorder: &Recorder, role: DeviceMonitorType) -> (r: Option<AudioDevice>)
    ensures
        match recorder@.session {
            Some(s) => match s.link(role) {
                Some(l) => r == Some(l.device),
                None => r.is_none(),
            },
            None => r.is_none(),
        },
{
    match &recorder.manager {
        Some(manager) => match role {
            DeviceMonitorType::Microphone => manager.get_microphone_device(),
            DeviceMonitorType::SystemAudio => manager.get_system_device(),
        },
        None => None,
    }
}

/// Whether audio of the given role is being acquired; without a session, no.
pub fn is_capturing(recorder: &Recorder, role: DeviceMonitorType) -> (r: bool)
    ensures
        r == match recorder@.session {
            Some(s) => s.captures(role),
            None => false,
        },
{
    match &recorder.manager {
        Some(manager) => manager.is_capturing(role),
        None => false,
    }
}

/// The auto-save setting of the active session.
pub fn get_auto_save(recorder: &Recorder) -> (r: Option<bool>)
    ensures
        r == match recorder@.session {
            Some(s) => Some(s.auto_save),
            None => None,
        },
{
    match &recorder.manager {
        Some(manager) => Some(manager.get_auto_save()),
        None => None,
    }
}

/// When a chunk of the active session was last processed.
pub fn get_last_activity(recorder: &Recorder) -> (r: Option<u64>)
    ensures
        r == match recorder@.session {
            Some(s) => Some(s.last_activity),
            None => None,
        },
{
    match &recorder.manager {
        Some(manager) => Some(manager.get_last_activity()),
        None => None,
    }
}

} // verus!
