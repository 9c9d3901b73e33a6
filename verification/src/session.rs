//! One recording session: device bindings, pause accounting, connectivity,
//! chunk counters and the transcript history.

use vstd::prelude::*;
use vstd::string::*;
use crate::device::{AudioDevice, DeviceEvent, DeviceLink, DeviceMonitorType, LinkState};
use crate::error::RecordingError;
use crate::monitor::{poll_rest, poll_result, EventQueue};
use crate::pause::{PauseAccounting, PauseModel};
use crate::transcript::{
    has_sequence_id,
    history_consistent,
    with_segment,
    TranscriptHistory,
    TranscriptSegment,
};

verus! {

/// What the capture subsystem answered when asked to open its streams.
pub enum CaptureOutcome {
    /// The streams run. The defaults are the devices the operating system
    /// offers for a role that no device was chosen for; where it offers
    /// none, that role has no stream.
    Started {
        default_microphone: Option<AudioDevice>,
        default_system_audio: Option<AudioDevice>,
        meeting_folder: Option<String>,
    },
    /// No stream was opened.
    Failed { detail: String },
}

/// Where a finished recording lies, for whoever stores it.
pub struct RecordingMetadata {
    pub meeting_folder: Option<String>,
    pub meeting_name: String,
}

/// The mathematical state of a session.
pub struct SessionModel {
    pub meeting_name: String,
    pub meeting_folder: Option<String>,
    pub auto_save: bool,
    pub fatal_error: bool,
    /// The capture streams have not been stopped.
    pub recording: bool,
    /// The microphone's binding; none where the session has no such stream.
    pub microphone: Option<DeviceLink>,
    /// The system-audio binding; none where the session has no such stream.
    pub system_audio: Option<DeviceLink>,
    pub pauses: PauseModel,
    /// Device events awaiting a poll, oldest first.
    pub events: Seq<DeviceEvent>,
    /// Transcript segments in order of arrival.
    pub segments: Seq<TranscriptSegment>,
    /// Chunks handed to the transcription pipeline.
    pub chunks_captured: u64,
    /// Chunks whose transcription has completed.
    pub chunks_processed: u64,
    pub last_activity: u64,
}

/// The binding a role gets at the start: the chosen device, else the default.
pub open spec fn bound_device(chosen: Option<AudioDevice>, default: Option<AudioDevice>) -> Option<
    AudioDevice,
> {
    match chosen {
        Some(d) => Some(d),
        None => default,
    }
}

/// A fresh link to a device, if there is one.
pub open spec fn fresh_link(device: Option<AudioDevice>) -> Option<DeviceLink> {
    match device {
        Some(d) => Some(DeviceLink { device: d, state: LinkState::Connected }),
        None => None,
    }
}

impl SessionModel {
    pub open spec fn link(self, role: DeviceMonitorType) -> Option<DeviceLink> {
        match role {
            DeviceMonitorType::Microphone => self.microphone,
            DeviceMonitorType::SystemAudio => self.system_audio,
        }
    }

    /// The connectivity of a role, if the role is bound.
    pub open spec fn link_state(self, role: DeviceMonitorType) -> Option<LinkState> {
        match self.link(role) {
            Some(l) => Some(l.state),
            None => None,
        }
    }

    /// The session with the link of one role replaced.
    pub open spec fn with_link(self, role: DeviceMonitorType, link: DeviceLink) -> SessionModel {
        match role {
            DeviceMonitorType::Microphone => SessionModel { microphone: Some(link), ..self },
            DeviceMonitorType::SystemAudio => SessionModel { system_audio: Some(link), ..self },
        }
    }

    pub open spec fn is_paused(self) -> bool {
        self.pauses.open_since.is_some()
    }

    /// Whether audio of this role is being acquired: the streams run, the
    /// session is not paused and the role's device is bound and present.
    pub open spec fn captures(self, role: DeviceMonitorType) -> bool {
        self.recording && !self.is_paused() && self.link_state(role) == Some(LinkState::Connected)
    }

    /// Whether the role is bound to a device that is absent.
    pub open spec fn is_absent(self, role: DeviceMonitorType) -> bool {
        self.link_state(role) == Some(LinkState::Disconnected) || self.link_state(role) == Some(
            LinkState::Reconnecting,
        )
    }

    /// Whether a reconnect is awaited for some role.
    pub open spec fn is_reconnecting(self) -> bool {
        self.link_state(DeviceMonitorType::Microphone) == Some(LinkState::Reconnecting)
            || self.link_state(DeviceMonitorType::SystemAudio) == Some(LinkState::Reconnecting)
    }

    /// The role whose absent device is reported: the microphone first.
    pub open spec fn disconnected_role(self) -> Option<DeviceMonitorType> {
        if self.is_absent(DeviceMonitorType::Microphone) {
            Some(DeviceMonitorType::Microphone)
        } else if self.is_absent(DeviceMonitorType::SystemAudio) {
            Some(DeviceMonitorType::SystemAudio)
        } else {
            None
        }
    }

    /// Chunks captured whose transcription has not completed.
    pub open spec fn pending_chunks(self) -> int {
        self.chunks_captured - self.chunks_processed
    }

    pub open spec fn consistent(self) -> bool {
        &&& self.pauses.consistent()
        &&& history_consistent(self.segments)
        &&& self.chunks_processed <= self.chunks_captured
    }

    /// The session as `start_recording` creates it.
    pub open spec fn started(
        microphone: Option<AudioDevice>,
        system_audio: Option<AudioDevice>,
        meeting_name: String,
        meeting_folder: Option<String>,
        auto_save: bool,
        now: u64,
    ) -> SessionModel {
        SessionModel {
            meeting_name,
            meeting_folder,
            auto_save,
            fatal_error: false,
            recording: true,
            microphone: fresh_link(microphone),
            system_audio: fresh_link(system_audio),
            pauses: PauseModel {
                started_at: now as int,
                clock: now as int,
                total_pause: 0,
                open_since: None,
            },
            events: Seq::empty(),
            segments: Seq::empty(),
            chunks_captured: 0,
            chunks_processed: 0,
            last_activity: now,
        }
    }

    /// The session after the monitor looked for the device of `role`.
    pub open spec fn observed(self, role: DeviceMonitorType, present: bool) -> SessionModel {
        if !present && self.link_state(role) == Some(LinkState::Connected) {
            SessionModel {
                events: self.events.push(
                    DeviceEvent::DeviceDisconnected {
                        device_name: self.link(role).unwrap().device.name,
                        device_type: role,
                    },
                ),
                ..self.with_link(
                    role,
                    DeviceLink {
                        device: self.link(role).unwrap().device,
                        state: LinkState::Disconnected,
                    },
                )
            }
        } else {
            self
        }
    }

    /// The session after one poll of its event queue.
    pub open spec fn polled(self) -> SessionModel {
        let rest = SessionModel { events: poll_rest(self.events), ..self };
        match poll_result(self.events) {
            Some(DeviceEvent::DeviceDisconnected { device_name, device_type }) => {
                if self.link_state(device_type) == Some(LinkState::Disconnected) {
                    rest.with_link(
                        device_type,
                        DeviceLink {
                            device: self.link(device_type).unwrap().device,
                            state: LinkState::Reconnecting,
                        },
                    )
                } else {
                    rest
                }
            },
            _ => rest,
        }
    }

    /// The session after a reconnect attempt for an absent role; `found` is
    /// the handle under which the named device was found, if it was.
    pub open spec fn reconnected(
        self,
        device_name: String,
        role: DeviceMonitorType,
        found: Option<u64>,
    ) -> SessionModel {
        match found {
            Some(handle) => SessionModel {
                events: self.events.push(
                    DeviceEvent::DeviceReconnected { device_name, device_type: role },
                ),
                ..self.with_link(
                    role,
                    DeviceLink {
                        device: AudioDevice { name: device_name, handle },
                        state: LinkState::Connected,
                    },
                )
            },
            None => self.with_link(
                role,
                DeviceLink {
                    device: self.link(role).unwrap().device,
                    state: LinkState::Reconnecting,
                },
            ),
        }
    }
}

/// The state of one recording session, from start to finalization.
pub struct RecordingManager {
    meeting_name: String,
    meeting_folder: Option<String>,
    auto_save: bool,
    fatal_error: bool,
    recording: bool,
    microphone: Option<DeviceLink>,
    system_audio: Option<DeviceLink>,
    pauses: PauseAccounting,
    events: EventQueue,
    history: TranscriptHistory,
    chunks_captured: u64,
    chunks_processed: u64,
    last_activity: u64,
}

impl View for RecordingManager {
    type V = SessionModel;

    closed spec fn view(&self) -> SessionModel {
        SessionModel {
            meeting_name: self.meeting_name,
            meeting_folder: self.meeting_folder,
            auto_save: self.auto_save,
            fatal_error: self.fatal_error,
            recording: self.recording,
            microphone: self.microphone,
            system_audio: self.system_audio,
            pauses: self.pauses@,
            events: self.events@,
            segments: self.history@,
            chunks_captured: self.chunks_captured,
            chunks_processed: self.chunks_processed,
            last_activity: self.last_activity,
        }
    }
}

impl RecordingManager {
    /// The session's invariant.
    pub open spec fn wf(&self) -> bool {
        self@.consistent()
    }

    /// Creates the session once the capture subsystem has answered. A role
    /// for which no device was chosen is bound to the reported default, and
    /// stays unbound where there is none. When capture failed no session
    /// comes to be.
    pub fn start_recording(
        microphone: Option<AudioDevice>,
        system_audio: Option<AudioDevice>,
        meeting_name: String,
        auto_save: bool,
        capture: CaptureOutcome,
        now: u64,
    ) -> (r: Result<RecordingManager, RecordingError>)
        ensures
            match capture {
                CaptureOutcome::Failed { detail } => r == Err::<RecordingManager, RecordingError>(
                    RecordingError::CaptureStartFailure { detail },
                ),
                CaptureOutcome::Started {
                    default_microphone,
                    default_system_audio,
                    meeting_folder,
                } => {
                    &&& r is Ok
                    &&& r->Ok_0.wf()
                    &&& r->Ok_0@ == SessionModel::started(
                        bound_device(microphone, default_microphone),
                        bound_device(system_audio, default_system_audio),
                        meeting_name,
                        meeting_folder,
                        auto_save,
                        now,
                    )
                },
            },
    {
        match capture {
            CaptureOutcome::Failed { detail } => Err(RecordingError::CaptureStartFailure { detail }),
            CaptureOutcome::Started { default_microphone, default_system_audio, meeting_folder } => {
                let mic = match microphone {
                    Some(d) => Some(DeviceLink { device: d, state: LinkState::Connected }),
                    None => match default_microphone {
                        Some(d) => Some(DeviceLink { device: d, state: LinkState::Connected }),
                        None => None,
                    },
                };
                let system = match system_audio {
                    Some(d) => Some(DeviceLink { device: d, state: LinkState::Connected }),
                    None => match default_system_audio {
                        Some(d) => Some(DeviceLink { device: d, state: LinkState::Connected }),
                        None => None,
                    },
                };
                Ok(
                    RecordingManager {
                        meeting_name,
                        meeting_folder,
                        auto_save,
                        fatal_error: false,
                        recording: true,
                        microphone: mic,
                        system_audio: system,
                        pauses: PauseAccounting::new(now),
                        events: EventQueue::new(),
                        history: TranscriptHistory::new(),
                        chunks_captured: 0,
                        chunks_processed: 0,
                        last_activity: now,
                    },
                )
            },
        }
    }

    /// Pauses the session at `now`.
    pub fn pause_recording(&mut self, now: u64) -> (r: Result<(), RecordingError>)
        requires
            old(self).wf(),
        ensures
            final(self).wf(),
            !old(self)@.recording ==> r == Err::<(), RecordingError>(RecordingError::NotRecording)
                && *final(self) == *old(self),
            old(self)@.recording && old(self)@.is_paused() ==> r == Err::<(), RecordingError>(
                RecordingError::AlreadyPaused,
            ) && *final(self) == *old(self),
            old(self)@.recording && !old(self)@.is_paused() ==> r is Ok && final(self)@ == (
            SessionModel { pauses: old(self)@.pauses.paused(now as int), ..old(self)@ }),
    {
        if !self.recording {
            return Err(RecordingError::NotRecording);
        }
        self.pauses.pause(now)
    }

    /// Resumes the paused session at `now`, adding the closed interval to the
    /// paused total. Refused with `NotPaused` whenever no pause is open.
    pub fn resume_recording(&mut self, now: u64) -> (r: Result<(), RecordingError>)
        requires
            old(self).wf(),
        ensures
            final(self).wf(),
            !old(self)@.is_paused() ==> r == Err::<(), RecordingError>(RecordingError::NotPaused)
                && *final(self) == *old(self),
            old(self)@.is_paused() ==> r is Ok && final(self)@ == (SessionModel {
                pauses: old(self)@.pauses.resumed(now as int),
                ..old(self)@
            }),
    {
        self.pauses.resume(now)
    }

    /// Records that the capture subsystem was told to halt and flush, and
    /// what it answered. After a success no chunk is counted as captured any
    /// more; a failure changes nothing. Stopping stopped streams again is a
    /// success that changes nothing.
    pub fn stop_streams_and_force_flush(&mut self, halted: Result<(), String>) -> (r: Result<
        (),
        RecordingError,
    >)
        requires
            old(self).wf(),
        ensures
            final(self).wf(),
            match halted {
                Ok(_) => r is Ok && final(self)@ == (SessionModel {
                    recording: false,
                    ..old(self)@
                }),
                Err(detail) => r == Err::<(), RecordingError>(
                    RecordingError::StopFailure { detail },
                ) && *final(self) == *old(self),
            },
    {
        match halted {
            Ok(_) => {
                self.recording = false;
                Ok(())
            },
            Err(detail) => Err(RecordingError::StopFailure { detail }),
        }
    }

    /// Counts a chunk handed to the transcription pipeline. Refused, with
    /// nothing counted, once the streams are stopped or the counter is full.
    pub fn note_chunk_captured(&mut self) -> (counted: bool)
        requires
            old(self).wf(),
        ensures
            final(self).wf(),
            counted == (old(self)@.recording && old(self)@.chunks_captured < u64::MAX),
            counted ==> final(self)@ == (SessionModel {
                chunks_captured: (old(self)@.chunks_captured + 1) as u64,
                ..old(self)@
            }),
            !counted ==> *final(self) == *old(self),
    {
        if self.recording && self.chunks_captured < u64::MAX {
            self.chunks_captured = self.chunks_captured + 1;
            true
        } else {
            false
        }
    }

    /// Counts a chunk whose transcription completed at `now`. Refused, with
    /// nothing counted, when no captured chunk is pending.
    pub fn note_chunk_processed(&mut self, now: u64) -> (counted: bool)
        requires
            old(self).wf(),
        ensures
            final(self).wf(),
            counted == (old(self)@.pending_chunks() > 0),
            counted ==> final(self)@ == (SessionModel {
                chunks_processed: (old(self)@.chunks_processed + 1) as u64,
                last_activity: now,
                ..old(self)@
            }),
            !counted ==> *final(self) == *old(self),
    {
        if self.chunks_processed < self.chunks_captured {
            self.chunks_processed = self.chunks_processed + 1;
            self.last_activity = now;
            true
        } else {
            false
        }
    }

    /// The number of captured chunks whose transcription has not completed.
    pub fn pending_chunks(&self) -> (r: u64)
        requires
            self.wf(),
        ensures
            r as int == self@.pending_chunks(),
    {
        self.chunks_captured - self.chunks_processed
    }

    fn link_state(&self, role: DeviceMonitorType) -> (r: Option<LinkState>)
        ensures
            r == self@.link_state(role),
    {
        let link = match role {
            DeviceMonitorType::Microphone => &self.microphone,
            DeviceMonitorType::SystemAudio => &self.system_audio,
        };
        match link {
            Some(l) => Some(l.state),
            None => None,
        }
    }

    fn bound_device(&self, role: DeviceMonitorType) -> (r: Option<AudioDevice>)
        ensures
            match self@.link(role) {
                Some(l) => r == Some(l.device),
                None => r.is_none(),
            },
    {
        let link = match role {
            DeviceMonitorType::Microphone => &self.microphone,
            DeviceMonitorType::SystemAudio => &self.system_audio,
        };
        match link {
            Some(l) => Some(l.device.duplicate()),
            None => None,
        }
    }

    fn set_link(&mut self, role: DeviceMonitorType, link: DeviceLink)
        ensures
            final(self)@ == old(self)@.with_link(role, link),
    {
        match role {
            DeviceMonitorType::Microphone => {
                self.microphone = Some(link);
            },
            DeviceMonitorType::SystemAudio => {
                self.system_audio = Some(link);
            },
        }
    }

    /// Takes note of what the monitor saw for `role`. A connected device
    /// found absent becomes disconnected and a `DeviceDisconnected` event is
    /// queued; the other role is left as it is. Says whether that happened.
    pub fn observe_device(&mut self, role: DeviceMonitorType, present: bool) -> (lost: bool)
        requires
            old(self).wf(),
        ensures
            final(self).wf(),
            final(self)@ == old(self)@.observed(role, present),
            lost == (!present && old(self)@.link_state(role) == Some(LinkState::Connected)),
            final(self)@.link(role.other()) == old(self)@.link(role.other()),
    {
        if present {
            return false;
        }
        match self.link_state(role) {
            Some(LinkState::Connected) => {},
            _ => {
                return false;
            },
        }
        match self.bound_device(role) {
            Some(device) => {
                let device_name = device.name.clone();
                self.set_link(role, DeviceLink { device, state: LinkState::Disconnected });
                self.events.emit(DeviceEvent::DeviceDisconnected { device_name, device_type: role });
                true
            },
            None => false,
        }
    }

    /// Queues a `DeviceListChanged` event; nothing else changes.
    pub fn note_device_list_changed(&mut self)
        requires
            old(self).wf(),
        ensures
            final(self).wf(),
            final(self)@ == (SessionModel {
                events: old(self)@.events.push(DeviceEvent::DeviceListChanged),
                ..old(self)@
            }),
    {
        self.events.emit(DeviceEvent::DeviceListChanged);
    }

    /// Hands out the oldest queued device event, if any, without blocking.
    /// Taking a disconnect out of the queue puts its role into reconnecting.
    pub fn poll_device_events(&mut self) -> (r: Option<DeviceEvent>)
        requires
            old(self).wf(),
        ensures
            final(self).wf(),
            r == poll_result(old(self)@.events),
            final(self)@ == old(self)@.polled(),
    {
        let event = self.events.poll();
        match &event {
            Some(DeviceEvent::DeviceDisconnected { device_name, device_type }) => {
                match self.link_state(*device_type) {
                    Some(LinkState::Disconnected) => {
                        match self.bound_device(*device_type) {
                            Some(device) => {
                                self.set_link(
                                    *device_type,
                                    DeviceLink { device, state: LinkState::Reconnecting },
                                );
                            },
                            None => {},
                        }
                    },
                    _ => {},
                }
            },
            _ => {},
        }
        event
    }

    /// Settles a reconnect attempt for `role`. `found` is the handle under
    /// which the named device was found, if it was. For a role that is not
    /// absent, bound or not, this is an error. A device that was found is
    /// bound, the role is connected again and a `DeviceReconnected` event is
    /// queued; one that was not found leaves the role awaiting a reconnect.
    /// The other role is left as it is either way.
    pub fn attempt_device_reconnect(
        &mut self,
        device_name: String,
        role: DeviceMonitorType,
        found: Option<u64>,
    ) -> (r: Result<bool, RecordingError>)
        requires
            old(self).wf(),
        ensures
            final(self).wf(),
            final(self)@.link(role.other()) == old(self)@.link(role.other()),
            !old(self)@.is_absent(role) ==> r == Err::<bool, RecordingError>(
                RecordingError::NotDisconnected { role },
            ) && *final(self) == *old(self),
            old(self)@.is_absent(role) ==> r == Ok::<bool, RecordingError>(found.is_some())
                && final(self)@ == old(self)@.reconnected(device_name, role, found),
    {
        match self.link_state(role) {
            Some(LinkState::Disconnected) => {},
            Some(LinkState::Reconnecting) => {},
            _ => {
                return Err(RecordingError::NotDisconnected { role });
            },
        }
        match found {
            Some(handle) => {
                self.set_link(
                    role,
                    DeviceLink {
                        device: AudioDevice { name: device_name.clone(), handle },
                        state: LinkState::Connected,
                    },
                );
                self.events.emit(DeviceEvent::DeviceReconnected { device_name, device_type: role });
                Ok(true)
            },
            None => {
                match self.bound_device(role) {
                    Some(device) => {
                        self.set_link(role, DeviceLink { device, state: LinkState::Reconnecting });
                    },
                    None => {},
                }
                Ok(false)
            },
        }
    }

    /// Appends a transcript segment unless one with its sequence id is
    /// already held; says whether it was appended. The segment is to be
    /// identified by its sequence id, which `has_own_id` tells.
    pub fn add_transcript_segment(&mut self, segment: TranscriptSegment) -> (appended: bool)
        requires
            old(self).wf(),
            segment.spec_has_own_id(),
        ensures
            final(self).wf(),
            final(self)@ == (SessionModel {
                segments: with_segment(old(self)@.segments, segment),
                ..old(self)@
            }),
            appended == !has_sequence_id(old(self)@.segments, segment.sequence_id),
    {
        self.history.add(segment)
    }

    /// Marks the session as having met a fatal error.
    pub fn record_fatal_error(&mut self)
        requires
            old(self).wf(),
        ensures
            final(self).wf(),
            final(self)@ == (SessionModel { fatal_error: true, ..old(self)@ }),
    {
        self.fatal_error = true;
    }

    /// Reports where the recording lies once pending writes were flushed,
    /// or the failure of that flush. Either way the session, and with it
    /// every transcript segment, stays as it is.
    pub fn save_recording_only(&self, flushed: Result<(), String>) -> (r: Result<
        RecordingMetadata,
        RecordingError,
    >)
        ensures
            match flushed {
                Ok(_) => r == Ok::<RecordingMetadata, RecordingError>(
                    RecordingMetadata {
                        meeting_folder: self@.meeting_folder,
                        meeting_name: self@.meeting_name,
                    },
                ),
                Err(detail) => r == Err::<RecordingMetadata, RecordingError>(
                    RecordingError::PersistenceFailure { detail },
                ),
            },
    {
        match flushed {
            Ok(_) => Ok(
                RecordingMetadata {
                    meeting_folder: self.get_meeting_folder(),
                    meeting_name: self.meeting_name.clone(),
                },
            ),
            Err(detail) => Err(RecordingError::PersistenceFailure { detail }),
        }
    }

    pub fn is_recording(&self) -> (r: bool)
        ensures
            r == self@.recording,
    {
        self.recording
    }

    pub fn is_paused(&self) -> (r: bool)
        ensures
            r == self@.is_paused(),
    {
        self.pauses.is_paused()
    }

    /// Whether audio is being acquired: recording and not paused.
    pub fn is_active(&self) -> (r: bool)
        ensures
            r == (self@.recording && !self@.is_paused()),
    {
        self.recording && !self.pauses.is_paused()
    }

    /// Whether audio of the given role is being acquired.
    pub fn is_capturing(&self, role: DeviceMonitorType) -> (r: bool)
        ensures
            r == self@.captures(role),
    {
        let connected = match self.link_state(role) {
            Some(LinkState::Connected) => true,
            _ => false,
        };
        self.recording && !self.pauses.is_paused() && connected
    }

    /// Whether the role is bound to a device that is absent.
    pub fn is_absent(&self, role: DeviceMonitorType) -> (r: bool)
        ensures
            r == self@.is_absent(role),
    {
        match self.link_state(role) {
            Some(LinkState::Disconnected) => true,
            Some(LinkState::Reconnecting) => true,
            _ => false,
        }
    }

    pub fn is_reconnecting(&self) -> (r: bool)
        ensures
            r == self@.is_reconnecting(),
    {
        let microphone = match self.link_state(DeviceMonitorType::Microphone) {
            Some(LinkState::Reconnecting) => true,
            _ => false,
        };
        let system_audio = match self.link_state(DeviceMonitorType::SystemAudio) {
            Some(LinkState::Reconnecting) => true,
            _ => false,
        };
        microphone || system_audio
    }

    /// The absent device that is reported, with its role: the microphone
    /// before the system audio.
    pub fn get_disconnected_device(&self) -> (r: Option<(AudioDevice, DeviceMonitorType)>)
        ensures
            match self@.disconnected_role() {
                Some(role) => r == Some((self@.link(role).unwrap().device, role)),
                None => r.is_none(),
            },
    {
        let role = if self.is_absent(DeviceMonitorType::Microphone) {
            DeviceMonitorType::Microphone
        } else if self.is_absent(DeviceMonitorType::SystemAudio) {
            DeviceMonitorType::SystemAudio
        } else {
            return None;
        };
        match self.bound_device(role) {
            Some(device) => Some((device, role)),
            None => None,
        }
    }

    /// The device bound to the microphone role, if one is.
    pub fn get_microphone_device(&self) -> (r: Option<AudioDevice>)
        ensures
            match self@.microphone {
                Some(l) => r == Some(l.device),
                None => r.is_none(),
            },
    {
        self.bound_device(DeviceMonitorType::Microphone)
    }

    /// The device bound to the system-audio role, if one is.
    pub fn get_system_device(&self) -> (r: Option<AudioDevice>)
        ensures
            match self@.system_audio {
                Some(l) => r == Some(l.device),
                None => r.is_none(),
            },
    {
        self.bound_device(DeviceMonitorType::SystemAudio)
    }

    pub fn get_meeting_name(&self) -> (r: String)
        ensures
            r == self@.meeting_name,
    {
        self.meeting_name.clone()
    }

    pub fn get_meeting_folder(&self) -> (r: Option<String>)
        ensures
            r == self@.meeting_folder,
    {
        match &self.meeting_folder {
            Some(folder) => Some(folder.clone()),
            None => None,
        }
    }

    pub fn get_auto_save(&self) -> (r: bool)
        ensures
            r == self@.auto_save,
    {
        self.auto_save
    }

    pub fn has_fatal_error(&self) -> (r: bool)
        ensures
            r == self@.fatal_error,
    {
        self.fatal_error
    }

    pub fn get_chunks_processed(&self) -> (r: u64)
        ensures
            r == self@.chunks_processed,
    {
        self.chunks_processed
    }

    pub fn get_chunks_captured(&self) -> (r: u64)
        ensures
            r == self@.chunks_captured,
    {
        self.chunks_captured
    }

    pub fn get_last_activity(&self) -> (r: u64)
        ensures
            r == self@.last_activity,
    {
        self.last_activity
    }

    /// The number of transcript segments held.
    pub fn get_transcript_segment_count(&self) -> (r: usize)
        ensures
            r == self@.segments.len(),
    {
        self.history.len()
    }

    /// A copy of the transcript segments, in order of arrival.
    pub fn get_transcript_segments(&self) -> (r: Vec<TranscriptSegment>)
        ensures
            r@ == self@.segments,
    {
        self.history.snapshot()
    }

    /// Milliseconds since the session started.
    pub fn get_recording_duration(&self, now: u64) -> (r: u64)
        requires
            self.wf(),
        ensures
            r as int == self@.pauses.total_duration(now as int),
    {
        self.pauses.total_duration(now)
    }

    /// Milliseconds since the session started, less the paused total.
    pub fn get_active_recording_duration(&self, now: u64) -> (r: u64)
        requires
            self.wf(),
        ensures
            r as int == self@.pauses.active_duration(now as int),
            r as int + self@.pauses.total_pause == self@.pauses.total_duration(now as int),
    {
        self.pauses.active_duration(now)
    }

    /// The summed length of the closed pause intervals, in milliseconds.
    pub fn get_total_pause_duration(&self) -> (r: u64)
        ensures
            r as int == self@.pauses.total_pause,
    {
        self.pauses.total_pause_duration()
    }

    /// The length so far of the open pause interval, in milliseconds.
    pub fn get_current_pause_duration(&self, now: u64) -> (r: Option<u64>)
        requires
            self.wf(),
        ensures
            match r {
                Some(d) => self@.pauses.current_pause_duration(now as int) == Some(d as int),
                None => self@.pauses.current_pause_duration(now as int).is_none(),
            },
    {
        self.pauses.current_pause_duration(now)
    }
}

} // verus!
