//! Why a request to the recording session was refused.

use vstd::prelude::*;
use vstd::string::*;
use crate::device::DeviceMonitorType;

verus! {

/// The failures a caller of the session can be told about.
pub enum RecordingError {
    /// A session is already active.
    AlreadyActive,
    /// No transcription model is ready; the caller can act on this.
    ModelNotReady { detail: String },
    /// A named device could not be parsed or found.
    DeviceInvalid { role: DeviceMonitorType, name: String, detail: String },
    /// The capture streams could not be started.
    CaptureStartFailure { detail: String },
    /// No session is active.
    NotRecording,
    /// A reconnect was asked for while no session is active.
    RecordingNotActive,
    /// The session is not paused.
    NotPaused,
    /// The session is already paused.
    AlreadyPaused,
    /// The role's device was never reported absent.
    NotDisconnected { role: DeviceMonitorType },
    /// The text does not name a device role.
    InvalidDeviceType { given: String },
    /// The capture streams could not be stopped.
    StopFailure { detail: String },
    /// Finalizing the recording on disk failed.
    PersistenceFailure { detail: String },
    /// A shutdown step was reported that the shutdown is not waiting for.
    ShutdownOutOfOrder,
}

impl RecordingError {
    /// Whether the caller can remove the cause (a missing model) and retry,
    /// as opposed to a failure that is only reported.
    pub open spec fn spec_is_actionable(&self) -> bool {
        self is ModelNotReady
    }

    /// The text shown to the caller for this failure.
    pub open spec fn message_text(&self) -> Seq<char> {
        match self {
            RecordingError::AlreadyActive => "Recording already in progress"@,
            RecordingError::ModelNotReady { detail } => detail@,
            RecordingError::DeviceInvalid { role, name, detail } => match role {
                DeviceMonitorType::Microphone => "Invalid microphone device '"@ + name@ + "': "@
                    + detail@,
                DeviceMonitorType::SystemAudio => "Invalid system device '"@ + name@ + "': "@
                    + detail@,
            },
            RecordingError::CaptureStartFailure { detail } => "Failed to start recording: "@
                + detail@,
            RecordingError::NotRecording => "No recording is currently active"@,
            RecordingError::RecordingNotActive => "Recording not active"@,
            RecordingError::NotPaused => "Recording is not paused"@,
            RecordingError::AlreadyPaused => "Recording is already paused"@,
            RecordingError::NotDisconnected { role } => "Device was not disconnected"@,
            RecordingError::InvalidDeviceType { given } => "Invalid device type: "@ + given@,
            RecordingError::StopFailure { detail } => "Failed to stop audio streams: "@ + detail@,
            RecordingError::PersistenceFailure { detail } => detail@,
            RecordingError::ShutdownOutOfOrder => "Shutdown step reported out of order"@,
        }
    }

    #[verifier::when_used_as_spec(spec_is_actionable)]
    pub fn is_actionable(&self) -> (r: bool)
        ensures
            r == self.spec_is_actionable(),
    {
        match self {
            RecordingError::ModelNotReady { .. } => true,
            _ => false,
        }
    }

    /// Renders the failure as the text shown to the caller.
    pub fn message(&self) -> (r: String)
        ensures
            r@ == self.message_text(),
    {
        match self {
            RecordingError::AlreadyActive => String::from_str("Recording already in progress"),
            RecordingError::ModelNotReady { detail } => detail.clone(),
            RecordingError::DeviceInvalid { role, name, detail } => {
                let head = match role {
                    DeviceMonitorType::Microphone => String::from_str("Invalid microphone device '"),
                    DeviceMonitorType::SystemAudio => String::from_str("Invalid system device '"),
                };
                head.concat(name.as_str()).concat("': ").concat(detail.as_str())
            },
            RecordingError::CaptureStartFailure { detail } => String::from_str(
                "Failed to start recording: ",
            ).concat(detail.as_str()),
            RecordingError::NotRecording => String::from_str("No recording is currently active"),
            RecordingError::RecordingNotActive => String::from_str("Recording not active"),
            RecordingError::NotPaused => String::from_str("Recording is not paused"),
            RecordingError::AlreadyPaused => String::from_str("Recording is already paused"),
            RecordingError::NotDisconnected { .. } => String::from_str("Device was not disconnected"),
            RecordingError::InvalidDeviceType { given } => String::from_str(
                "Invalid device type: ",
            ).concat(given.as_str()),
            RecordingError::StopFailure { detail } => String::from_str(
                "Failed to stop audio streams: ",
            ).concat(detail.as_str()),
            RecordingError::PersistenceFailure { detail } => detail.clone(),
            RecordingError::ShutdownOutOfOrder => String::from_str(
                "Shutdown step reported out of order",
            ),
        }
    }
}

} // verus!
