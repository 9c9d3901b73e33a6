//! What is reported of a session when it ends, without naming its devices.

use vstd::prelude::*;
use vstd::string::*;
use crate::device::DeviceLink;
use crate::session::{RecordingManager, SessionModel};

verus! {

/// How a device is attached, as far as its name tells.
#[derive(Clone, Copy, Debug, PartialEq, Eq, Structural)]
pub enum DeviceClass {
    Bluetooth,
    Wired,
    /// No device is bound.
    Unknown,
}

/// The lowercase form of a text, as `str::to_lowercase` gives it.
pub uninterp spec fn lowercase_text(text: Seq<char>) -> Seq<char>;

/// Whether `pattern` occurs in `text` as a run of consecutive characters.
pub open spec fn contains_text(text: Seq<char>, pattern: Seq<char>) -> bool {
    exists|i: int|
        0 <= i && i + pattern.len() <= text.len() && #[trigger] text.subrange(
            i,
            i + pattern.len(),
        ) == pattern
}

/// Whether a lowercase device name holds one of the words that mark a
/// wireless device.
pub open spec fn names_wireless(lowered: Seq<char>) -> bool {
    ||| contains_text(lowered, "bluetooth"@)
    ||| contains_text(lowered, "airpods"@)
    ||| contains_text(lowered, "beats"@)
    ||| contains_text(lowered, "headphones"@)
    ||| contains_text(lowered, "bt "@)
    ||| contains_text(lowered, "wireless"@)
}

/// The class of a device with the given lowercase name.
pub open spec fn class_of(lowered: Seq<char>) -> DeviceClass {
    if names_wireless(lowered) {
        DeviceClass::Bluetooth
    } else {
        DeviceClass::Wired
    }
}

/// The class of the device bound to a role, unknown where none is bound.
pub open spec fn class_of_link(link: Option<DeviceLink>) -> DeviceClass {
    match link {
        Some(l) => class_of(lowercase_text(l.device.name@)),
        None => DeviceClass::Unknown,
    }
}

/// Calls `str::to_lowercase`. The result is named, not spelled out: it
/// follows the Unicode case tables of the standard library.
#[verifier::external_body]
fn to_lowercase(text: &str) -> (r: String)
    ensures
        r@ == lowercase_text(text@),
{
    text.to_lowercase()
}

/// Calls `str::contains` with a text as the pattern: whether the pattern
/// matches a sub-slice of the text.
#[verifier::external_body]
fn contains(text: &str, pattern: &str) -> (r: bool)
    ensures
        r == contains_text(text@, pattern@),
{
    text.contains(pattern)
}

impl DeviceClass {
    pub open spec fn label_text(self) -> Seq<char> {
        match self {
            DeviceClass::Bluetooth => "Bluetooth"@,
            DeviceClass::Wired => "Wired"@,
            DeviceClass::Unknown => "Unknown"@,
        }
    }

    /// The class as reported.
    pub fn label(self) -> (r: String)
        ensures
            r@ == self.label_text(),
    {
        match self {
            DeviceClass::Bluetooth => String::from_str("Bluetooth"),
            DeviceClass::Wired => String::from_str("Wired"),
            DeviceClass::Unknown => String::from_str("Unknown"),
        }
    }
}

/// Classifies a device by its name in lowercase: Bluetooth where the name
/// holds a word that marks a wireless device, wired otherwise.
pub fn classify_lowered(lowered: &str) -> (r: DeviceClass)
    ensures
        r == class_of(lowered@),
{
    if contains(lowered, "bluetooth") || contains(lowered, "airpods") || contains(lowered, "beats")
        || contains(lowered, "headphones") || contains(lowered, "bt ") || contains(
        lowered,
        "wireless",
    ) {
        DeviceClass::Bluetooth
    } else {
        DeviceClass::Wired
    }
}

/// Classifies a device by its name, whatever its case.
pub fn classify_device_type(device_name: &str) -> (r: DeviceClass)
    ensures
        r == class_of(lowercase_text(device_name@)),
{
    let lowered = to_lowercase(device_name);
    classify_lowered(lowered.as_str())
}

/// The figures of an ended session. Durations are in milliseconds.
pub struct MeetingSummary {
    pub total_duration: u64,
    pub active_duration: u64,
    pub pause_duration: u64,
    pub transcript_segments_count: usize,
    pub had_fatal_error: bool,
    pub microphone_device_type: DeviceClass,
    pub system_audio_device_type: DeviceClass,
    pub chunks_processed: u64,
}

impl MeetingSummary {
    /// Whether these are the figures of the session at `now`.
    pub open spec fn sums_up(self, s: SessionModel, now: int) -> bool {
        &&& self.total_duration as int == s.pauses.total_duration(now)
        &&& self.active_duration as int == s.pauses.active_duration(now)
        &&& self.pause_duration as int == s.pauses.total_pause
        &&& self.transcript_segments_count == s.segments.len()
        &&& self.had_fatal_error == s.fatal_error
        &&& self.microphone_device_type == class_of_link(s.microphone)
        &&& self.system_audio_device_type == class_of_link(s.system_audio)
        &&& self.chunks_processed == s.chunks_processed
    }
}

/// The figures of a session at `now`.
pub fn summarize(manager: &RecordingManager, now: u64) -> (r: MeetingSummary)
    requires
        manager.wf(),
    ensures
        r.sums_up(manager@, now as int),
{
    let microphone = manager.get_microphone_device();
    let system_audio = manager.get_system_device();
    MeetingSummary {
        total_duration: manager.get_recording_duration(now),
        active_duration: manager.get_active_recording_duration(now),
        pause_duration: manager.get_total_pause_duration(),
        transcript_segments_count: manager.get_transcript_segment_count(),
        had_fatal_error: manager.has_fatal_error(),
        microphone_device_type: match microphone {
            Some(device) => classify_device_type(device.name.as_str()),
            None => DeviceClass::Unknown,
        },
        system_audio_device_type: match system_audio {
            Some(device) => classify_device_type(device.name.as_str()),
            None => DeviceClass::Unknown,
        },
        chunks_processed: manager.get_chunks_processed(),
    }
}

} // verus!
