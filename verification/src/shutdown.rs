//! The stages of a graceful shutdown and the notifications that announce them.

use vstd::prelude::*;
use vstd::string::*;
use crate::transcript::decimal;
use crate::transcript::decimal_text;

verus! {

/// The stages of a shutdown, in the order they are gone through.
#[derive(Clone, Copy, Debug, PartialEq, Eq, Structural)]
pub enum ShutdownStage {
    StoppingAudio,
    ProcessingTranscripts,
    UnloadingModel,
    Finalizing,
    Complete,
}

/// What the shell reports back once the work of a stage is done.
pub enum ShutdownEvent {
    /// The capture subsystem was told to halt and flush; its answer.
    StreamsHalted(Result<(), String>),
    /// The worker pool reported that it has finished.
    WorkersFinished,
    /// The model unload was attempted; whether it succeeded is of no consequence.
    ModelUnloaded(bool),
    /// Pending writes were flushed; the outcome.
    RecordingSaved(Result<(), String>),
}

/// The speech-to-text engines whose model a shutdown unloads.
#[derive(Clone, Copy, Debug, PartialEq, Eq, Structural)]
pub enum TranscriptionEngine {
    Whisper,
    Parakeet,
}

/// The engine that serves a configured provider: Parakeet where it is
/// named, Whisper for every other provider and for none.
pub open spec fn engine_of(provider: Option<Seq<char>>) -> TranscriptionEngine {
    if provider == Some("parakeet"@) {
        TranscriptionEngine::Parakeet
    } else {
        TranscriptionEngine::Whisper
    }
}

/// The engine whose model is to be unloaded, from the configured provider.
pub fn engine_for_provider(provider: Option<&str>) -> (r: TranscriptionEngine)
    ensures
        r == engine_of(
            match provider {
                Some(name) => Some(name@),
                None => None,
            },
        ),
{
    match provider {
        Some(name) => {
            if String::from_str(name) == String::from_str("parakeet") {
                TranscriptionEngine::Parakeet
            } else {
                TranscriptionEngine::Whisper
            }
        },
        None => TranscriptionEngine::Whisper,
    }
}

/// A notification of shutdown progress.
pub struct ShutdownProgress {
    pub stage: String,
    pub message: String,
    pub progress: u8,
    /// Seconds waited so far, in the repeated notification sent while the
    /// worker pool drains.
    pub elapsed_seconds: Option<u64>,
}

impl ShutdownStage {
    /// The position of the stage in the shutdown order.
    pub open spec fn rank(self) -> nat {
        match self {
            ShutdownStage::StoppingAudio => 0,
            ShutdownStage::ProcessingTranscripts => 1,
            ShutdownStage::UnloadingModel => 2,
            ShutdownStage::Finalizing => 3,
            ShutdownStage::Complete => 4,
        }
    }

    /// The stage that follows, if any.
    pub open spec fn spec_next(self) -> Option<ShutdownStage> {
        match self {
            ShutdownStage::StoppingAudio => Some(ShutdownStage::ProcessingTranscripts),
            ShutdownStage::ProcessingTranscripts => Some(ShutdownStage::UnloadingModel),
            ShutdownStage::UnloadingModel => Some(ShutdownStage::Finalizing),
            ShutdownStage::Finalizing => Some(ShutdownStage::Complete),
            ShutdownStage::Complete => None,
        }
    }

    /// The percentage announced on entering the stage.
    pub open spec fn spec_percent(self) -> u8 {
        match self {
            ShutdownStage::StoppingAudio => 20,
            ShutdownStage::ProcessingTranscripts => 40,
            ShutdownStage::UnloadingModel => 70,
            ShutdownStage::Finalizing => 90,
            ShutdownStage::Complete => 100,
        }
    }

    /// The name under which the stage is announced.
    pub open spec fn name_text(self) -> Seq<char> {
        match self {
            ShutdownStage::StoppingAudio => "stopping_audio"@,
            ShutdownStage::ProcessingTranscripts => "processing_transcripts"@,
            ShutdownStage::UnloadingModel => "unloading_model"@,
            ShutdownStage::Finalizing => "finalizing"@,
            ShutdownStage::Complete => "complete"@,
        }
    }

    /// The message announced on entering the stage.
    pub open spec fn message_text(self) -> Seq<char> {
        match self {
            ShutdownStage::StoppingAudio => "Stopping audio capture..."@,
            ShutdownStage::ProcessingTranscripts => "Processing remaining transcript chunks..."@,
            ShutdownStage::UnloadingModel => "Unloading speech recognition model..."@,
            ShutdownStage::Finalizing => "Finalizing recording and cleaning up resources..."@,
            ShutdownStage::Complete => "Recording stopped successfully"@,
        }
    }

    #[verifier::when_used_as_spec(spec_next)]
    pub fn next(self) -> (r: Option<ShutdownStage>)
        ensures
            r == self.spec_next(),
    {
        match self {
            ShutdownStage::StoppingAudio => Some(ShutdownStage::ProcessingTranscripts),
            ShutdownStage::ProcessingTranscripts => Some(ShutdownStage::UnloadingModel),
            ShutdownStage::UnloadingModel => Some(ShutdownStage::Finalizing),
            ShutdownStage::Finalizing => Some(ShutdownStage::Complete),
            ShutdownStage::Complete => None,
        }
    }

    #[verifier::when_used_as_spec(spec_percent)]
    pub fn percent(self) -> (r: u8)
        ensures
            r == self.spec_percent(),
    {
        match self {
            ShutdownStage::StoppingAudio => 20,
            ShutdownStage::ProcessingTranscripts => 40,
            ShutdownStage::UnloadingModel => 70,
            ShutdownStage::Finalizing => 90,
            ShutdownStage::Complete => 100,
        }
    }

    pub fn name(self) -> (r: String)
        ensures
            r@ == self.name_text(),
    {
        match self {
            ShutdownStage::StoppingAudio => String::from_str("stopping_audio"),
            ShutdownStage::ProcessingTranscripts => String::from_str("processing_transcripts"),
            ShutdownStage::UnloadingModel => String::from_str("unloading_model"),
            ShutdownStage::Finalizing => String::from_str("finalizing"),
            ShutdownStage::Complete => String::from_str("complete"),
        }
    }

    pub fn message(self) -> (r: String)
        ensures
            r@ == self.message_text(),
    {
        match self {
            ShutdownStage::StoppingAudio => String::from_str("Stopping audio capture..."),
            ShutdownStage::ProcessingTranscripts => String::from_str(
                "Processing remaining transcript chunks...",
            ),
            ShutdownStage::UnloadingModel => String::from_str(
                "Unloading speech recognition model...",
            ),
            ShutdownStage::Finalizing => String::from_str(
                "Finalizing recording and cleaning up resources...",
            ),
            ShutdownStage::Complete => String::from_str("Recording stopped successfully"),
        }
    }

    /// The notification sent on entering the stage.
    pub fn notification(self) -> (r: ShutdownProgress)
        ensures
            r.stage@ == self.name_text(),
            r.message@ == self.message_text(),
            r.progress == self.spec_percent(),
            r.elapsed_seconds.is_none(),
    {
        ShutdownProgress {
            stage: self.name(),
            message: self.message(),
            progress: self.percent(),
            elapsed_seconds: None,
        }
    }
}

/// The message of the repeated notification sent while the worker pool drains.
pub open spec fn waiting_text(elapsed_seconds: u64) -> Seq<char> {
    "Processing transcripts... ("@ + decimal_text(elapsed_seconds as nat) + "s elapsed)"@
}

/// The repeated notification sent while the worker pool drains: the stage
/// and percentage stay those of processing transcripts.
pub fn waiting_notification(elapsed_seconds: u64) -> (r: ShutdownProgress)
    ensures
        r.stage@ == ShutdownStage::ProcessingTranscripts.name_text(),
        r.message@ == waiting_text(elapsed_seconds),
        r.progress == ShutdownStage::ProcessingTranscripts.spec_percent(),
        r.elapsed_seconds == Some(elapsed_seconds),
{
    let seconds = decimal(elapsed_seconds);
    ShutdownProgress {
        stage: ShutdownStage::ProcessingTranscripts.name(),
        message: String::from_str("Processing transcripts... (").concat(seconds.as_str()).concat(
            "s elapsed)",
        ),
        progress: ShutdownStage::ProcessingTranscripts.percent(),
        elapsed_seconds: Some(elapsed_seconds),
    }
}

/// The stages are gone through in order, one rank at a time, and the
/// announced percentage grows with each.
pub proof fn lemma_stages_in_order(stage: ShutdownStage)
    ensures
        match stage.spec_next() {
            Some(following) => following.rank() == stage.rank() + 1 && following.spec_percent()
                > stage.spec_percent(),
            None => stage == ShutdownStage::Complete && stage.spec_percent() == 100,
        },
{
}

} // verus!
