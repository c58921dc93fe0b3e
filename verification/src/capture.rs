//! The capture session: how a recording is set up, kept running under the
//! keep-recording flag, finalized and handed over.
//!
//! The session itself touches no device and no file. It is a state machine:
//! the caller performs each [`CaptureAction`] and reports what happened as a
//! [`CaptureEvent`].

use crate::naming::{fresh_recording_file_name, spec_recording_file_name};
use crate::paths::{file_in_dir, path_join, AudioDir};
use vstd::prelude::*;
use vstd::string::StringExecFns;

verus! {

/// Milliseconds between two looks at the keep-recording flag.
pub const POLL_INTERVAL_MS: u64 = 10;

/// The sample formats an input device can deliver.
#[derive(Clone, Copy, Debug, PartialEq, Eq, Structural)]
pub enum SampleFormat {
    I8,
    I16,
    I32,
    I64,
    U8,
    U16,
    U32,
    U64,
    F32,
    F64,
}

/// How a WAV container stores its samples.
#[derive(Clone, Copy, Debug, PartialEq, Eq, Structural)]
pub enum WavSampleFormat {
    Float,
    Int,
}

/// What the default configuration of an input device says.
#[derive(Clone, Copy, Debug, PartialEq, Eq, Structural)]
pub struct InputConfig {
    pub channels: u16,
    pub sample_rate: u32,
    pub sample_format: SampleFormat,
}

/// The specification a WAV encoder is opened with.
#[derive(Clone, Copy, Debug, PartialEq, Eq, Structural)]
pub struct WavSpec {
    pub channels: u16,
    pub sample_rate: u32,
    pub bits_per_sample: u16,
    pub sample_format: WavSampleFormat,
}

impl SampleFormat {
    /// Size in bytes of one sample.
    pub open spec fn spec_sample_size(self) -> nat {
        match self {
            SampleFormat::I8 | SampleFormat::U8 => 1,
            SampleFormat::I16 | SampleFormat::U16 => 2,
            SampleFormat::I32 | SampleFormat::U32 | SampleFormat::F32 => 4,
            SampleFormat::I64 | SampleFormat::U64 | SampleFormat::F64 => 8,
        }
    }

    /// Whether samples are floating point numbers.
    pub open spec fn spec_is_float(self) -> bool {
        self == SampleFormat::F32 || self == SampleFormat::F64
    }

    /// Whether a capture session can stream this format: signed integers of
    /// 8, 16 and 32 bits, and 32-bit floating point.
    pub open spec fn spec_is_supported(self) -> bool {
        self == SampleFormat::I8 || self == SampleFormat::I16 || self == SampleFormat::I32 || self
            == SampleFormat::F32
    }

    /// Size in bytes of one sample.
    pub fn sample_size(&self) -> (size: usize)
        ensures
            size == self.spec_sample_size(),
    {
        match self {
            SampleFormat::I8 | SampleFormat::U8 => 1,
            SampleFormat::I16 | SampleFormat::U16 => 2,
            SampleFormat::I32 | SampleFormat::U32 | SampleFormat::F32 => 4,
            SampleFormat::I64 | SampleFormat::U64 | SampleFormat::F64 => 8,
        }
    }

    /// Whether samples are floating point numbers.
    pub fn is_float(&self) -> (float: bool)
        ensures
            float == self.spec_is_float(),
    {
        match self {
            SampleFormat::F32 | SampleFormat::F64 => true,
            _ => false,
        }
    }

    /// Whether a capture session can stream this format.
    pub fn is_supported(&self) -> (supported: bool)
        ensures
            supported == self.spec_is_supported(),
    {
        match self {
            SampleFormat::I8 | SampleFormat::I16 | SampleFormat::I32 | SampleFormat::F32 => true,
            _ => false,
        }
    }

    /// The format's short name.
    pub open spec fn spec_name(self) -> Seq<char> {
        match self {
            SampleFormat::I8 => "i8"@,
            SampleFormat::I16 => "i16"@,
            SampleFormat::I32 => "i32"@,
            SampleFormat::I64 => "i64"@,
            SampleFormat::U8 => "u8"@,
            SampleFormat::U16 => "u16"@,
            SampleFormat::U32 => "u32"@,
            SampleFormat::U64 => "u64"@,
            SampleFormat::F32 => "f32"@,
            SampleFormat::F64 => "f64"@,
        }
    }

    /// The format's short name.
    pub fn name(&self) -> (name: &'static str)
        ensures
            name@ == self.spec_name(),
    {
        match self {
            SampleFormat::I8 => "i8",
            SampleFormat::I16 => "i16",
            SampleFormat::I32 => "i32",
            SampleFormat::I64 => "i64",
            SampleFormat::U8 => "u8",
            SampleFormat::U16 => "u16",
            SampleFormat::U32 => "u32",
            SampleFormat::U64 => "u64",
            SampleFormat::F32 => "f32",
            SampleFormat::F64 => "f64",
        }
    }
}

/// The WAV sample kind that holds samples of a device format.
pub open spec fn spec_sample_format(format: SampleFormat) -> WavSampleFormat {
    if format.spec_is_float() {
        WavSampleFormat::Float
    } else {
        WavSampleFormat::Int
    }
}

/// The WAV specification that matches a device configuration: same channel
/// count and rate, eight bits for each byte of a sample.
pub open spec fn spec_wav_spec(config: InputConfig) -> WavSpec {
    WavSpec {
        channels: config.channels,
        sample_rate: config.sample_rate,
        bits_per_sample: (config.sample_format.spec_sample_size() * 8) as u16,
        sample_format: spec_sample_format(config.sample_format),
    }
}

/// The WAV sample kind that holds samples of a device format.
pub fn sample_format(format: SampleFormat) -> (kind: WavSampleFormat)
    ensures
        kind == spec_sample_format(format),
{
    if format.is_float() {
        WavSampleFormat::Float
    } else {
        WavSampleFormat::Int
    }
}

/// The WAV specification that matches a device configuration.
pub fn wav_spec_from_config(config: &InputConfig) -> (spec: WavSpec)
    ensures
        spec == spec_wav_spec(*config),
        spec.bits_per_sample == 8 * config.sample_format.spec_sample_size(),
{
    let bytes: usize = config.sample_format.sample_size();
    let bits: usize = bytes * 8;
    WavSpec {
        channels: config.channels,
        sample_rate: config.sample_rate,
        bits_per_sample: bits as u16,
        sample_format: sample_format(config.sample_format),
    }
}

/// Why a capture session ended without a recording. Each is fatal to its
/// session: nothing is retried.
#[derive(Debug, PartialEq, Eq)]
pub enum CaptureError {
    /// The system has no default input device.
    NoInputDevice,
    /// The device gave no default input configuration.
    InputConfig(String),
    /// The device's native sample format is none of the supported ones.
    UnsupportedSampleFormat(SampleFormat),
    /// The WAV encoder could not be opened or finalized.
    Encoder(String),
    /// The input stream could not be built.
    BuildStream(String),
    /// The input stream could not be started.
    PlayStream(String),
}

impl CaptureError {
    /// The text that describes the error.
    pub open spec fn spec_message(self) -> Seq<char> {
        match self {
            CaptureError::NoInputDevice => "No input device available"@,
            CaptureError::InputConfig(cause) => cause@,
            CaptureError::UnsupportedSampleFormat(format) => "Unsupported sample format '"@
                + format.spec_name() + "'"@,
            CaptureError::Encoder(cause) => cause@,
            CaptureError::BuildStream(cause) => cause@,
            CaptureError::PlayStream(cause) => cause@,
        }
    }

    /// The text that describes the error.
    pub fn message(&self) -> (text: String)
        ensures
            text@ == self.spec_message(),
    {
        match self {
            CaptureError::NoInputDevice => String::from_str("No input device available"),
            CaptureError::InputConfig(cause) => cause.clone(),
            CaptureError::UnsupportedSampleFormat(format) => {
                let mut text = String::from_str("Unsupported sample format '");
                text.append(format.name());
                text.append("'");
                text
            },
            CaptureError::Encoder(cause) => cause.clone(),
            CaptureError::BuildStream(cause) => cause.clone(),
            CaptureError::PlayStream(cause) => cause.clone(),
        }
    }
}

/// Where a capture session stands.
#[derive(Clone, Copy, Debug, PartialEq, Eq, Structural)]
pub enum CapturePhase {
    /// Created, nothing asked for yet.
    Idle,
    /// Waiting for the default input device and its configuration.
    OpeningDevice,
    /// Waiting for the WAV encoder; the device delivers the given format.
    CreatingWriter(SampleFormat),
    /// Waiting for the input stream to be built.
    BuildingStream,
    /// Waiting for the input stream to start.
    StartingStream,
    /// Samples are streaming into the encoder.
    Recording,
    /// The stream was stopped; waiting for the encoder to close the file.
    Finalizing,
    /// The recording is complete and handed over.
    Finished,
    /// The session ended with an error.
    Failed,
}

/// What the caller reports to a capture session.
#[derive(Debug, PartialEq, Eq)]
pub enum CaptureEvent {
    /// The session is to begin.
    Start,
    /// There is no default input device.
    DeviceMissing,
    /// The device gave no default configuration.
    ConfigFailed(String),
    /// The device is there, with this default configuration.
    DeviceReady(InputConfig),
    /// The encoder is open.
    WriterCreated,
    /// The encoder could not be opened.
    WriterFailed(String),
    /// The input stream is built.
    StreamBuilt,
    /// The input stream could not be built.
    StreamBuildFailed(String),
    /// The input stream runs.
    StreamStarted,
    /// The input stream could not be started.
    StreamStartFailed(String),
    /// The keep-recording flag was read.
    Polled { keep_recording: bool },
    /// The encoder has flushed and closed the file.
    Finalized,
    /// The encoder could not close the file.
    FinalizeFailed(String),
}

/// What a capture session asks its caller to do next.
#[derive(Debug, PartialEq, Eq)]
pub enum CaptureAction {
    /// Open the default input device and read its default configuration.
    OpenDevice,
    /// Open a WAV encoder on `path` with `spec`.
    CreateWriter { path: String, spec: WavSpec },
    /// Build an input stream that feeds samples of `format` to the encoder.
    BuildStream { format: SampleFormat },
    /// Start the input stream.
    StartStream,
    /// Wait `after_millis`, then read the keep-recording flag.
    Poll { after_millis: u64 },
    /// Stop the input stream and finalize the encoder.
    StopAndFinalize,
    /// Write `path` into the result slot.
    Publish { path: String },
    /// Report the error; the session is over.
    Report { error: CaptureError },
    /// Nothing to do: the event does not belong to the session's phase.
    Nothing,
}

/// The session's rule: from a phase and an event to the next phase and the
/// action to take, for a session that records to `path`.
pub open spec fn capture_next(phase: CapturePhase, event: CaptureEvent, path: String) -> (
    CapturePhase,
    CaptureAction,
) {
    match (phase, event) {
        (CapturePhase::Idle, CaptureEvent::Start) => (
            CapturePhase::OpeningDevice,
            CaptureAction::OpenDevice,
        ),
        (CapturePhase::OpeningDevice, CaptureEvent::DeviceMissing) => (
            CapturePhase::Failed,
            CaptureAction::Report { error: CaptureError::NoInputDevice },
        ),
        (CapturePhase::OpeningDevice, CaptureEvent::ConfigFailed(cause)) => (
            CapturePhase::Failed,
            CaptureAction::Report { error: CaptureError::InputConfig(cause) },
        ),
        (CapturePhase::OpeningDevice, CaptureEvent::DeviceReady(config)) => (
            CapturePhase::CreatingWriter(config.sample_format),
            CaptureAction::CreateWriter { path, spec: spec_wav_spec(config) },
        ),
        (CapturePhase::CreatingWriter(_), CaptureEvent::WriterFailed(cause)) => (
            CapturePhase::Failed,
            CaptureAction::Report { error: CaptureError::Encoder(cause) },
        ),
        (CapturePhase::CreatingWriter(format), CaptureEvent::WriterCreated) => {
            if format.spec_is_supported() {
                (CapturePhase::BuildingStream, CaptureAction::BuildStream { format })
            } else {
                (
                    CapturePhase::Failed,
                    CaptureAction::Report { error: CaptureError::UnsupportedSampleFormat(format) },
                )
            }
        },
        (CapturePhase::BuildingStream, CaptureEvent::StreamBuildFailed(cause)) => (
            CapturePhase::Failed,
            CaptureAction::Report { error: CaptureError::BuildStream(cause) },
        ),
        (CapturePhase::BuildingStream, CaptureEvent::StreamBuilt) => (
            CapturePhase::StartingStream,
            CaptureAction::StartStream,
        ),
        (CapturePhase::StartingStream, CaptureEvent::StreamStartFailed(cause)) => (
            CapturePhase::Failed,
            CaptureAction::Report { error: CaptureError::PlayStream(cause) },
        ),
        (CapturePhase::StartingStream, CaptureEvent::StreamStarted) => (
            CapturePhase::Recording,
            CaptureAction::Poll { after_millis: 0 },
        ),
        (CapturePhase::Recording, CaptureEvent::Polled { keep_recording }) => {
            if keep_recording {
                (CapturePhase::Recording, CaptureAction::Poll { after_millis: POLL_INTERVAL_MS })
            } else {
                (CapturePhase::Finalizing, CaptureAction::StopAndFinalize)
            }
        },
        (CapturePhase::Finalizing, CaptureEvent::FinalizeFailed(cause)) => (
            CapturePhase::Failed,
            CaptureAction::Report { error: CaptureError::Encoder(cause) },
        ),
        (CapturePhase::Finalizing, CaptureEvent::Finalized) => (
            CapturePhase::Finished,
            CaptureAction::Publish { path },
        ),
        _ => (phase, CaptureAction::Nothing),
    }
}

/// One recording, from the request for a device to the finished file.
#[derive(Debug, PartialEq, Eq)]
pub struct CaptureSession {
    /// The file the recording goes to.
    pub recording_path: String,
    /// Where the session stands.
    pub phase: CapturePhase,
}

impl CaptureSession {
    /// A session that will record to `recording_path`.
    pub fn new(recording_path: String) -> (session: CaptureSession)
        ensures
            session.recording_path == recording_path,
            session.phase == CapturePhase::Idle,
    {
        CaptureSession { recording_path, phase: CapturePhase::Idle }
    }

    /// Takes an event and says what to do next.
    pub fn step(&mut self, event: CaptureEvent) -> (action: CaptureAction)
        ensures
            (final(self).phase, action) == capture_next(
                old(self).phase,
                event,
                old(self).recording_path,
            ),
            final(self).recording_path == old(self).recording_path,
    {
        match (self.phase, event) {
            (CapturePhase::Idle, CaptureEvent::Start) => {
                self.phase = CapturePhase::OpeningDevice;
                CaptureAction::OpenDevice
            },
            (CapturePhase::OpeningDevice, CaptureEvent::DeviceMissing) => {
                self.phase = CapturePhase::Failed;
                CaptureAction::Report { error: CaptureError::NoInputDevice }
            },
            (CapturePhase::OpeningDevice, CaptureEvent::ConfigFailed(cause)) => {
                self.phase = CapturePhase::Failed;
                CaptureAction::Report { error: CaptureError::InputConfig(cause) }
            },
            (CapturePhase::OpeningDevice, CaptureEvent::DeviceReady(config)) => {
                self.phase = CapturePhase::CreatingWriter(config.sample_format);
                CaptureAction::CreateWriter {
                    path: self.recording_path.clone(),
                    spec: wav_spec_from_config(&config),
                }
            },
            (CapturePhase::CreatingWriter(_), CaptureEvent::WriterFailed(cause)) => {
                self.phase = CapturePhase::Failed;
                CaptureAction::Report { error: CaptureError::Encoder(cause) }
            },
            (CapturePhase::CreatingWriter(format), CaptureEvent::WriterCreated) => {
                if format.is_supported() {
                    self.phase = CapturePhase::BuildingStream;
                    CaptureAction::BuildStream { format }
                } else {
                    self.phase = CapturePhase::Failed;
                    CaptureAction::Report { error: CaptureError::UnsupportedSampleFormat(format) }
                }
            },
            (CapturePhase::BuildingStream, CaptureEvent::StreamBuildFailed(cause)) => {
                self.phase = CapturePhase::Failed;
                CaptureAction::Report { error: CaptureError::BuildStream(cause) }
            },
            (CapturePhase::BuildingStream, CaptureEvent::StreamBuilt) => {
                self.phase = CapturePhase::StartingStream;
                CaptureAction::StartStream
            },
            (CapturePhase::StartingStream, CaptureEvent::StreamStartFailed(cause)) => {
                self.phase = CapturePhase::Failed;
                CaptureAction::Report { error: CaptureError::PlayStream(cause) }
            },
            (CapturePhase::StartingStream, CaptureEvent::StreamStarted) => {
                self.phase = CapturePhase::Recording;
                CaptureAction::Poll { after_millis: 0 }
            },
            (CapturePhase::Recording, CaptureEvent::Polled { keep_recording }) => {
                if keep_recording {
                    CaptureAction::Poll { after_millis: POLL_INTERVAL_MS }
                } else {
                    self.phase = CapturePhase::Finalizing;
                    CaptureAction::StopAndFinalize
                }
            },
            (CapturePhase::Finalizing, CaptureEvent::FinalizeFailed(cause)) => {
                self.phase = CapturePhase::Failed;
                CaptureAction::Report { error: CaptureError::Encoder(cause) }
            },
            (CapturePhase::Finalizing, CaptureEvent::Finalized) => {
                self.phase = CapturePhase::Finished;
                CaptureAction::Publish { path: self.recording_path.clone() }
            },
            _ => CaptureAction::Nothing,
        }
    }

    /// What the result slot holds: the recording's path once the session has
    /// finished, nothing before that and nothing after a failure.
    pub open spec fn spec_result_slot(self) -> Option<String> {
        if self.phase == CapturePhase::Finished {
            Some(self.recording_path)
        } else {
            None
        }
    }

    /// What the result slot holds.
    pub fn result_slot(&self) -> (slot: Option<&String>)
        ensures
            match slot {
                Some(path) => self.spec_result_slot() == Some(*path),
                None => self.spec_result_slot() is None,
            },
    {
        match self.phase {
            CapturePhase::Finished => Some(&self.recording_path),
            _ => None,
        }
    }

    /// Whether the session is over, with a recording or with an error.
    pub fn is_over(&self) -> (over: bool)
        ensures
            over == (self.phase == CapturePhase::Finished || self.phase == CapturePhase::Failed),
    {
        match self.phase {
            CapturePhase::Finished | CapturePhase::Failed => true,
            _ => false,
        }
    }
}

/// The path of a recording started at `timestamp` in the directory `dir`.
pub open spec fn spec_recording_path(dir: Seq<char>, timestamp: Seq<char>) -> Seq<char> {
    path_join(dir, spec_recording_file_name(timestamp))
}

/// A new capture session in `dir`. Its recording is named after the current
/// local time.
pub fn record_audio(dir: &AudioDir) -> (session: CaptureSession)
    ensures
        session.phase == CapturePhase::Idle,
        exists|timestamp: Seq<char>|
            session.recording_path@ == #[trigger] spec_recording_path(dir.location(), timestamp),
{
    let name = fresh_recording_file_name();
    let ghost timestamp = choose|t: Seq<char>| name@ == #[trigger] spec_recording_file_name(t);
    let path = file_in_dir(dir.path(), name.as_str());
    assert(path@ == spec_recording_path(dir.location(), timestamp));
    CaptureSession::new(path)
}

/// The phase of a session that started in `phase` and has taken `events`.
pub open spec fn phase_after(phase: CapturePhase, events: Seq<CaptureEvent>, path: String)
    -> CapturePhase
    decreases events.len(),
{
    if events.len() == 0 {
        phase
    } else {
        capture_next(phase_after(phase, events.drop_last(), path), events.last(), path).0
    }
}

/// The action with which a session that started in `phase` answers the
/// event at position `at` of `events`.
pub open spec fn action_at(phase: CapturePhase, events: Seq<CaptureEvent>, path: String, at: int)
    -> CaptureAction {
    capture_next(phase_after(phase, events.take(at), path), events[at], path).1
}

/// A run of looks at the keep-recording flag, one event for each value read.
pub open spec fn polls(flags: Seq<bool>) -> Seq<CaptureEvent> {
    Seq::new(flags.len(), |i: int| CaptureEvent::Polled { keep_recording: flags[i] })
}

/// Whether a phase is one of the two in which a session is over.
pub open spec fn is_terminal(phase: CapturePhase) -> bool {
    phase == CapturePhase::Finished || phase == CapturePhase::Failed
}

/// A session that is over stays as it is: whatever is reported to it, its
/// phase does not change and it asks for nothing.
pub proof fn lemma_terminal_phase_absorbs(
    phase: CapturePhase,
    events: Seq<CaptureEvent>,
    path: String,
)
    requires
        is_terminal(phase),
    ensures
        phase_after(phase, events, path) == phase,
        forall|at: int|
            0 <= at < events.len() ==> #[trigger] action_at(phase, events, path, at)
                == CaptureAction::Nothing,
    decreases events.len(),
{
    if events.len() > 0 {
        lemma_terminal_phase_absorbs(phase, events.drop_last(), path);
    }
    assert forall|at: int| 0 <= at < events.len() implies #[trigger] action_at(
        phase,
        events,
        path,
        at,
    ) == CaptureAction::Nothing by {
        lemma_terminal_phase_absorbs(phase, events.take(at), path);
    }
}

/// Once a run has brought a session to an end, the rest of the run changes
/// nothing.
pub proof fn lemma_over_stays_over(
    phase: CapturePhase,
    events: Seq<CaptureEvent>,
    path: String,
    reached: int,
    later: int,
)
    requires
        0 <= reached <= later <= events.len(),
        is_terminal(phase_after(phase, events.take(reached), path)),
    ensures
        phase_after(phase, events.take(later), path) == phase_after(
            phase,
            events.take(reached),
            path,
        ),
    decreases later - reached,
{
    if reached < later {
        lemma_over_stays_over(phase, events, path, reached, later - 1);
        assert(events.take(later).drop_last() == events.take(later - 1));
    }
}

/// The recording's path reaches the result slot only in answer to the
/// encoder having closed the file, and it is the session's own path.
pub proof fn lemma_publish_follows_finalize(phase: CapturePhase, event: CaptureEvent, path: String)
    requires
        capture_next(phase, event, path).1 is Publish,
    ensures
        phase == CapturePhase::Finalizing,
        event is Finalized,
        capture_next(phase, event, path) == (
            CapturePhase::Finished,
            CaptureAction::Publish { path },
        ),
{
}

/// The result slot is written at most once: after the action that writes
/// it, a session asks for nothing more.
pub proof fn lemma_slot_written_once(
    phase: CapturePhase,
    events: Seq<CaptureEvent>,
    path: String,
    first: int,
    second: int,
)
    requires
        0 <= first < second < events.len(),
        action_at(phase, events, path, first) is Publish,
    ensures
        action_at(phase, events, path, second) == CaptureAction::Nothing,
{
    let before = phase_after(phase, events.take(first), path);
    lemma_publish_follows_finalize(before, events[first], path);
    assert(events.take(first + 1).drop_last() == events.take(first));
    assert(phase_after(phase, events.take(first + 1), path) == CapturePhase::Finished);
    lemma_over_stays_over(phase, events, path, first + 1, second);
}

/// A cleared keep-recording flag is acted on at the first look that sees it:
/// while every look before found the flag set, the session kept recording
/// and asked for one more look after the poll interval; the look that finds
/// it cleared makes the session stop the stream and finalize the file.
pub proof fn lemma_stop_seen_at_next_poll(flags: Seq<bool>, path: String, cleared: int)
    requires
        0 <= cleared < flags.len(),
        !flags[cleared],
        forall|i: int| 0 <= i < cleared ==> flags[i],
    ensures
        forall|i: int|
            0 <= i < cleared ==> #[trigger] action_at(CapturePhase::Recording, polls(flags), path, i)
                == (CaptureAction::Poll { after_millis: POLL_INTERVAL_MS }),
        action_at(CapturePhase::Recording, polls(flags), path, cleared)
            == CaptureAction::StopAndFinalize,
        phase_after(CapturePhase::Recording, polls(flags).take(cleared + 1), path)
            == CapturePhase::Finalizing,
{
    let events = polls(flags);
    lemma_keeps_recording_while_flag_set(flags, path, cleared);
    assert forall|i: int| 0 <= i < cleared implies #[trigger] action_at(
        CapturePhase::Recording,
        events,
        path,
        i,
    ) == (CaptureAction::Poll { after_millis: POLL_INTERVAL_MS }) by {
        lemma_keeps_recording_while_flag_set(flags, path, i);
    }
    assert(events.take(cleared + 1).drop_last() == events.take(cleared));
}

/// While every look finds the flag set, the session stays in its recording
/// phase.
proof fn lemma_keeps_recording_while_flag_set(flags: Seq<bool>, path: String, upto: int)
    requires
        0 <= upto <= flags.len(),
        forall|i: int| 0 <= i < upto ==> flags[i],
    ensures
        phase_after(CapturePhase::Recording, polls(flags).take(upto), path)
            == CapturePhase::Recording,
    decreases upto,
{
    if upto > 0 {
        lemma_keeps_recording_while_flag_set(flags, path, upto - 1);
        assert(polls(flags).take(upto).drop_last() == polls(flags).take(upto - 1));
    }
}

/// How the device callback finds the encoder when a batch of samples
/// arrives.
#[derive(Clone, Copy, Debug, PartialEq, Eq, Structural)]
pub enum WriterAccess {
    /// The encoder's lock is held elsewhere.
    Contended,
    /// The lock was taken, and the encoder is already finalized.
    Closed,
    /// The lock was taken, and the encoder is open.
    Open,
}

/// What the device callback writes of a batch of samples: all of it where it
/// holds the open encoder, none of it otherwise. A batch that cannot be
/// written is dropped; the callback neither waits nor fails.
pub fn write_input_data<'a, T>(input: &'a [T], access: WriterAccess) -> (batch: Option<&'a [T]>)
    ensures
        batch == if access == WriterAccess::Open {
            Some(input)
        } else {
            None::<&[T]>
        },
{
    match access {
        WriterAccess::Open => Some(input),
        _ => None,
    }
}

} // verus!
