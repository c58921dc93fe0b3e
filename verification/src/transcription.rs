//! The bridge from a recording to its transcript: stop the capture, wait
//! for the finished file, have it transcribed, publish the text.
//!
//! The bridge neither sleeps nor talks to a service. It is a state machine:
//! the caller performs each [`BridgeAction`] and reports what happened as a
//! [`BridgeEvent`].

use crate::capture::{record_audio, spec_recording_path, CapturePhase, CaptureSession};
use crate::paths::{option_str_text, AudioDir};
use vstd::prelude::*;

verus! {

/// Milliseconds between two looks at the result slot.
pub const SLOT_POLL_INTERVAL_MS: u64 = 10;

/// The models of the transcription service.
#[derive(Clone, Copy, Debug, PartialEq, Eq, Structural)]
pub enum TranscriptionModel {
    Whisper1,
}

impl TranscriptionModel {
    /// The model's name, as the service spells it.
    pub open spec fn spec_name(self) -> Seq<char> {
        "whisper-1"@
    }

    /// The model's name, as the service spells it.
    pub fn name(&self) -> (name: &'static str)
        ensures
            name@ == self.spec_name(),
    {
        "whisper-1"
    }
}

/// A request to the transcription service.
#[derive(Debug, PartialEq, Eq)]
pub struct TranscriptionRequest {
    /// The recording to transcribe.
    pub file: String,
    pub model: TranscriptionModel,
}

/// Where the bridge stands.
#[derive(Clone, Copy, Debug, PartialEq, Eq, Structural)]
pub enum BridgePhase {
    /// The capture runs; nobody has asked for the input yet.
    Recording,
    /// The capture was told to stop; the recording is not there yet.
    AwaitingRecording,
    /// The recording is with the transcription service.
    Transcribing,
    /// The bridge has run to its end.
    Finished,
}

/// What the caller reports to the bridge.
#[derive(Debug, PartialEq, Eq)]
pub enum BridgeEvent {
    /// The consumer asks for the spoken input.
    StopRequested,
    /// The result slot was read, and held this.
    SlotRead(Option<String>),
    /// The transcription service answered with the text, or failed.
    Transcribed(Result<String, String>),
}

/// What the bridge asks its caller to do next.
#[derive(Debug, PartialEq, Eq)]
pub enum BridgeAction {
    /// Store `keep_recording` in the flag shared with the capture thread,
    /// then read the result slot.
    SignalStop { keep_recording: bool },
    /// Wait `after_millis` without blocking other work, then read the
    /// result slot again.
    PollSlot { after_millis: u64 },
    /// Send the request to the transcription service.
    Transcribe { request: TranscriptionRequest },
    /// Publish the text to the consumer, then remove the temporary
    /// recordings.
    PublishAndCleanUp { text: String },
    /// Remove the temporary recordings; nothing is published.
    CleanUp,
    /// Nothing to do: the event does not belong to the bridge's phase.
    Nothing,
}

/// What a transcription handle holds.
pub struct TranscriptionView {
    /// The keep-recording flag as this side last set it.
    pub is_recording: bool,
    /// Where the recording is kept.
    pub dir: AudioDir,
    /// The finished recording, once the capture has handed it over.
    pub recording_path: Option<String>,
    /// The transcript, once there is one.
    pub transcription: String,
    pub phase: BridgePhase,
}

/// The bridge's rule: from what the handle holds and an event to what it
/// holds next and the action to take.
pub open spec fn bridge_next(handle: TranscriptionView, event: BridgeEvent) -> (
    TranscriptionView,
    BridgeAction,
) {
    match (handle.phase, event) {
        (BridgePhase::Recording, BridgeEvent::StopRequested) => (
            TranscriptionView {
                is_recording: !handle.is_recording,
                phase: BridgePhase::AwaitingRecording,
                ..handle
            },
            BridgeAction::SignalStop { keep_recording: !handle.is_recording },
        ),
        (BridgePhase::AwaitingRecording, BridgeEvent::SlotRead(None)) => (
            handle,
            BridgeAction::PollSlot { after_millis: SLOT_POLL_INTERVAL_MS },
        ),
        (BridgePhase::AwaitingRecording, BridgeEvent::SlotRead(Some(path))) => (
            TranscriptionView {
                recording_path: Some(path),
                phase: BridgePhase::Transcribing,
                ..handle
            },
            BridgeAction::Transcribe {
                request: TranscriptionRequest { file: path, model: TranscriptionModel::Whisper1 },
            },
        ),
        (BridgePhase::Transcribing, BridgeEvent::Transcribed(Ok(text))) => (
            TranscriptionView { transcription: text, phase: BridgePhase::Finished, ..handle },
            BridgeAction::PublishAndCleanUp { text },
        ),
        (BridgePhase::Transcribing, BridgeEvent::Transcribed(Err(_))) => (
            TranscriptionView { phase: BridgePhase::Finished, ..handle },
            BridgeAction::CleanUp,
        ),
        _ => (handle, BridgeAction::Nothing),
    }
}

/// One spoken input: the recording that is being made and the transcript it
/// turns into.
#[derive(Debug)]
pub struct Transcription {
    is_recording: bool,
    dir: AudioDir,
    recording_path: Option<String>,
    phase: BridgePhase,
    /// The transcript, empty until the service has answered.
    pub transcription: String,
}

impl View for Transcription {
    type V = TranscriptionView;

    closed spec fn view(&self) -> TranscriptionView {
        TranscriptionView {
            is_recording: self.is_recording,
            dir: self.dir,
            recording_path: self.recording_path,
            transcription: self.transcription,
            phase: self.phase,
        }
    }
}

impl Transcription {
    /// A handle for a recording in the place that belongs to the current
    /// game: the keep-recording flag is set, and there is neither recording
    /// nor transcript. There is no handle exactly where a save file is given
    /// whose path has no parent.
    pub fn new(save_path: Option<&str>, data_dir: &str) -> (handle: Option<Transcription>)
        ensures
            match handle {
                Some(handle) => {
                    &&& handle@.is_recording
                    &&& handle@.recording_path is None
                    &&& handle@.transcription@ == Seq::<char>::empty()
                    &&& handle@.phase == BridgePhase::Recording
                    &&& AudioDir::spec_for_game(option_str_text(save_path), data_dir@) == Some(
                        handle@.dir@,
                    )
                },
                None => AudioDir::spec_for_game(option_str_text(save_path), data_dir@) is None,
            },
    {
        match AudioDir::for_game(save_path, data_dir) {
            Some(dir) => Some(
                Transcription {
                    is_recording: true,
                    dir,
                    recording_path: None,
                    phase: BridgePhase::Recording,
                    transcription: String::new(),
                },
            ),
            None => None,
        }
    }

    /// The capture session that records for this handle: a new session in
    /// the handle's directory.
    pub fn start_recording(&self) -> (session: CaptureSession)
        ensures
            session.phase == CapturePhase::Idle,
            exists|timestamp: Seq<char>|
                session.recording_path@ == #[trigger] spec_recording_path(
                    self@.dir.location(),
                    timestamp,
                ),
    {
        record_audio(&self.dir)
    }

    /// Flips the keep-recording flag. Returns the flag's new value.
    pub fn stop(&mut self) -> (keep_recording: bool)
        ensures
            keep_recording == !old(self)@.is_recording,
            final(self)@ == (TranscriptionView { is_recording: keep_recording, ..old(self)@ }),
    {
        self.is_recording = !self.is_recording;
        self.is_recording
    }

    /// The request that has the recording transcribed.
    pub fn transcription_request(&self) -> (request: TranscriptionRequest)
        requires
            self@.recording_path is Some,
        ensures
            Some(request.file) == self@.recording_path,
            request.model == TranscriptionModel::Whisper1,
    {
        let path: &String = self.recording_path.as_ref().unwrap();
        TranscriptionRequest { file: path.clone(), model: TranscriptionModel::Whisper1 }
    }

    /// Takes the service's answer: the text becomes the transcript; after a
    /// failure the transcript stays as it was. Returns whether there is a
    /// text to publish.
    pub fn transcribe_audio(&mut self, answer: Result<String, String>) -> (transcribed: bool)
        ensures
            transcribed == (answer is Ok),
            final(self)@ == (TranscriptionView {
                transcription: match answer {
                    Ok(text) => text,
                    Err(_) => old(self)@.transcription,
                },
                ..old(self)@
            }),
    {
        match answer {
            Ok(text) => {
                self.transcription = text;
                true
            },
            Err(_) => false,
        }
    }

    /// Takes an event and says what to do next.
    pub fn input(&mut self, event: BridgeEvent) -> (action: BridgeAction)
        ensures
            (final(self)@, action) == bridge_next(old(self)@, event),
    {
        match (self.phase, event) {
            (BridgePhase::Recording, BridgeEvent::StopRequested) => {
                let keep_recording = self.stop();
                self.phase = BridgePhase::AwaitingRecording;
                BridgeAction::SignalStop { keep_recording }
            },
            (BridgePhase::AwaitingRecording, BridgeEvent::SlotRead(None)) => {
                BridgeAction::PollSlot { after_millis: SLOT_POLL_INTERVAL_MS }
            },
            (BridgePhase::AwaitingRecording, BridgeEvent::SlotRead(Some(path))) => {
                self.recording_path = Some(path);
                self.phase = BridgePhase::Transcribing;
                BridgeAction::Transcribe { request: self.transcription_request() }
            },
            (BridgePhase::Transcribing, BridgeEvent::Transcribed(answer)) => {
                self.phase = BridgePhase::Finished;
                if self.transcribe_audio(answer) {
                    BridgeAction::PublishAndCleanUp { text: self.transcription.clone() }
                } else {
                    BridgeAction::CleanUp
                }
            },
            _ => BridgeAction::Nothing,
        }
    }

    /// Where the bridge stands.
    pub fn phase(&self) -> (phase: BridgePhase)
        ensures
            phase == self@.phase,
    {
        self.phase
    }

    /// The keep-recording flag as this side last set it.
    pub fn is_recording(&self) -> (keep_recording: bool)
        ensures
            keep_recording == self@.is_recording,
    {
        self.is_recording
    }

    /// Where the recording is kept.
    pub fn dir(&self) -> (dir: &AudioDir)
        ensures
            *dir == self@.dir,
    {
        &self.dir
    }

    /// The finished recording, once the capture has handed it over.
    pub fn recording_path(&self) -> (path: Option<&String>)
        ensures
            match path {
                Some(p) => self@.recording_path == Some(*p),
                None => self@.recording_path is None,
            },
    {
        match &self.recording_path {
            Some(path) => Some(path),
            None => None,
        }
    }
}

impl Clone for Transcription {
    fn clone(&self) -> (copy: Transcription)
        ensures
            copy@ == self@,
    {
        Transcription {
            is_recording: self.is_recording,
            dir: self.dir.clone(),
            recording_path: match &self.recording_path {
                Some(path) => Some(path.clone()),
                None => None,
            },
            phase: self.phase,
            transcription: self.transcription.clone(),
        }
    }
}

/// The bridge waits for the recording without giving up: as long as the
/// result slot is found empty, it stays where it is and asks for one more
/// look after the poll interval.
pub proof fn lemma_empty_slot_is_polled_again(handle: TranscriptionView)
    requires
        handle.phase == BridgePhase::AwaitingRecording,
    ensures
        bridge_next(handle, BridgeEvent::SlotRead(None)) == (
            handle,
            BridgeAction::PollSlot { after_millis: SLOT_POLL_INTERVAL_MS },
        ),
{
}

/// A text is published only in answer to the service having returned it,
/// and it is that text.
pub proof fn lemma_publish_needs_transcript(handle: TranscriptionView, event: BridgeEvent)
    requires
        bridge_next(handle, event).1 is PublishAndCleanUp,
    ensures
        handle.phase == BridgePhase::Transcribing,
        event matches BridgeEvent::Transcribed(Ok(text)) && bridge_next(handle, event).1 == (
            BridgeAction::PublishAndCleanUp { text }
        ) && bridge_next(handle, event).0.transcription == text,
{
}

/// When the transcription service fails, no text is published and the
/// temporary recordings are still removed: the bridge answers with the
/// clean-up alone and is finished.
pub proof fn lemma_failure_cleans_up_without_publishing(
    handle: TranscriptionView,
    cause: String,
)
    requires
        handle.phase == BridgePhase::Transcribing,
    ensures
        bridge_next(handle, BridgeEvent::Transcribed(Err(cause))).1 == BridgeAction::CleanUp,
        bridge_next(handle, BridgeEvent::Transcribed(Err(cause))).0 == (TranscriptionView {
            phase: BridgePhase::Finished,
            ..handle
        }),
{
}

/// The bridge cleans up exactly when it finishes: an event brings it to its
/// end if and only if the action it answers with removes the temporary
/// recordings, with or without a text to publish.
pub proof fn lemma_finishes_with_clean_up(handle: TranscriptionView, event: BridgeEvent)
    requires
        handle.phase != BridgePhase::Finished,
    ensures
        bridge_next(handle, event).0.phase == BridgePhase::Finished <==> (bridge_next(
            handle,
            event,
        ).1 is CleanUp || bridge_next(handle, event).1 is PublishAndCleanUp),
{
}

/// Once finished, the bridge stays as it is and asks for nothing.
pub proof fn lemma_finished_bridge_is_silent(handle: TranscriptionView, event: BridgeEvent)
    requires
        handle.phase == BridgePhase::Finished,
    ensures
        bridge_next(handle, event) == (handle, BridgeAction::Nothing),
{
}

} // verus!
