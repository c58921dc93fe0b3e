//! What synthesizing one line takes: the request to the speech service, and
//! the place where the audio it returns is stored.

use crate::naming::{fresh_speech_file_name, spec_speech_file_name, ID_LEN};
use crate::paths::{file_in_dir, logs_dir_beside, path_join, spec_logs_dir_beside};
use crate::voice::Voice;
use vstd::prelude::*;
use vstd::string::StringExecFns;

verus! {

/// The speech rate of every request, in hundredths of the normal rate.
pub const SPEECH_SPEED_PERCENT: u32 = 130;

/// The models of the speech service.
#[derive(Clone, Copy, Debug, PartialEq, Eq, Structural)]
pub enum SpeechModel {
    Tts1,
    Tts1Hd,
}

/// A request to the speech service.
#[derive(Debug, PartialEq, Eq)]
pub struct SpeechRequest {
    /// The text to speak.
    pub input: String,
    pub voice: Voice,
    pub model: SpeechModel,
    /// The speech rate, in hundredths of the normal rate.
    pub speed_percent: u32,
}

/// Everything needed to synthesize one line and keep the result.
#[derive(Debug, PartialEq, Eq)]
pub struct SpeechJob {
    pub request: SpeechRequest,
    /// The directory to create before the audio is stored.
    pub logs_dir: String,
    /// The file the audio goes to.
    pub file_path: String,
}

/// The request for `text` in `voice`: the standard model at the fixed rate.
pub open spec fn is_speech_request(request: SpeechRequest, text: Seq<char>, voice: Voice) -> bool {
    &&& request.input@ == text
    &&& request.voice == voice
    &&& request.model == SpeechModel::Tts1
    &&& request.speed_percent == SPEECH_SPEED_PERCENT
}

/// The job for `text` in `voice` of a game saved at `save_path`, whose audio
/// file is to be called `file_name`: the file lies in the `logs` directory
/// beside the save file.
pub open spec fn is_speech_job(
    job: SpeechJob,
    save_path: Seq<char>,
    text: Seq<char>,
    voice: Voice,
    file_name: Seq<char>,
) -> bool {
    &&& is_speech_request(job.request, text, voice)
    &&& spec_logs_dir_beside(save_path) == Some(job.logs_dir@)
    &&& job.file_path@ == path_join(job.logs_dir@, file_name)
}

/// The request for `text` in `voice`.
pub fn speech_request(text: &str, voice: Voice) -> (request: SpeechRequest)
    ensures
        is_speech_request(request, text@, voice),
{
    SpeechRequest {
        input: String::from_str(text),
        voice,
        model: SpeechModel::Tts1,
        speed_percent: SPEECH_SPEED_PERCENT,
    }
}

/// The job for one line, with the audio file's name given. There is none
/// exactly where the save file's path has no parent.
pub fn speech_job(save_path: &str, text: &str, voice: Voice, file_name: &str) -> (job: Option<
    SpeechJob,
>)
    ensures
        match job {
            Some(job) => is_speech_job(job, save_path@, text@, voice, file_name@),
            None => spec_logs_dir_beside(save_path@) is None,
        },
{
    match logs_dir_beside(save_path) {
        Some(logs_dir) => {
            let file_path = file_in_dir(logs_dir.as_str(), file_name);
            Some(SpeechJob { request: speech_request(text, voice), logs_dir, file_path })
        },
        None => None,
    }
}

/// The job for one line. The audio file gets a new name, made of the current
/// local time and a random identifier, so that no two lines share a file.
/// There is no job exactly where the save file's path has no parent.
pub fn generate_audio(save_path: &str, text: &str, voice: Voice) -> (job: Option<SpeechJob>)
    ensures
        match job {
            Some(job) => exists|timestamp: Seq<char>, id: Seq<char>|
                id.len() == ID_LEN && is_speech_job(
                    job,
                    save_path@,
                    text@,
                    voice,
                    #[trigger] spec_speech_file_name(timestamp, id),
                ),
            None => spec_logs_dir_beside(save_path@) is None,
        },
{
    let file_name = fresh_speech_file_name();
    speech_job(save_path, text, voice, file_name.as_str())
}

} // verus!
