//! Names of the audio files a session writes: synthesized speech and
//! recorded input.
//!
//! A name is made of the local time and, for speech, a random identifier, so
//! that two files of one session do not collide. Clock and random source are
//! reached through `chrono` and `uuid`.

use chrono::Local;
use uuid::Uuid;
use vstd::prelude::*;
use vstd::string::StringExecFns;

verus! {

/// Length of a random identifier in its hyphenated form.
pub const ID_LEN: usize = 36;

/// The time pattern in the name of a synthesized file.
pub open spec fn speech_time_pattern() -> Seq<char> {
    "%Y-%m-%d_%H:%M:%S"@
}

/// The time pattern in the name of a recording.
pub open spec fn recording_time_pattern() -> Seq<char> {
    "%y_%m_%d_%h_%m_%s"@
}

/// The two time patterns this library formats with.
pub open spec fn is_time_pattern(pattern: Seq<char>) -> bool {
    pattern == speech_time_pattern() || pattern == recording_time_pattern()
}

/// Trusted: calls `Local::now` of `chrono` and formats what it returns with
/// `DateTime::format`. Nothing is claimed of the text: it depends on the clock
/// and the time zone. The two patterns admitted hold only specifiers that
/// `chrono` knows, so formatting does not fail.
#[verifier::external_body]
fn local_time_text(pattern: &str) -> (text: String)
    requires
        is_time_pattern(pattern@),
{
    Local::now().format(pattern).to_string()
}

/// Trusted: calls `Uuid::new_v4` of `uuid` and writes the identifier in its
/// hyphenated form, which is 36 characters long whatever the random bits are.
#[verifier::external_body]
fn random_id() -> (id: String)
    ensures
        id@.len() == ID_LEN,
{
    Uuid::new_v4().to_string()
}

/// Name of a synthesized file: time, identifier, and the `mp3` extension.
pub open spec fn spec_speech_file_name(timestamp: Seq<char>, id: Seq<char>) -> Seq<char> {
    timestamp + "_"@ + id + ".mp3"@
}

/// Name of a recording: time and the fixed ending.
pub open spec fn spec_recording_file_name(timestamp: Seq<char>) -> Seq<char> {
    timestamp + "_recording.wav"@
}

/// Name of a synthesized file made at `timestamp` with identifier `id`.
pub fn speech_file_name(timestamp: &str, id: &str) -> (name: String)
    ensures
        name@ == spec_speech_file_name(timestamp@, id@),
{
    let mut name = String::from_str(timestamp);
    name.append("_");
    name.append(id);
    name.append(".mp3");
    name
}

/// Name of a recording started at `timestamp`.
pub fn recording_file_name(timestamp: &str) -> (name: String)
    ensures
        name@ == spec_recording_file_name(timestamp@),
{
    let mut name = String::from_str(timestamp);
    name.append("_recording.wav");
    name
}

/// A name for a synthesized file, made of the current local time and a new
/// random identifier.
pub fn fresh_speech_file_name() -> (name: String)
    ensures
        exists|timestamp: Seq<char>, id: Seq<char>|
            id.len() == ID_LEN && name@ == #[trigger] spec_speech_file_name(timestamp, id),
{
    let timestamp = local_time_text("%Y-%m-%d_%H:%M:%S");
    let id = random_id();
    speech_file_name(timestamp.as_str(), id.as_str())
}

/// A name for a recording, made of the current local time.
pub fn fresh_recording_file_name() -> (name: String)
    ensures
        exists|timestamp: Seq<char>| name@ == #[trigger] spec_recording_file_name(timestamp),
{
    let timestamp = local_time_text("%y_%m_%d_%h_%m_%s");
    recording_file_name(timestamp.as_str())
}

} // verus!
