//! Narration of dialogue scripts and capture of spoken input: the decisions
//! behind both, with their contracts.

pub mod assets;
pub mod capture;
pub mod naming;
pub mod narration;
pub mod paths;
pub mod script;
pub mod settings;
pub mod speech;
pub mod synthesis;
pub mod transcription;
pub mod voice;
