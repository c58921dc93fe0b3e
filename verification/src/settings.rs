//! The program's settings, and how a key from the environment overrides the
//! stored one.

use vstd::prelude::*;
use vstd::string::StringExecFns;

verus! {

/// The language of the game's texts.
#[derive(Debug, PartialEq, Eq)]
pub enum Language {
    English,
    French,
    Japanese,
    Turkish,
    Custom(String),
}

/// The chat models the game can use.
#[derive(Clone, Copy, Debug, PartialEq, Eq, Structural)]
pub enum Model {
    Gpt4oMini,
    Gpt4o,
}

/// What the user has chosen.
#[derive(Debug, PartialEq, Eq)]
pub struct Settings {
    pub language: Language,
    pub openai_api_key: Option<String>,
    pub model: String,
    pub audio_output_enabled: bool,
    pub audio_input_enabled: bool,
    pub debug_mode: bool,
}

impl Language {
    /// The language's name: that of its kind, whatever a custom language is
    /// called.
    pub open spec fn spec_name(self) -> Seq<char> {
        match self {
            Language::English => "English"@,
            Language::French => "French"@,
            Language::Japanese => "Japanese"@,
            Language::Turkish => "Turkish"@,
            Language::Custom(_) => "Custom"@,
        }
    }

    /// The language's name.
    pub fn name(&self) -> (name: &'static str)
        ensures
            name@ == self.spec_name(),
    {
        match self {
            Language::English => "English",
            Language::French => "French",
            Language::Japanese => "Japanese",
            Language::Turkish => "Turkish",
            Language::Custom(_) => "Custom",
        }
    }
}

impl Clone for Language {
    fn clone(&self) -> (copy: Language)
        ensures
            copy == *self,
    {
        match self {
            Language::English => Language::English,
            Language::French => Language::French,
            Language::Japanese => Language::Japanese,
            Language::Turkish => Language::Turkish,
            Language::Custom(name) => Language::Custom(name.clone()),
        }
    }
}

impl Default for Language {
    fn default() -> (language: Language)
        ensures
            language == Language::English,
    {
        Language::English
    }
}

impl Model {
    /// The model's name.
    pub open spec fn spec_name(self) -> Seq<char> {
        match self {
            Model::Gpt4oMini => "Gpt4oMini"@,
            Model::Gpt4o => "Gpt4o"@,
        }
    }

    /// The model's name.
    pub fn name(&self) -> (name: &'static str)
        ensures
            name@ == self.spec_name(),
    {
        match self {
            Model::Gpt4oMini => "Gpt4oMini",
            Model::Gpt4o => "Gpt4o",
        }
    }
}

impl Default for Model {
    fn default() -> (model: Model)
        ensures
            model == Model::Gpt4oMini,
    {
        Model::Gpt4oMini
    }
}

/// Whether settings are the ones a new installation starts with: English, no
/// key, the small model, audio off both ways, debug mode on.
pub open spec fn is_default_settings(settings: Settings) -> bool {
    &&& settings.language == Language::English
    &&& settings.openai_api_key is None
    &&& settings.model@ == "gpt-4o-mini"@
    &&& !settings.audio_output_enabled
    &&& !settings.audio_input_enabled
    &&& settings.debug_mode
}

/// The key that counts: the one from the environment if it is set and not
/// empty, else the stored one.
pub open spec fn spec_effective_key(stored: Option<String>, from_env: Option<String>) -> Option<
    String,
> {
    match from_env {
        Some(key) => if key@.len() > 0 {
            Some(key)
        } else {
            stored
        },
        None => stored,
    }
}

impl Default for Settings {
    fn default() -> (settings: Settings)
        ensures
            is_default_settings(settings),
    {
        Settings {
            language: Language::English,
            openai_api_key: None,
            model: String::from_str("gpt-4o-mini"),
            audio_output_enabled: false,
            audio_input_enabled: false,
            debug_mode: true,
        }
    }
}

impl Clone for Settings {
    fn clone(&self) -> (copy: Settings)
        ensures
            copy == *self,
    {
        Settings {
            language: self.language.clone(),
            openai_api_key: match &self.openai_api_key {
                Some(key) => Some(key.clone()),
                None => None,
            },
            model: self.model.clone(),
            audio_output_enabled: self.audio_output_enabled,
            audio_input_enabled: self.audio_input_enabled,
            debug_mode: self.debug_mode,
        }
    }
}

impl Settings {
    /// The settings to run with: what was read from the settings file, or the
    /// defaults where nothing could be read, with the key from the
    /// environment in place of the stored one if it is set and not empty.
    pub fn try_load(stored: Option<Settings>, env_api_key: Option<String>) -> (settings: Settings)
        ensures
            match stored {
                Some(read) => settings == (Settings {
                    openai_api_key: spec_effective_key(read.openai_api_key, env_api_key),
                    ..read
                }),
                None => is_default_settings(
                    Settings { openai_api_key: None, ..settings },
                ) && settings.openai_api_key == spec_effective_key(None, env_api_key),
            },
    {
        let mut settings = match stored {
            Some(read) => read,
            None => Settings::default(),
        };
        match env_api_key {
            Some(key) => {
                if !key.as_str().is_empty() {
                    settings.openai_api_key = Some(key);
                }
            },
            None => {},
        }
        settings
    }
}

} // verus!
