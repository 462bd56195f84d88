//! The options of the audio operations.

use vstd::prelude::*;

verus! {

/// What the caller asked of the audio operations.
#[derive(Debug, Clone, PartialEq, Eq)]
pub struct CliAudio {
    /// The path of the audio file to send.
    pub file: String,
    /// Whether a transcription was asked for by name.
    pub transcriptions: bool,
    /// Whether a translation was asked for.
    pub translations: bool,
    /// The model that listens.
    pub model: String,
    /// A text that guides the model.
    pub prompt: Option<String>,
    /// The format of the transcript.
    pub response_format: String,
    /// The sampling temperature, as decimal text.
    pub temperature: String,
    /// The language of the speech.
    pub language: Option<String>,
}

impl CliAudio {
    /// Whether the speech is to be transcribed rather than translated:
    /// that is the case unless a translation was asked for.
    pub fn transcriptions(&self) -> (value: bool)
        ensures
            value == !self.translations,
    {
        !self.translations
    }

    /// Whether a translation was asked for.
    pub fn translations(&self) -> (value: &bool)
        ensures
            *value == self.translations,
    {
        &self.translations
    }

    /// The language of the speech.
    pub fn language(&self) -> (value: &Option<String>)
        ensures
            *value == self.language,
    {
        &self.language
    }

    /// The sampling temperature, as decimal text.
    pub fn temperature(&self) -> (value: &String)
        ensures
            *value == self.temperature,
    {
        &self.temperature
    }

    /// The format of the transcript.
    pub fn response_format(&self) -> (value: &String)
        ensures
            *value == self.response_format,
    {
        &self.response_format
    }

    /// A text that guides the model.
    pub fn prompt(&self) -> (value: &Option<String>)
        ensures
            *value == self.prompt,
    {
        &self.prompt
    }

    /// The model that listens.
    pub fn model(&self) -> (value: &String)
        ensures
            *value == self.model,
    {
        &self.model
    }

    /// The path of the audio file to send.
    pub fn file(&self) -> (value: &String)
        ensures
            *value == self.file,
    {
        &self.file
    }
}

} // verus!
