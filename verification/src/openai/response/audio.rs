//! The transcripts of audio files.

use vstd::prelude::*;

use crate::openai::json::{Json, JsonView};
use crate::openai::response::FromDocument;

verus! {

/// The answer to a translation request.
#[derive(Debug, Clone, PartialEq, Eq)]
pub struct OpenAIAudioTranslationResponse {
    /// The English text of the speech.
    pub text: String,
}

/// The answer to a transcription request.
#[derive(Debug, Clone, PartialEq, Eq)]
pub struct OpenAIAudioTranscriptionResponse {
    /// The text of the speech.
    pub text: String,
}

impl View for OpenAIAudioTranslationResponse {
    type V = Seq<char>;

    open spec fn view(&self) -> Seq<char> {
        self.text@
    }
}

impl View for OpenAIAudioTranscriptionResponse {
    type V = Seq<char>;

    open spec fn view(&self) -> Seq<char> {
        self.text@
    }
}

impl FromDocument for OpenAIAudioTranslationResponse {
    open spec fn spec_read(document: JsonView) -> Option<Seq<char>> {
        document.spec_get_text("text"@)
    }

    fn read(document: &Json) -> (value: Option<OpenAIAudioTranslationResponse>) {
        match document.member_text("text") {
            Some(text) => Some(OpenAIAudioTranslationResponse { text: text.clone() }),
            None => None,
        }
    }
}

impl FromDocument for OpenAIAudioTranscriptionResponse {
    open spec fn spec_read(document: JsonView) -> Option<Seq<char>> {
        document.spec_get_text("text"@)
    }

    fn read(document: &Json) -> (value: Option<OpenAIAudioTranscriptionResponse>) {
        match document.member_text("text") {
            Some(text) => Some(OpenAIAudioTranscriptionResponse { text: text.clone() }),
            None => None,
        }
    }
}

} // verus!
