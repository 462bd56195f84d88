//! The operations on audio files.

use vstd::prelude::*;

use crate::openai::failure::Failure;
use crate::openai::json::spec_parsed;
use crate::openai::response::{
    read_body, spec_read_parsed, OpenAIResponse, ResponseView, OpenAIAudioTranscriptionResponse, OpenAIAudioTranslationResponse,
};

verus! {

/// Translates the speech in an audio file into English text.
#[derive(Debug, Clone, PartialEq, Eq)]
pub struct OpenAIAudioTranslationRequest {
    /// The path of the local audio file.
    pub file: String,
    /// The model that listens.
    pub model: String,
    /// A text that guides the model's style.
    pub prompt: Option<String>,
    /// The format of the transcript.
    pub response_format: String,
    /// The sampling temperature, as decimal text.
    pub temperature: String,
}

/// Transcribes the speech in an audio file in its own language.
#[derive(Debug, Clone, PartialEq, Eq)]
pub struct OpenAIAudioTranscriptionRequest {
    /// The path of the local audio file.
    pub file: String,
    /// The model that listens.
    pub model: String,
    /// A text that guides the model's style.
    pub prompt: Option<String>,
    /// The format of the transcript.
    pub response_format: String,
    /// The sampling temperature, as decimal text.
    pub temperature: String,
    /// The language of the speech.
    pub language: Option<String>,
}


impl OpenAIAudioTranslationRequest {
    /// Reads the answer to this request from the body of a reply. The body
    /// must be a JSON document of the shape of a transcript; any other
    /// body is a decode failure.
    pub fn process_response(&self, response_body: &str) -> (result: Result<
        OpenAIResponse,
        Failure,
    >)
        ensures
            match spec_read_parsed::<OpenAIAudioTranslationResponse>(spec_parsed(response_body@)) {
                Some(answer) => result matches Ok(response) && response@
                    == ResponseView::AudioTranslation(answer),
                None => result == Err::<OpenAIResponse, Failure>(Failure::Decode),
            },
    {
        match read_body::<OpenAIAudioTranslationResponse>(response_body) {
            Some(response) => Ok(OpenAIResponse::OpenAIAudioTranslationResponse(response)),
            None => Err(Failure::Decode),
        }
    }
}

impl OpenAIAudioTranscriptionRequest {
    /// Reads the answer to this request from the body of a reply. The body
    /// must be a JSON document of the shape of a transcript; any other
    /// body is a decode failure.
    pub fn process_response(&self, response_body: &str) -> (result: Result<
        OpenAIResponse,
        Failure,
    >)
        ensures
            match spec_read_parsed::<OpenAIAudioTranscriptionResponse>(spec_parsed(response_body@)) {
                Some(answer) => result matches Ok(response) && response@
                    == ResponseView::AudioTranscription(answer),
                None => result == Err::<OpenAIResponse, Failure>(Failure::Decode),
            },
    {
        match read_body::<OpenAIAudioTranscriptionResponse>(response_body) {
            Some(response) => Ok(OpenAIResponse::OpenAIAudioTranscriptionResponse(response)),
            None => Err(Failure::Decode),
        }
    }
}

} // verus!
