//! The text-completion operation.

use vstd::prelude::*;

use crate::openai::failure::Failure;
use crate::openai::json::spec_parsed;
use crate::openai::response::{
    read_body, spec_read_parsed, OpenAIResponse, ResponseView, OpenAICompletionsResponse,
};

verus! {

/// Asks the service to complete a prompt.
///
/// The sampling knobs that the service reads as fractions are held as the
/// decimal text in which they go over the wire.
#[derive(Debug, Clone, PartialEq, Eq)]
pub struct OpenAICompletionsRequest {
    /// The model that completes the prompt.
    pub model: String,
    /// The text to complete.
    pub prompt: String,
    /// The most tokens that the completion may hold.
    pub max_tokens: usize,
    /// The sampling temperature, as decimal text.
    pub temperature: String,
    /// The end user on whose behalf the request is made.
    pub user: String,
    /// How likely given tokens are to appear.
    pub logit_bias: Option<String>,
    /// How many completions the service generates to pick the best from.
    pub best_of: u32,
    /// The penalty on tokens by their frequency so far, as decimal text.
    pub frequency_penalty: String,
    /// The penalty on tokens that appeared so far, as decimal text.
    pub presence_penalty: String,
    /// The sequences at which the completion stops.
    pub stop: Option<Vec<String>>,
    /// Whether the prompt is echoed back in front of the completion.
    pub echo: bool,
    /// How many of the most likely tokens are reported with their probabilities.
    pub logprobs: Option<u32>,
    /// Whether partial progress is streamed back.
    pub stream: bool,
    /// How many completions to generate.
    pub n: u32,
    /// The nucleus-sampling mass, as decimal text.
    pub top_p: String,
    /// The text that follows the completion.
    pub suffix: Option<String>,
}


impl OpenAICompletionsRequest {
    /// Reads the answer to this request from the body of a reply. The body
    /// must be a JSON document of the shape of a list of completions; any other
    /// body is a decode failure.
    pub fn process_response(&self, response_body: &str) -> (result: Result<
        OpenAIResponse,
        Failure,
    >)
        ensures
            match spec_read_parsed::<OpenAICompletionsResponse>(spec_parsed(response_body@)) {
                Some(answer) => result matches Ok(response) && response@
                    == ResponseView::Completions(answer),
                None => result == Err::<OpenAIResponse, Failure>(Failure::Decode),
            },
    {
        match read_body::<OpenAICompletionsResponse>(response_body) {
            Some(response) => Ok(OpenAIResponse::OpenAICompletionsResponse(response)),
            None => Err(Failure::Decode),
        }
    }
}

} // verus!
