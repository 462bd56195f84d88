//! The events of a fine-tune job.

use vstd::prelude::*;

use crate::openai::failure::Failure;
use crate::openai::json::spec_parsed;
use crate::openai::response::{
    read_body, spec_read_parsed, OpenAIResponse, ResponseView, OpenAIFineTuneEventsResponse,
};

verus! {

/// Asks for the events of a fine-tune job.
#[derive(Debug, Clone, PartialEq, Eq)]
pub struct OpenAIFineTuneEventsRequest {
    /// The identifier of the job.
    pub fine_tune_id: String,
}


impl OpenAIFineTuneEventsRequest {
    /// Reads the answer to this request from the body of a reply. The body
    /// must be a JSON document of the shape of a list of events; any other
    /// body is a decode failure.
    pub fn process_response(&self, response_body: &str) -> (result: Result<
        OpenAIResponse,
        Failure,
    >)
        ensures
            match spec_read_parsed::<OpenAIFineTuneEventsResponse>(spec_parsed(response_body@)) {
                Some(answer) => result matches Ok(response) && response@
                    == ResponseView::FineTuneEvents(answer),
                None => result == Err::<OpenAIResponse, Failure>(Failure::Decode),
            },
    {
        match read_body::<OpenAIFineTuneEventsResponse>(response_body) {
            Some(response) => Ok(OpenAIResponse::OpenAIFineTuneEventsResponse(response)),
            None => Err(Failure::Decode),
        }
    }
}

} // verus!
