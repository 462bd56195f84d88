//! The operations on models.

use vstd::prelude::*;

use crate::openai::failure::Failure;
use crate::openai::json::spec_parsed;
use crate::openai::response::{
    read_body, spec_read_parsed, OpenAIResponse, ResponseView, OpenAIModelDeleteResponse, OpenAIModelsResponse,
};

verus! {

/// Lists the models that the account can use.
#[derive(Debug, Clone, PartialEq, Eq)]
pub struct OpenAIModelsRequest {}

/// Deletes a fine-tuned model.
#[derive(Debug, Clone, PartialEq, Eq)]
pub struct OpenAIModelDeleteRequest {
    /// The identifier of the model to delete.
    pub model_name: String,
}


impl OpenAIModelsRequest {
    /// Reads the answer to this request from the body of a reply. The body
    /// must be a JSON document of the shape of a list of models; any other
    /// body is a decode failure.
    pub fn process_response(&self, response_body: &str) -> (result: Result<
        OpenAIResponse,
        Failure,
    >)
        ensures
            match spec_read_parsed::<OpenAIModelsResponse>(spec_parsed(response_body@)) {
                Some(answer) => result matches Ok(response) && response@
                    == ResponseView::Models(answer),
                None => result == Err::<OpenAIResponse, Failure>(Failure::Decode),
            },
    {
        match read_body::<OpenAIModelsResponse>(response_body) {
            Some(response) => Ok(OpenAIResponse::OpenAIModelsResponse(response)),
            None => Err(Failure::Decode),
        }
    }
}

impl OpenAIModelDeleteRequest {
    /// Reads the answer to this request from the body of a reply. The body
    /// must be a JSON document of the shape of a deletion; any other
    /// body is a decode failure.
    pub fn process_response(&self, response_body: &str) -> (result: Result<
        OpenAIResponse,
        Failure,
    >)
        ensures
            match spec_read_parsed::<OpenAIModelDeleteResponse>(spec_parsed(response_body@)) {
                Some(answer) => result matches Ok(response) && response@
                    == ResponseView::ModelDelete(answer),
                None => result == Err::<OpenAIResponse, Failure>(Failure::Decode),
            },
    {
        match read_body::<OpenAIModelDeleteResponse>(response_body) {
            Some(response) => Ok(OpenAIResponse::OpenAIModelDeleteResponse(response)),
            None => Err(Failure::Decode),
        }
    }
}

} // verus!
