//! Variations of an image.

use vstd::prelude::*;

use crate::openai::failure::Failure;
use crate::openai::json::spec_parsed;
use crate::openai::response::{
    read_body, spec_read_parsed, OpenAIResponse, ResponseView, OpenAIImageVariationResponse,
};

verus! {

/// Asks for variations of an image.
#[derive(Debug, Clone, PartialEq, Eq)]
pub struct OpenAIImageVariationRequest {
    /// The path of the local image.
    pub image: Option<String>,
    /// How many variations to generate.
    pub n: u32,
    /// The size of the generated images.
    pub size: String,
    /// The format in which the images come back.
    pub response_format: String,
    /// The end user on whose behalf the request is made.
    pub user: Option<String>,
}


impl OpenAIImageVariationRequest {
    /// Reads the answer to this request from the body of a reply. The body
    /// must be a JSON document of the shape of a list of images; any other
    /// body is a decode failure.
    pub fn process_response(&self, response_body: &str) -> (result: Result<
        OpenAIResponse,
        Failure,
    >)
        ensures
            match spec_read_parsed::<OpenAIImageVariationResponse>(spec_parsed(response_body@)) {
                Some(answer) => result matches Ok(response) && response@
                    == ResponseView::ImageVariation(answer),
                None => result == Err::<OpenAIResponse, Failure>(Failure::Decode),
            },
    {
        match read_body::<OpenAIImageVariationResponse>(response_body) {
            Some(response) => Ok(OpenAIResponse::OpenAIImageVariationResponse(response)),
            None => Err(Failure::Decode),
        }
    }
}

} // verus!
