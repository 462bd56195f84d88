//! The operations on uploaded files.

use vstd::prelude::*;

use crate::openai::failure::Failure;
use crate::openai::json::spec_parsed;
use crate::openai::response::{
    read_body, spec_read_parsed, OpenAIResponse, ResponseView, OpenAIFileDeleteResponse, OpenAIFileUploadResponse, OpenAIFilesResponse,
};

verus! {

/// Lists the files of the account.
#[derive(Debug, Clone, PartialEq, Eq)]
pub struct OpenAIFilesRequest {}

/// Deletes an uploaded file.
#[derive(Debug, Clone, PartialEq, Eq)]
pub struct OpenAIFileDeleteRequest {
    /// The identifier of the file to delete.
    pub filename: String,
}

/// Uploads a local file.
#[derive(Debug, Clone, PartialEq, Eq)]
pub struct OpenAIFileUploadRequest {
    /// The path of the local file.
    pub file: String,
    /// What the file is for.
    pub purpose: String,
}


impl OpenAIFilesRequest {
    /// Reads the answer to this request from the body of a reply. The body
    /// must be a JSON document of the shape of a list of files; any other
    /// body is a decode failure.
    pub fn process_response(&self, response_body: &str) -> (result: Result<
        OpenAIResponse,
        Failure,
    >)
        ensures
            match spec_read_parsed::<OpenAIFilesResponse>(spec_parsed(response_body@)) {
                Some(answer) => result matches Ok(response) && response@
                    == ResponseView::Files(answer),
                None => result == Err::<OpenAIResponse, Failure>(Failure::Decode),
            },
    {
        match read_body::<OpenAIFilesResponse>(response_body) {
            Some(response) => Ok(OpenAIResponse::OpenAIFilesResponse(response)),
            None => Err(Failure::Decode),
        }
    }
}

impl OpenAIFileDeleteRequest {
    /// Reads the answer to this request from the body of a reply. The body
    /// must be a JSON document of the shape of a deletion; any other
    /// body is a decode failure.
    pub fn process_response(&self, response_body: &str) -> (result: Result<
        OpenAIResponse,
        Failure,
    >)
        ensures
            match spec_read_parsed::<OpenAIFileDeleteResponse>(spec_parsed(response_body@)) {
                Some(answer) => result matches Ok(response) && response@
                    == ResponseView::FileDelete(answer),
                None => result == Err::<OpenAIResponse, Failure>(Failure::Decode),
            },
    {
        match read_body::<OpenAIFileDeleteResponse>(response_body) {
            Some(response) => Ok(OpenAIResponse::OpenAIFileDeleteResponse(response)),
            None => Err(Failure::Decode),
        }
    }
}

impl OpenAIFileUploadRequest {
    /// Reads the answer to this request from the body of a reply. The body
    /// must be a JSON document of the shape of a file; any other
    /// body is a decode failure.
    pub fn process_response(&self, response_body: &str) -> (result: Result<
        OpenAIResponse,
        Failure,
    >)
        ensures
            match spec_read_parsed::<OpenAIFileUploadResponse>(spec_parsed(response_body@)) {
                Some(answer) => result matches Ok(response) && response@
                    == ResponseView::FileUpload(answer),
                None => result == Err::<OpenAIResponse, Failure>(Failure::Decode),
            },
    {
        match read_body::<OpenAIFileUploadResponse>(response_body) {
            Some(response) => Ok(OpenAIResponse::OpenAIFileUploadResponse(response)),
            None => Err(Failure::Decode),
        }
    }
}

} // verus!
