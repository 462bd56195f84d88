//! The operations on fine-tune jobs.

pub mod event;

use vstd::prelude::*;

use crate::openai::failure::Failure;
use crate::openai::json::spec_parsed;
use crate::openai::response::{
    read_body, spec_read_parsed, OpenAIResponse, ResponseView, OpenAIFineTuneCancelResponse, OpenAIFineTuneCreateResponse,
    OpenAIFineTuneDetailResponse, OpenAIFineTunesResponse,
};

verus! {

/// Lists the fine-tune jobs of the account.
#[derive(Debug, Clone, PartialEq, Eq)]
pub struct OpenAIFineTunesRequest {}

/// Starts a fine-tune job.
#[derive(Debug, Clone, PartialEq, Eq)]
pub struct OpenAIFineTuneCreateRequest {
    /// The identifier of the uploaded file that holds the training data.
    pub training_file: String,
    /// The identifier of the uploaded file that holds the validation data.
    pub validation_file: Option<String>,
    /// The base model to tune.
    pub model: String,
    /// How many epochs to train for.
    pub n_epochs: i32,
    /// The batch size.
    pub batch_size: Option<u32>,
    /// The weight of the loss on prompt tokens, as decimal text.
    pub prompt_loss_weight: String,
    /// Whether classification metrics are computed.
    pub compute_classification_metrics: bool,
    /// The number of classes of a classification task.
    pub classification_n_classes: Option<u32>,
    /// The positive class of a binary classification.
    pub classification_positive_class: Option<String>,
    /// The beta values at which F-beta scores are computed.
    pub classification_betas: Option<Vec<String>>,
    /// A text added to the name of the tuned model.
    pub suffix: Option<String>,
}

/// Cancels a fine-tune job.
#[derive(Debug, Clone, PartialEq, Eq)]
pub struct OpenAIFineTuneCancelRequest {
    /// The identifier of the job.
    pub fine_tune_id: String,
}

/// Asks for the details of a fine-tune job.
#[derive(Debug, Clone, PartialEq, Eq)]
pub struct OpenAIFineTuneDetailRequest {
    /// The identifier of the job.
    pub fine_tune_id: String,
}


impl OpenAIFineTunesRequest {
    /// Reads the answer to this request from the body of a reply. The body
    /// must be a JSON document of the shape of a list of jobs; any other
    /// body is a decode failure.
    pub fn process_response(&self, response_body: &str) -> (result: Result<
        OpenAIResponse,
        Failure,
    >)
        ensures
            match spec_read_parsed::<OpenAIFineTunesResponse>(spec_parsed(response_body@)) {
                Some(answer) => result matches Ok(response) && response@
                    == ResponseView::FineTunes(answer),
                None => result == Err::<OpenAIResponse, Failure>(Failure::Decode),
            },
    {
        match read_body::<OpenAIFineTunesResponse>(response_body) {
            Some(response) => Ok(OpenAIResponse::OpenAIFineTunesResponse(response)),
            None => Err(Failure::Decode),
        }
    }
}

impl OpenAIFineTuneCreateRequest {
    /// Reads the answer to this request from the body of a reply. The body
    /// must be a JSON document of the shape of a job; any other
    /// body is a decode failure.
    pub fn process_response(&self, response_body: &str) -> (result: Result<
        OpenAIResponse,
        Failure,
    >)
        ensures
            match spec_read_parsed::<OpenAIFineTuneCreateResponse>(spec_parsed(response_body@)) {
                Some(answer) => result matches Ok(response) && response@
                    == ResponseView::FineTuneCreate(answer),
                None => result == Err::<OpenAIResponse, Failure>(Failure::Decode),
            },
    {
        match read_body::<OpenAIFineTuneCreateResponse>(response_body) {
            Some(response) => Ok(OpenAIResponse::OpenAIFineTuneCreateResponse(response)),
            None => Err(Failure::Decode),
        }
    }
}

impl OpenAIFineTuneCancelRequest {
    /// Reads the answer to this request from the body of a reply. The body
    /// must be a JSON document of the shape of a job; any other
    /// body is a decode failure.
    pub fn process_response(&self, response_body: &str) -> (result: Result<
        OpenAIResponse,
        Failure,
    >)
        ensures
            match spec_read_parsed::<OpenAIFineTuneCancelResponse>(spec_parsed(response_body@)) {
                Some(answer) => result matches Ok(response) && response@
                    == ResponseView::FineTuneCancel(answer),
                None => result == Err::<OpenAIResponse, Failure>(Failure::Decode),
            },
    {
        match read_body::<OpenAIFineTuneCancelResponse>(response_body) {
            Some(response) => Ok(OpenAIResponse::OpenAIFineTuneCancelResponse(response)),
            None => Err(Failure::Decode),
        }
    }
}

impl OpenAIFineTuneDetailRequest {
    /// Reads the answer to this request from the body of a reply. The body
    /// must be a JSON document of the shape of a job; any other
    /// body is a decode failure.
    pub fn process_response(&self, response_body: &str) -> (result: Result<
        OpenAIResponse,
        Failure,
    >)
        ensures
            match spec_read_parsed::<OpenAIFineTuneDetailResponse>(spec_parsed(response_body@)) {
                Some(answer) => result matches Ok(response) && response@
                    == ResponseView::FineTuneDetail(answer),
                None => result == Err::<OpenAIResponse, Failure>(Failure::Decode),
            },
    {
        match read_body::<OpenAIFineTuneDetailResponse>(response_body) {
            Some(response) => Ok(OpenAIResponse::OpenAIFineTuneDetailResponse(response)),
            None => Err(Failure::Decode),
        }
    }
}

} // verus!
