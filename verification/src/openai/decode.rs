//! Decoding: reading the body of a successful reply as the response that
//! belongs to the request that was sent.

use vstd::prelude::*;

use crate::openai::failure::Failure;
use crate::openai::json::{spec_parsed, Json, JsonView};
use crate::openai::request::OpenAIRequest;
use crate::openai::response::{
    spec_read_parsed, FromDocument, OpenAIAudioTranscriptionResponse,
    OpenAIAudioTranslationResponse, OpenAICompletionsResponse, OpenAIFileDeleteResponse,
    OpenAIFileUploadResponse, OpenAIFilesResponse, OpenAIFineTuneCancelResponse,
    OpenAIFineTuneCreateResponse, OpenAIFineTuneDetailResponse, OpenAIFineTuneEventsResponse,
    OpenAIFineTunesResponse, OpenAIModelDeleteResponse, OpenAIModelsResponse, OpenAIResponse,
    ResponseView,
};

verus! {

impl OpenAIRequest {
    /// What the reply to this request holds, given the document that its
    /// body denotes if it denotes one: the response in the one shape that
    /// belongs to the request, or nothing when the body is not a document of
    /// that shape. The shape is chosen by the request alone.
    pub open spec fn spec_decoded(&self, parsed: Option<JsonView>) -> Option<ResponseView> {
        match self {
            OpenAIRequest::OpenAIAudioTranslationRequest(_) => match spec_read_parsed::<OpenAIAudioTranslationResponse>(parsed) {
                Some(answer) => Some(ResponseView::AudioTranslation(answer)),
                None => None,
            },
            OpenAIRequest::OpenAIAudioTranscriptionRequest(_) => match spec_read_parsed::<OpenAIAudioTranscriptionResponse>(parsed) {
                Some(answer) => Some(ResponseView::AudioTranscription(answer)),
                None => None,
            },
            OpenAIRequest::OpenAICompletionsRequest(_) => match spec_read_parsed::<OpenAICompletionsResponse>(parsed) {
                Some(answer) => Some(ResponseView::Completions(answer)),
                None => None,
            },
            OpenAIRequest::OpenAIFilesRequest(_) => match spec_read_parsed::<OpenAIFilesResponse>(parsed) {
                Some(answer) => Some(ResponseView::Files(answer)),
                None => None,
            },
            OpenAIRequest::OpenAIFileDeleteRequest(_) => match spec_read_parsed::<OpenAIFileDeleteResponse>(parsed) {
                Some(answer) => Some(ResponseView::FileDelete(answer)),
                None => None,
            },
            OpenAIRequest::OpenAIFileUploadRequest(_) => match spec_read_parsed::<OpenAIFileUploadResponse>(parsed) {
                Some(answer) => Some(ResponseView::FileUpload(answer)),
                None => None,
            },
            OpenAIRequest::OpenAIFineTunesRequest(_) => match spec_read_parsed::<OpenAIFineTunesResponse>(parsed) {
                Some(answer) => Some(ResponseView::FineTunes(answer)),
                None => None,
            },
            OpenAIRequest::OpenAIFineTuneCreateRequest(_) => match spec_read_parsed::<OpenAIFineTuneCreateResponse>(parsed) {
                Some(answer) => Some(ResponseView::FineTuneCreate(answer)),
                None => None,
            },
            OpenAIRequest::OpenAIFineTuneCancelRequest(_) => match spec_read_parsed::<OpenAIFineTuneCancelResponse>(parsed) {
                Some(answer) => Some(ResponseView::FineTuneCancel(answer)),
                None => None,
            },
            OpenAIRequest::OpenAIFineTuneDetailRequest(_) => match spec_read_parsed::<OpenAIFineTuneDetailResponse>(parsed) {
                Some(answer) => Some(ResponseView::FineTuneDetail(answer)),
                None => None,
            },
            OpenAIRequest::OpenAIFineTuneEventsRequest(_) => match spec_read_parsed::<OpenAIFineTuneEventsResponse>(parsed) {
                Some(answer) => Some(ResponseView::FineTuneEvents(answer)),
                None => None,
            },
            OpenAIRequest::OpenAIModelsRequest(_) => match spec_read_parsed::<OpenAIModelsResponse>(parsed) {
                Some(answer) => Some(ResponseView::Models(answer)),
                None => None,
            },
            OpenAIRequest::OpenAIModelDeleteRequest(_) => match spec_read_parsed::<OpenAIModelDeleteResponse>(parsed) {
                Some(answer) => Some(ResponseView::ModelDelete(answer)),
                None => None,
            },
            OpenAIRequest::Empty => None,
        }
    }

    /// Whether `response` is of the variant that answers this request.
    pub open spec fn spec_answered_by(&self, response: ResponseView) -> bool {
        match self {
            OpenAIRequest::OpenAIAudioTranslationRequest(_) => response is AudioTranslation,
            OpenAIRequest::OpenAIAudioTranscriptionRequest(_) => response is AudioTranscription,
            OpenAIRequest::OpenAICompletionsRequest(_) => response is Completions,
            OpenAIRequest::OpenAIFilesRequest(_) => response is Files,
            OpenAIRequest::OpenAIFileDeleteRequest(_) => response is FileDelete,
            OpenAIRequest::OpenAIFileUploadRequest(_) => response is FileUpload,
            OpenAIRequest::OpenAIFineTunesRequest(_) => response is FineTunes,
            OpenAIRequest::OpenAIFineTuneCreateRequest(_) => response is FineTuneCreate,
            OpenAIRequest::OpenAIFineTuneCancelRequest(_) => response is FineTuneCancel,
            OpenAIRequest::OpenAIFineTuneDetailRequest(_) => response is FineTuneDetail,
            OpenAIRequest::OpenAIFineTuneEventsRequest(_) => response is FineTuneEvents,
            OpenAIRequest::OpenAIModelsRequest(_) => response is Models,
            OpenAIRequest::OpenAIModelDeleteRequest(_) => response is ModelDelete,
            OpenAIRequest::Empty => false,
        }
    }

    /// The failure of a decoding that yields no response: nothing was asked
    /// when the request is empty, and the body is at fault otherwise.
    pub open spec fn spec_decode_failure(&self) -> Failure {
        if self is Empty {
            Failure::Configuration
        } else {
            Failure::Decode
        }
    }

    /// Reads the response to this request from a JSON document.
    pub fn decode_document(&self, document: &Json) -> (result: Result<OpenAIResponse, Failure>)
        ensures
            match self.spec_decoded(Some(document@)) {
                Some(answer) => result matches Ok(response) && response@ == answer,
                None => result == Err::<OpenAIResponse, Failure>(self.spec_decode_failure()),
            },
    {
        match self {
            OpenAIRequest::OpenAIAudioTranslationRequest(_) => match OpenAIAudioTranslationResponse::read(document) {
                Some(response) => Ok(OpenAIResponse::OpenAIAudioTranslationResponse(response)),
                None => Err(Failure::Decode),
            },
            OpenAIRequest::OpenAIAudioTranscriptionRequest(_) => match OpenAIAudioTranscriptionResponse::read(document) {
                Some(response) => Ok(OpenAIResponse::OpenAIAudioTranscriptionResponse(response)),
                None => Err(Failure::Decode),
            },
            OpenAIRequest::OpenAICompletionsRequest(_) => match OpenAICompletionsResponse::read(document) {
                Some(response) => Ok(OpenAIResponse::OpenAICompletionsResponse(response)),
                None => Err(Failure::Decode),
            },
            OpenAIRequest::OpenAIFilesRequest(_) => match OpenAIFilesResponse::read(document) {
                Some(response) => Ok(OpenAIResponse::OpenAIFilesResponse(response)),
                None => Err(Failure::Decode),
            },
            OpenAIRequest::OpenAIFileDeleteRequest(_) => match OpenAIFileDeleteResponse::read(document) {
                Some(response) => Ok(OpenAIResponse::OpenAIFileDeleteResponse(response)),
                None => Err(Failure::Decode),
            },
            OpenAIRequest::OpenAIFileUploadRequest(_) => match OpenAIFileUploadResponse::read(document) {
                Some(response) => Ok(OpenAIResponse::OpenAIFileUploadResponse(response)),
                None => Err(Failure::Decode),
            },
            OpenAIRequest::OpenAIFineTunesRequest(_) => match OpenAIFineTunesResponse::read(document) {
                Some(response) => Ok(OpenAIResponse::OpenAIFineTunesResponse(response)),
                None => Err(Failure::Decode),
            },
            OpenAIRequest::OpenAIFineTuneCreateRequest(_) => match OpenAIFineTuneCreateResponse::read(document) {
                Some(response) => Ok(OpenAIResponse::OpenAIFineTuneCreateResponse(response)),
                None => Err(Failure::Decode),
            },
            OpenAIRequest::OpenAIFineTuneCancelRequest(_) => match OpenAIFineTuneCancelResponse::read(document) {
                Some(response) => Ok(OpenAIResponse::OpenAIFineTuneCancelResponse(response)),
                None => Err(Failure::Decode),
            },
            OpenAIRequest::OpenAIFineTuneDetailRequest(_) => match OpenAIFineTuneDetailResponse::read(document) {
                Some(response) => Ok(OpenAIResponse::OpenAIFineTuneDetailResponse(response)),
                None => Err(Failure::Decode),
            },
            OpenAIRequest::OpenAIFineTuneEventsRequest(_) => match OpenAIFineTuneEventsResponse::read(document) {
                Some(response) => Ok(OpenAIResponse::OpenAIFineTuneEventsResponse(response)),
                None => Err(Failure::Decode),
            },
            OpenAIRequest::OpenAIModelsRequest(_) => match OpenAIModelsResponse::read(document) {
                Some(response) => Ok(OpenAIResponse::OpenAIModelsResponse(response)),
                None => Err(Failure::Decode),
            },
            OpenAIRequest::OpenAIModelDeleteRequest(_) => match OpenAIModelDeleteResponse::read(document) {
                Some(response) => Ok(OpenAIResponse::OpenAIModelDeleteResponse(response)),
                None => Err(Failure::Decode),
            },
            OpenAIRequest::Empty => Err(Failure::Configuration),
        }
    }

    /// Reads the response to this request from the body of a reply. The
    /// request, not the body, decides which shape is read.
    pub fn decode(&self, body: &str) -> (result: Result<OpenAIResponse, Failure>)
        ensures
            match self.spec_decoded(spec_parsed(body@)) {
                Some(answer) => result matches Ok(response) && response@ == answer
                    && self.spec_answered_by(answer),
                None => result == Err::<OpenAIResponse, Failure>(self.spec_decode_failure()),
            },
    {
        match self {
            OpenAIRequest::OpenAIAudioTranslationRequest(request) => request.process_response(body),
            OpenAIRequest::OpenAIAudioTranscriptionRequest(request) => request.process_response(body),
            OpenAIRequest::OpenAICompletionsRequest(request) => request.process_response(body),
            OpenAIRequest::OpenAIFilesRequest(request) => request.process_response(body),
            OpenAIRequest::OpenAIFileDeleteRequest(request) => request.process_response(body),
            OpenAIRequest::OpenAIFileUploadRequest(request) => request.process_response(body),
            OpenAIRequest::OpenAIFineTunesRequest(request) => request.process_response(body),
            OpenAIRequest::OpenAIFineTuneCreateRequest(request) => request.process_response(body),
            OpenAIRequest::OpenAIFineTuneCancelRequest(request) => request.process_response(body),
            OpenAIRequest::OpenAIFineTuneDetailRequest(request) => request.process_response(body),
            OpenAIRequest::OpenAIFineTuneEventsRequest(request) => request.process_response(body),
            OpenAIRequest::OpenAIModelsRequest(request) => request.process_response(body),
            OpenAIRequest::OpenAIModelDeleteRequest(request) => request.process_response(body),
            OpenAIRequest::Empty => Err(Failure::Configuration),
        }
    }
}

/// A decoded response is always of the variant that answers the request
/// that was sent, whatever the body holds.
pub proof fn law_decoded_answers_request(request: OpenAIRequest, parsed: Option<JsonView>)
    requires
        request.spec_decoded(parsed) is Some,
    ensures
        request.spec_answered_by(request.spec_decoded(parsed)->0),
{
}

} // verus!
