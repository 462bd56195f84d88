//! The request dispatcher and the data it works on.

pub mod body;
pub mod decode;
pub mod encode;
pub mod failure;
pub mod handler;
pub mod headers;
pub mod json;
pub mod multipart;
pub mod request;
pub mod response;
pub mod text;

pub use body::{Attachment, Body, MultipartForm, Part};
pub use failure::{classify, Failure, StatusClass};
pub use handler::{Action, Event, OpenAIHandler, Stage, WireRequest};
pub use json::{Json, Member};
pub use request::{
    OpenAIAudioTranscriptionRequest, OpenAIAudioTranslationRequest, OpenAICompletionsRequest,
    OpenAIFileDeleteRequest, OpenAIFileUploadRequest, OpenAIFilesRequest,
    OpenAIFineTuneCancelRequest, OpenAIFineTuneCreateRequest, OpenAIFineTuneDetailRequest,
    OpenAIFineTuneEventsRequest, OpenAIFineTunesRequest, OpenAIImageVariationRequest,
    OpenAIModelDeleteRequest, OpenAIModelsRequest, OpenAIRequest, Route, Verb,
};
pub use response::{
    Choice, OpenAIAudioTranscriptionResponse, OpenAIAudioTranslationResponse,
    OpenAICompletionsResponse, OpenAIFile, OpenAIFileDeleteResponse, OpenAIFileUploadResponse,
    OpenAIFilesResponse, OpenAIFineTune, OpenAIFineTuneCancelResponse,
    OpenAIFineTuneCreateResponse, OpenAIFineTuneDetailResponse, OpenAIFineTuneEvent,
    OpenAIFineTuneEventsResponse, OpenAIFineTunesResponse, OpenAIImage,
    OpenAIImageVariationResponse, OpenAIModel, OpenAIModelDeleteResponse, OpenAIModelsResponse,
    OpenAIResponse,
};
