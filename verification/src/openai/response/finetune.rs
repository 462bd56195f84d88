//! The fine-tune jobs of the account.

use vstd::prelude::*;

use crate::openai::json::{Json, JsonView};
use crate::openai::response::{read_list, spec_read_list, spec_views, FromDocument};

verus! {

/// A fine-tune job, as the service describes it.
#[derive(Debug, Clone, PartialEq, Eq)]
pub struct OpenAIFineTune {
    /// The identifier of the job.
    pub id: String,
    /// The base model that the job tunes.
    pub model: String,
    /// How far the job has come.
    pub status: String,
}

/// The mathematical value of an [`OpenAIFineTune`].
pub struct FineTuneView {
    pub id: Seq<char>,
    pub model: Seq<char>,
    pub status: Seq<char>,
}

/// Something that happened to a fine-tune job.
#[derive(Debug, Clone, PartialEq, Eq)]
pub struct OpenAIFineTuneEvent {
    /// How grave the event is.
    pub level: String,
    /// What happened.
    pub message: String,
}

/// The mathematical value of an [`OpenAIFineTuneEvent`].
pub struct FineTuneEventView {
    pub level: Seq<char>,
    pub message: Seq<char>,
}

/// The answer to a request for the list of jobs.
#[derive(Debug, Clone, PartialEq, Eq)]
pub struct OpenAIFineTunesResponse {
    /// The jobs, in the order of the answer.
    pub data: Vec<OpenAIFineTune>,
}

/// The answer to the start of a job.
#[derive(Debug, Clone, PartialEq, Eq)]
pub struct OpenAIFineTuneCreateResponse {
    /// The job that was started.
    pub job: OpenAIFineTune,
}

/// The answer to the cancellation of a job.
#[derive(Debug, Clone, PartialEq, Eq)]
pub struct OpenAIFineTuneCancelResponse {
    /// The job that was cancelled.
    pub job: OpenAIFineTune,
}

/// The answer to a request for the details of a job.
#[derive(Debug, Clone, PartialEq, Eq)]
pub struct OpenAIFineTuneDetailResponse {
    /// The job that was asked about.
    pub job: OpenAIFineTune,
}

/// The answer to a request for the events of a job.
#[derive(Debug, Clone, PartialEq, Eq)]
pub struct OpenAIFineTuneEventsResponse {
    /// The events, in the order of the answer.
    pub data: Vec<OpenAIFineTuneEvent>,
}

impl View for OpenAIFineTune {
    type V = FineTuneView;

    open spec fn view(&self) -> FineTuneView {
        FineTuneView { id: self.id@, model: self.model@, status: self.status@ }
    }
}

impl View for OpenAIFineTuneEvent {
    type V = FineTuneEventView;

    open spec fn view(&self) -> FineTuneEventView {
        FineTuneEventView { level: self.level@, message: self.message@ }
    }
}

impl View for OpenAIFineTunesResponse {
    type V = Seq<FineTuneView>;

    open spec fn view(&self) -> Seq<FineTuneView> {
        spec_views(self.data@)
    }
}

impl View for OpenAIFineTuneCreateResponse {
    type V = FineTuneView;

    open spec fn view(&self) -> FineTuneView {
        self.job@
    }
}

impl View for OpenAIFineTuneCancelResponse {
    type V = FineTuneView;

    open spec fn view(&self) -> FineTuneView {
        self.job@
    }
}

impl View for OpenAIFineTuneDetailResponse {
    type V = FineTuneView;

    open spec fn view(&self) -> FineTuneView {
        self.job@
    }
}

impl View for OpenAIFineTuneEventsResponse {
    type V = Seq<FineTuneEventView>;

    open spec fn view(&self) -> Seq<FineTuneEventView> {
        spec_views(self.data@)
    }
}

impl FromDocument for OpenAIFineTune {
    open spec fn spec_read(document: JsonView) -> Option<FineTuneView> {
        match (
            document.spec_get_text("id"@),
            document.spec_get_text("model"@),
            document.spec_get_text("status"@),
        ) {
            (Some(id), Some(model), Some(status)) => Some(FineTuneView { id, model, status }),
            _ => None,
        }
    }

    fn read(document: &Json) -> (value: Option<OpenAIFineTune>) {
        match (
            document.member_text("id"),
            document.member_text("model"),
            document.member_text("status"),
        ) {
            (Some(id), Some(model), Some(status)) => Some(
                OpenAIFineTune { id: id.clone(), model: model.clone(), status: status.clone() },
            ),
            _ => None,
        }
    }
}

impl FromDocument for OpenAIFineTuneEvent {
    open spec fn spec_read(document: JsonView) -> Option<FineTuneEventView> {
        match (document.spec_get_text("level"@), document.spec_get_text("message"@)) {
            (Some(level), Some(message)) => Some(FineTuneEventView { level, message }),
            _ => None,
        }
    }

    fn read(document: &Json) -> (value: Option<OpenAIFineTuneEvent>) {
        match (document.member_text("level"), document.member_text("message")) {
            (Some(level), Some(message)) => Some(
                OpenAIFineTuneEvent { level: level.clone(), message: message.clone() },
            ),
            _ => None,
        }
    }
}

impl FromDocument for OpenAIFineTunesResponse {
    open spec fn spec_read(document: JsonView) -> Option<Seq<FineTuneView>> {
        spec_read_list::<OpenAIFineTune>(document, "data"@)
    }

    fn read(document: &Json) -> (value: Option<OpenAIFineTunesResponse>) {
        match read_list::<OpenAIFineTune>(document, "data") {
            Some(data) => Some(OpenAIFineTunesResponse { data }),
            None => None,
        }
    }
}

impl FromDocument for OpenAIFineTuneCreateResponse {
    open spec fn spec_read(document: JsonView) -> Option<FineTuneView> {
        OpenAIFineTune::spec_read(document)
    }

    fn read(document: &Json) -> (value: Option<OpenAIFineTuneCreateResponse>) {
        match OpenAIFineTune::read(document) {
            Some(job) => Some(OpenAIFineTuneCreateResponse { job }),
            None => None,
        }
    }
}

impl FromDocument for OpenAIFineTuneCancelResponse {
    open spec fn spec_read(document: JsonView) -> Option<FineTuneView> {
        OpenAIFineTune::spec_read(document)
    }

    fn read(document: &Json) -> (value: Option<OpenAIFineTuneCancelResponse>) {
        match OpenAIFineTune::read(document) {
            Some(job) => Some(OpenAIFineTuneCancelResponse { job }),
            None => None,
        }
    }
}

impl FromDocument for OpenAIFineTuneDetailResponse {
    open spec fn spec_read(document: JsonView) -> Option<FineTuneView> {
        OpenAIFineTune::spec_read(document)
    }

    fn read(document: &Json) -> (value: Option<OpenAIFineTuneDetailResponse>) {
        match OpenAIFineTune::read(document) {
            Some(job) => Some(OpenAIFineTuneDetailResponse { job }),
            None => None,
        }
    }
}

impl FromDocument for OpenAIFineTuneEventsResponse {
    open spec fn spec_read(document: JsonView) -> Option<Seq<FineTuneEventView>> {
        spec_read_list::<OpenAIFineTuneEvent>(document, "data"@)
    }

    fn read(document: &Json) -> (value: Option<OpenAIFineTuneEventsResponse>) {
        match read_list::<OpenAIFineTuneEvent>(document, "data") {
            Some(data) => Some(OpenAIFineTuneEventsResponse { data }),
            None => None,
        }
    }
}

} // verus!
