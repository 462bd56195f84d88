//! The response model: one variant per operation, read from the JSON
//! document that the service answers with.

pub mod audio;
pub mod completions;
pub mod files;
pub mod finetune;
pub mod images;
pub mod models;
pub mod show;

use vstd::prelude::*;

pub use audio::{OpenAIAudioTranscriptionResponse, OpenAIAudioTranslationResponse};
pub use completions::{
    choice_lines, spec_choice_lines, spec_without_leading_break, Choice, OpenAICompletionsResponse,
};
pub use files::{
    FileView, OpenAIFile, OpenAIFileDeleteResponse, OpenAIFileUploadResponse, OpenAIFilesResponse,
};
pub use finetune::{
    FineTuneEventView, FineTuneView, OpenAIFineTune, OpenAIFineTuneCancelResponse,
    OpenAIFineTuneCreateResponse, OpenAIFineTuneDetailResponse, OpenAIFineTuneEvent,
    OpenAIFineTuneEventsResponse, OpenAIFineTunesResponse,
};
pub use images::{ImageView, OpenAIImage, OpenAIImageVariationResponse};
pub use models::{ModelView, OpenAIModel, OpenAIModelDeleteResponse, OpenAIModelsResponse};

use crate::openai::json::{spec_documents, spec_parsed, Json, JsonView};

verus! {

/// What an operation produced: the answer of the service in the shape that
/// belongs to the operation, or `Empty` while nothing has been produced.
#[derive(Debug, Clone, PartialEq, Eq)]
pub enum OpenAIResponse {
    OpenAIAudioTranslationResponse(OpenAIAudioTranslationResponse),
    OpenAIAudioTranscriptionResponse(OpenAIAudioTranscriptionResponse),
    OpenAICompletionsResponse(OpenAICompletionsResponse),
    OpenAIFilesResponse(OpenAIFilesResponse),
    OpenAIFileDeleteResponse(OpenAIFileDeleteResponse),
    OpenAIFileUploadResponse(OpenAIFileUploadResponse),
    OpenAIFineTunesResponse(OpenAIFineTunesResponse),
    OpenAIFineTuneCreateResponse(OpenAIFineTuneCreateResponse),
    OpenAIFineTuneCancelResponse(OpenAIFineTuneCancelResponse),
    OpenAIFineTuneDetailResponse(OpenAIFineTuneDetailResponse),
    OpenAIFineTuneEventsResponse(OpenAIFineTuneEventsResponse),
    OpenAIImageVariationResponse(OpenAIImageVariationResponse),
    OpenAIModelsResponse(OpenAIModelsResponse),
    OpenAIModelDeleteResponse(OpenAIModelDeleteResponse),
    /// Nothing has been produced.
    Empty,
}

/// The mathematical value of an [`OpenAIResponse`].
pub enum ResponseView {
    AudioTranslation(Seq<char>),
    AudioTranscription(Seq<char>),
    Completions(Seq<Seq<char>>),
    Files(Seq<FileView>),
    FileDelete((Seq<char>, bool)),
    FileUpload(FileView),
    FineTunes(Seq<FineTuneView>),
    FineTuneCreate(FineTuneView),
    FineTuneCancel(FineTuneView),
    FineTuneDetail(FineTuneView),
    FineTuneEvents(Seq<FineTuneEventView>),
    ImageVariation(Seq<ImageView>),
    Models(Seq<ModelView>),
    ModelDelete((Seq<char>, bool)),
    Empty,
}

impl View for OpenAIResponse {
    type V = ResponseView;

    open spec fn view(&self) -> ResponseView {
        match self {
            OpenAIResponse::OpenAIAudioTranslationResponse(r) => ResponseView::AudioTranslation(r@),
            OpenAIResponse::OpenAIAudioTranscriptionResponse(r) => ResponseView::AudioTranscription(
                r@,
            ),
            OpenAIResponse::OpenAICompletionsResponse(r) => ResponseView::Completions(r@),
            OpenAIResponse::OpenAIFilesResponse(r) => ResponseView::Files(r@),
            OpenAIResponse::OpenAIFileDeleteResponse(r) => ResponseView::FileDelete(r@),
            OpenAIResponse::OpenAIFileUploadResponse(r) => ResponseView::FileUpload(r@),
            OpenAIResponse::OpenAIFineTunesResponse(r) => ResponseView::FineTunes(r@),
            OpenAIResponse::OpenAIFineTuneCreateResponse(r) => ResponseView::FineTuneCreate(r@),
            OpenAIResponse::OpenAIFineTuneCancelResponse(r) => ResponseView::FineTuneCancel(r@),
            OpenAIResponse::OpenAIFineTuneDetailResponse(r) => ResponseView::FineTuneDetail(r@),
            OpenAIResponse::OpenAIFineTuneEventsResponse(r) => ResponseView::FineTuneEvents(r@),
            OpenAIResponse::OpenAIImageVariationResponse(r) => ResponseView::ImageVariation(r@),
            OpenAIResponse::OpenAIModelsResponse(r) => ResponseView::Models(r@),
            OpenAIResponse::OpenAIModelDeleteResponse(r) => ResponseView::ModelDelete(r@),
            OpenAIResponse::Empty => ResponseView::Empty,
        }
    }
}

/// What a text holds when it is a JSON document of the shape of `T`.
pub open spec fn spec_read_parsed<T: FromDocument>(parsed: Option<JsonView>) -> Option<T::V> {
    match parsed {
        Some(document) => T::spec_read(document),
        None => None,
    }
}

/// Reads a value of the shape of `T` from the body of a reply.
pub fn read_body<T: FromDocument>(body: &str) -> (value: Option<T>)
    ensures
        value matches Some(v) ==> spec_read_parsed::<T>(spec_parsed(body@)) == Some(v@),
        value is None ==> spec_read_parsed::<T>(spec_parsed(body@)) is None,
{
    match Json::parse(body) {
        Some(document) => T::read(&document),
        None => None,
    }
}

/// A value that can be read from a JSON document of one fixed shape.
///
/// Members that the shape does not name are passed over; a member that it
/// names must be there and of the right kind, or nothing is read.
pub trait FromDocument: View + Sized {
    /// What the document holds when it has the shape, as a mathematical value.
    spec fn spec_read(document: JsonView) -> Option<Self::V>;

    /// Reads the value from a document that has the shape.
    fn read(document: &Json) -> (value: Option<Self>)
        ensures
            value matches Some(v) ==> Self::spec_read(document@) == Some(v@),
            value is None ==> Self::spec_read(document@) is None,
    ;
}

/// The views of a run of values, in order.
pub open spec fn spec_views<T: View>(values: Seq<T>) -> Seq<T::V> {
    Seq::new(values.len(), |i: int| values[i]@)
}

/// What a run of documents holds when each of them has the shape of `T`.
pub open spec fn spec_read_all<T: FromDocument>(documents: Seq<JsonView>) -> Option<Seq<T::V>> {
    if forall|i: int| 0 <= i < documents.len() ==> (#[trigger] T::spec_read(documents[i])) is Some {
        Some(Seq::new(documents.len(), |i: int| T::spec_read(documents[i])->0))
    } else {
        None
    }
}

/// What the member `name` of a document holds when it is an array of
/// documents that each have the shape of `T`.
pub open spec fn spec_read_list<T: FromDocument>(document: JsonView, name: Seq<char>) -> Option<
    Seq<T::V>,
> {
    match document.spec_get_items(name) {
        Some(items) => spec_read_all::<T>(items),
        None => None,
    }
}

/// Reads a value from each of a run of documents.
pub fn read_all<T: FromDocument>(documents: &Vec<Json>) -> (values: Option<Vec<T>>)
    ensures
        values matches Some(v) ==> spec_read_all::<T>(spec_documents(documents@)) == Some(
            spec_views(v@),
        ),
        values is None ==> spec_read_all::<T>(spec_documents(documents@)) is None,
{
    let ghost all = spec_documents(documents@);
    let mut values: Vec<T> = Vec::new();
    let mut i: usize = 0;
    while i < documents.len()
        invariant
            i <= documents.len(),
            values.len() == i,
            all == spec_documents(documents@),
            forall|k: int| 0 <= k < i ==> (#[trigger] T::spec_read(all[k])) == Some(values[k]@),
        decreases documents.len() - i,
    {
        assert(all[i as int] == documents[i as int]@);
        match T::read(&documents[i]) {
            Some(value) => {
                values.push(value);
            },
            None => {
                return None;
            },
        }
        i = i + 1;
    }
    proof {
        assert(spec_read_all::<T>(all) is Some);
        let read = spec_read_all::<T>(all)->0;
        assert forall|k: int| 0 <= k < read.len() implies read[k] == spec_views(values@)[k] by {
            assert(T::spec_read(all[k]) == Some(values[k]@));
        }
        assert(read =~= spec_views(values@));
    }
    Some(values)
}

/// Reads the member `name` of a document as a list of values.
pub fn read_list<T: FromDocument>(document: &Json, name: &str) -> (values: Option<Vec<T>>)
    ensures
        values matches Some(v) ==> spec_read_list::<T>(document@, name@) == Some(spec_views(v@)),
        values is None ==> spec_read_list::<T>(document@, name@) is None,
{
    match document.member_items(name) {
        Some(items) => read_all(items),
        None => None,
    }
}

} // verus!
