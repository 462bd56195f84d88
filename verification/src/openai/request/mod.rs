//! The request model: one variant per supported operation, and the verb and
//! path at which the service takes each.

pub mod audio;
pub mod completions;
pub mod files;
pub mod finetune;
pub mod images;
pub mod models;

use vstd::prelude::*;

pub use audio::{OpenAIAudioTranscriptionRequest, OpenAIAudioTranslationRequest};
pub use completions::OpenAICompletionsRequest;
pub use files::{OpenAIFileDeleteRequest, OpenAIFileUploadRequest, OpenAIFilesRequest};
pub use finetune::event::OpenAIFineTuneEventsRequest;
pub use finetune::{
    OpenAIFineTuneCancelRequest, OpenAIFineTuneCreateRequest, OpenAIFineTuneDetailRequest,
    OpenAIFineTunesRequest,
};
pub use images::variation::OpenAIImageVariationRequest;
pub use models::{OpenAIModelDeleteRequest, OpenAIModelsRequest};

use crate::openai::text::{
    lemma_doubled_concat, lemma_single_occurrence, spec_doubled, spec_occurrences, spec_occurs_at,
};

verus! {

/// One intent of the caller: a supported operation with the parameters that
/// it needs, or `Empty` while no operation has been selected.
#[derive(Debug, Clone, PartialEq, Eq)]
pub enum OpenAIRequest {
    OpenAIAudioTranslationRequest(OpenAIAudioTranslationRequest),
    OpenAIAudioTranscriptionRequest(OpenAIAudioTranscriptionRequest),
    OpenAICompletionsRequest(OpenAICompletionsRequest),
    OpenAIFilesRequest(OpenAIFilesRequest),
    OpenAIFileDeleteRequest(OpenAIFileDeleteRequest),
    OpenAIFileUploadRequest(OpenAIFileUploadRequest),
    OpenAIFineTunesRequest(OpenAIFineTunesRequest),
    OpenAIFineTuneCreateRequest(OpenAIFineTuneCreateRequest),
    OpenAIFineTuneCancelRequest(OpenAIFineTuneCancelRequest),
    OpenAIFineTuneDetailRequest(OpenAIFineTuneDetailRequest),
    OpenAIFineTuneEventsRequest(OpenAIFineTuneEventsRequest),
    OpenAIModelsRequest(OpenAIModelsRequest),
    OpenAIModelDeleteRequest(OpenAIModelDeleteRequest),
    /// No operation has been selected.
    Empty,
}

/// The HTTP verb of a call.
#[derive(Debug, Clone, Copy, PartialEq, Eq, Structural)]
pub enum Verb {
    Get,
    Post,
    Delete,
}

/// Where a request goes: the verb, and the path below the service's origin.
#[derive(Debug, Clone, PartialEq, Eq)]
pub struct Route {
    pub verb: Verb,
    pub path: String,
}

impl OpenAIRequest {
    /// The verb of the operation; `None` only for the empty request.
    pub open spec fn spec_verb(&self) -> Option<Verb> {
        match self {
            OpenAIRequest::OpenAIAudioTranslationRequest(_) => Some(Verb::Post),
            OpenAIRequest::OpenAIAudioTranscriptionRequest(_) => Some(Verb::Post),
            OpenAIRequest::OpenAICompletionsRequest(_) => Some(Verb::Post),
            OpenAIRequest::OpenAIFilesRequest(_) => Some(Verb::Get),
            OpenAIRequest::OpenAIFileDeleteRequest(_) => Some(Verb::Delete),
            OpenAIRequest::OpenAIFileUploadRequest(_) => Some(Verb::Post),
            OpenAIRequest::OpenAIFineTunesRequest(_) => Some(Verb::Get),
            OpenAIRequest::OpenAIFineTuneCreateRequest(_) => Some(Verb::Post),
            OpenAIRequest::OpenAIFineTuneCancelRequest(_) => Some(Verb::Post),
            OpenAIRequest::OpenAIFineTuneDetailRequest(_) => Some(Verb::Get),
            OpenAIRequest::OpenAIFineTuneEventsRequest(_) => Some(Verb::Get),
            OpenAIRequest::OpenAIModelsRequest(_) => Some(Verb::Get),
            OpenAIRequest::OpenAIModelDeleteRequest(_) => Some(Verb::Delete),
            OpenAIRequest::Empty => None,
        }
    }

    /// The path of the collection that the operation works on; empty only
    /// for the empty request.
    pub open spec fn spec_collection(&self) -> Seq<char> {
        match self {
            OpenAIRequest::OpenAIAudioTranslationRequest(_) => "/v1/audio/translations"@,
            OpenAIRequest::OpenAIAudioTranscriptionRequest(_) => "/v1/audio/transcriptions"@,
            OpenAIRequest::OpenAICompletionsRequest(_) => "/v1/completions"@,
            OpenAIRequest::OpenAIFilesRequest(_) => "/v1/files"@,
            OpenAIRequest::OpenAIFileDeleteRequest(_) => "/v1/files"@,
            OpenAIRequest::OpenAIFileUploadRequest(_) => "/v1/files"@,
            OpenAIRequest::OpenAIFineTunesRequest(_) => "/v1/fine-tunes"@,
            OpenAIRequest::OpenAIFineTuneCreateRequest(_) => "/v1/fine-tunes"@,
            OpenAIRequest::OpenAIFineTuneCancelRequest(_) => "/v1/fine-tunes"@,
            OpenAIRequest::OpenAIFineTuneDetailRequest(_) => "/v1/fine-tunes"@,
            OpenAIRequest::OpenAIFineTuneEventsRequest(_) => "/v1/fine-tunes"@,
            OpenAIRequest::OpenAIModelsRequest(_) => "/v1/models"@,
            OpenAIRequest::OpenAIModelDeleteRequest(_) => "/v1/models"@,
            OpenAIRequest::Empty => Seq::empty(),
        }
    }

    /// The identifier of the resource that the operation addresses, for the
    /// operations that address one.
    pub open spec fn spec_identifier(&self) -> Option<Seq<char>> {
        match self {
            OpenAIRequest::OpenAIFileDeleteRequest(request) => Some(request.filename@),
            OpenAIRequest::OpenAIFineTuneCancelRequest(request) => Some(request.fine_tune_id@),
            OpenAIRequest::OpenAIFineTuneDetailRequest(request) => Some(request.fine_tune_id@),
            OpenAIRequest::OpenAIFineTuneEventsRequest(request) => Some(request.fine_tune_id@),
            OpenAIRequest::OpenAIModelDeleteRequest(request) => Some(request.model_name@),
            _ => None,
        }
    }

    /// What follows the identifier in the path of an operation on a part of
    /// the resource; empty for every other operation.
    pub open spec fn spec_suffix(&self) -> Seq<char> {
        match self {
            OpenAIRequest::OpenAIFineTuneCancelRequest(_) => "/cancel"@,
            OpenAIRequest::OpenAIFineTuneEventsRequest(_) => "/events"@,
            _ => Seq::empty(),
        }
    }

    /// The path of the operation: the collection, and for the operations
    /// that address a resource one separator, the identifier and the suffix.
    pub open spec fn spec_path(&self) -> Seq<char> {
        match self.spec_identifier() {
            Some(identifier) => self.spec_collection() + "/"@ + identifier + self.spec_suffix(),
            None => self.spec_collection(),
        }
    }

    /// The offset in the path at which the identifier is spliced in.
    pub open spec fn spec_identifier_offset(&self) -> int {
        (self.spec_collection().len() + 1) as int
    }

    /// The path of the collection that the operation works on.
    fn collection(&self) -> (path: &'static str)
        ensures
            path@ == self.spec_collection(),
    {
        match self {
            OpenAIRequest::OpenAIAudioTranslationRequest(_) => "/v1/audio/translations",
            OpenAIRequest::OpenAIAudioTranscriptionRequest(_) => "/v1/audio/transcriptions",
            OpenAIRequest::OpenAICompletionsRequest(_) => "/v1/completions",
            OpenAIRequest::OpenAIFilesRequest(_) => "/v1/files",
            OpenAIRequest::OpenAIFileDeleteRequest(_) => "/v1/files",
            OpenAIRequest::OpenAIFileUploadRequest(_) => "/v1/files",
            OpenAIRequest::OpenAIFineTunesRequest(_) => "/v1/fine-tunes",
            OpenAIRequest::OpenAIFineTuneCreateRequest(_) => "/v1/fine-tunes",
            OpenAIRequest::OpenAIFineTuneCancelRequest(_) => "/v1/fine-tunes",
            OpenAIRequest::OpenAIFineTuneDetailRequest(_) => "/v1/fine-tunes",
            OpenAIRequest::OpenAIFineTuneEventsRequest(_) => "/v1/fine-tunes",
            OpenAIRequest::OpenAIModelsRequest(_) => "/v1/models",
            OpenAIRequest::OpenAIModelDeleteRequest(_) => "/v1/models",
            OpenAIRequest::Empty => {
                proof {
                    reveal_strlit("");
                    assert(""@ =~= Seq::<char>::empty());
                }
                ""
            },
        }
    }

    /// The identifier of the resource that the operation addresses.
    fn identifier(&self) -> (identifier: Option<&String>)
        ensures
            identifier matches Some(text) ==> self.spec_identifier() == Some(text@),
            identifier is None ==> self.spec_identifier() is None,
    {
        match self {
            OpenAIRequest::OpenAIFileDeleteRequest(request) => Some(&request.filename),
            OpenAIRequest::OpenAIFineTuneCancelRequest(request) => Some(&request.fine_tune_id),
            OpenAIRequest::OpenAIFineTuneDetailRequest(request) => Some(&request.fine_tune_id),
            OpenAIRequest::OpenAIFineTuneEventsRequest(request) => Some(&request.fine_tune_id),
            OpenAIRequest::OpenAIModelDeleteRequest(request) => Some(&request.model_name),
            _ => None,
        }
    }

    /// What follows the identifier in the path.
    fn suffix(&self) -> (suffix: &'static str)
        ensures
            suffix@ == self.spec_suffix(),
    {
        match self {
            OpenAIRequest::OpenAIFineTuneCancelRequest(_) => "/cancel",
            OpenAIRequest::OpenAIFineTuneEventsRequest(_) => "/events",
            _ => {
                proof {
                    reveal_strlit("");
                    assert(""@ =~= Seq::<char>::empty());
                }
                ""
            },
        }
    }

    /// The verb of the operation.
    pub fn verb(&self) -> (verb: Option<Verb>)
        ensures
            verb == self.spec_verb(),
    {
        match self {
            OpenAIRequest::OpenAIAudioTranslationRequest(_) => Some(Verb::Post),
            OpenAIRequest::OpenAIAudioTranscriptionRequest(_) => Some(Verb::Post),
            OpenAIRequest::OpenAICompletionsRequest(_) => Some(Verb::Post),
            OpenAIRequest::OpenAIFilesRequest(_) => Some(Verb::Get),
            OpenAIRequest::OpenAIFileDeleteRequest(_) => Some(Verb::Delete),
            OpenAIRequest::OpenAIFileUploadRequest(_) => Some(Verb::Post),
            OpenAIRequest::OpenAIFineTunesRequest(_) => Some(Verb::Get),
            OpenAIRequest::OpenAIFineTuneCreateRequest(_) => Some(Verb::Post),
            OpenAIRequest::OpenAIFineTuneCancelRequest(_) => Some(Verb::Post),
            OpenAIRequest::OpenAIFineTuneDetailRequest(_) => Some(Verb::Get),
            OpenAIRequest::OpenAIFineTuneEventsRequest(_) => Some(Verb::Get),
            OpenAIRequest::OpenAIModelsRequest(_) => Some(Verb::Get),
            OpenAIRequest::OpenAIModelDeleteRequest(_) => Some(Verb::Delete),
            OpenAIRequest::Empty => None,
        }
    }

    /// The path of the operation below the service's origin. The identifier
    /// of an addressed resource is spliced in once, after one separator.
    pub fn path(&self) -> (path: String)
        ensures
            path@ == self.spec_path(),
    {
        let mut path = String::from_str(self.collection());
        match self.identifier() {
            Some(identifier) => {
                path.append("/");
                path.append(identifier.as_str());
                path.append(self.suffix());
            },
            None => {},
        }
        path
    }

    /// Resolves the request to the verb and the path of its call. Every
    /// operation has a route; the empty request has none.
    pub fn resolve(&self) -> (route: Option<Route>)
        ensures
            route is None <==> self is Empty,
            route matches Some(r) ==> Some(r.verb) == self.spec_verb() && r.path@
                == self.spec_path() && r.path@.len() > 0,
    {
        match self.verb() {
            Some(verb) => {
                proof {
                    law_path_is_not_empty(*self);
                }
                Some(Route { verb, path: self.path() })
            },
            None => None,
        }
    }
}

/// Whether an identifier can be spliced into a path without doubling a
/// separator: it holds no doubled separator itself, does not begin with one
/// and, where a suffix follows it, is not empty and does not end with one.
pub open spec fn spec_tidy_identifier(identifier: Seq<char>, followed: bool) -> bool {
    &&& !spec_doubled(identifier, '/')
    &&& identifier.len() > 0 ==> identifier[0] != '/'
    &&& followed ==> identifier.len() > 0 && identifier.last() != '/'
}

/// What the fixed pieces of the paths of addressed resources look like: a
/// collection neither ends with a separator nor holds a doubled one, and a
/// suffix begins with its only separator.
proof fn lemma_fixed_pieces(request: OpenAIRequest)
    requires
        request.spec_identifier() is Some,
    ensures
        request.spec_collection().len() > 0,
        request.spec_collection().last() != '/',
        !spec_doubled(request.spec_collection(), '/'),
        "/"@ == seq!['/'],
        !spec_doubled(request.spec_suffix(), '/'),
        request.spec_suffix().len() > 0 ==> request.spec_suffix()[0] == '/',
{
    reveal_strlit("/v1/files");
    reveal_strlit("/v1/fine-tunes");
    reveal_strlit("/v1/models");
    reveal_strlit("/cancel");
    reveal_strlit("/events");
    reveal_strlit("/");
    assert("/"@ =~= seq!['/']);
    let collection = request.spec_collection();
    if spec_doubled(collection, '/') {
        let i = choose|i: int|
            0 <= i && i + 1 < collection.len() && collection[i] == '/' && #[trigger] collection[i
                + 1] == '/';
        if i == 0 {
        } else if i == 1 {
        } else if i == 2 {
        } else if i == 3 {
        } else if i == 4 {
        } else if i == 5 {
        } else if i == 6 {
        } else if i == 7 {
        } else if i == 8 {
        } else if i == 9 {
        } else if i == 10 {
        } else if i == 11 {
        } else if i == 12 {
        }
        assert(false);
    }
    let suffix = request.spec_suffix();
    if spec_doubled(suffix, '/') {
        let i = choose|i: int|
            0 <= i && i + 1 < suffix.len() && suffix[i] == '/' && #[trigger] suffix[i + 1] == '/';
        if i == 0 {
        } else if i == 1 {
        } else if i == 2 {
        } else if i == 3 {
        } else if i == 4 {
        } else if i == 5 {
        }
        assert(false);
    }
}

/// The identifier of an addressed resource stands in the path at the place
/// where it was spliced in: after the collection and one separator.
pub proof fn law_identifier_spliced_in(request: OpenAIRequest)
    requires
        request.spec_identifier() is Some,
    ensures
        spec_occurs_at(
            request.spec_path(),
            request.spec_identifier()->0,
            request.spec_identifier_offset(),
        ),
{
    let identifier = request.spec_identifier()->0;
    let offset = request.spec_identifier_offset();
    lemma_fixed_pieces(request);
    assert(request.spec_path().subrange(offset, offset + identifier.len()) =~= identifier);
}

/// The identifier of an addressed resource occurs in the path exactly once,
/// unless its text also occurs where it was not spliced in.
pub proof fn law_identifier_occurs_once(request: OpenAIRequest)
    requires
        request.spec_identifier() is Some,
        forall|at: int|
            spec_occurs_at(request.spec_path(), request.spec_identifier()->0, at) ==> at
                == request.spec_identifier_offset(),
    ensures
        spec_occurrences(request.spec_path(), request.spec_identifier()->0) == 1,
{
    law_identifier_spliced_in(request);
    lemma_single_occurrence(
        request.spec_path(),
        request.spec_identifier()->0,
        request.spec_identifier_offset(),
        request.spec_path().len() + 1,
    );
}

/// The path of an addressed resource holds no doubled separator exactly when
/// the identifier is tidy.
pub proof fn law_separators_not_doubled(request: OpenAIRequest)
    requires
        request.spec_identifier() is Some,
    ensures
        !spec_doubled(request.spec_path(), '/') <==> spec_tidy_identifier(
            request.spec_identifier()->0,
            request.spec_suffix().len() > 0,
        ),
{
    let collection = request.spec_collection();
    let identifier = request.spec_identifier()->0;
    let suffix = request.spec_suffix();
    lemma_fixed_pieces(request);
    lemma_doubled_concat(collection, "/"@, '/');
    lemma_doubled_concat(collection + "/"@, identifier, '/');
    lemma_doubled_concat(collection + "/"@ + identifier, suffix, '/');
}

/// The path of every operation is non-empty.
pub proof fn law_path_is_not_empty(request: OpenAIRequest)
    requires
        !(request is Empty),
    ensures
        request.spec_path().len() > 0,
{
    reveal_strlit("/v1/audio/translations");
    reveal_strlit("/v1/audio/transcriptions");
    reveal_strlit("/v1/completions");
    reveal_strlit("/v1/files");
    reveal_strlit("/v1/fine-tunes");
    reveal_strlit("/v1/models");
}

} // verus!
