//! Encoding: the body that each request is sent with.
//!
//! A request that carries a file goes out as a multipart form with the
//! content of the file and one text part for every other field that is set.
//! Every other request goes out as the JSON object of its fields. A field
//! that is absent leaves no trace in either.

use vstd::prelude::*;

use crate::openai::body::{
    count_value, object_of, push_file_part, push_member, push_optional_member,
    push_optional_part, push_text_part, spec_count_value, spec_optional_member,
    spec_optional_part, spec_parts, spec_text_value, spec_texts_value, text_value, texts_value,
    Attachment, Body, BodyView, MultipartForm, Part, PartView,
};
use crate::openai::failure::Failure;
use crate::openai::json::{spec_named_documents, Json, JsonView, Member};
use crate::openai::request::{
    OpenAIAudioTranscriptionRequest, OpenAIAudioTranslationRequest, OpenAICompletionsRequest,
    OpenAIFileUploadRequest, OpenAIFineTuneCreateRequest, OpenAIRequest,
};
use crate::openai::text::{decimal_text, signed_decimal_text, spec_decimal, spec_signed_decimal};

verus! {

/// The JSON object with no members.
pub open spec fn spec_empty_object() -> JsonView {
    JsonView::Object(Seq::empty())
}

/// The JSON object whose one member is a text.
pub open spec fn spec_text_object(name: Seq<char>, text: Seq<char>) -> JsonView {
    JsonView::Object(seq![(name, JsonView::Text(text))])
}

/// The JSON object with no members.
fn empty_object() -> (document: Json)
    ensures
        document@ == spec_empty_object(),
{
    let members: Vec<Member> = Vec::new();
    assert(spec_named_documents(members@) =~= Seq::empty());
    object_of(members)
}

/// The JSON object whose one member is a text.
fn text_object(name: &str, text: &String) -> (document: Json)
    ensures
        document@ == spec_text_object(name@, text@),
{
    let mut members: Vec<Member> = Vec::new();
    assert(spec_named_documents(members@) =~= Seq::empty());
    push_member(&mut members, name, Json::Text(text.clone()));
    assert(spec_named_documents(members@) =~= seq![(name@, JsonView::Text(text@))]);
    object_of(members)
}

impl OpenAICompletionsRequest {
    /// The members of the JSON object of the request: the fields that are
    /// always there, then those of the optional fields that are set.
    pub open spec fn spec_members(&self) -> Seq<(Seq<char>, JsonView)> {
        seq![
            ("model"@, JsonView::Text(self.model@)),
            ("prompt"@, JsonView::Text(self.prompt@)),
            ("max_tokens"@, JsonView::Number(spec_decimal(self.max_tokens as nat))),
            ("temperature"@, JsonView::Number(self.temperature@)),
            ("user"@, JsonView::Text(self.user@)),
            ("best_of"@, JsonView::Number(spec_decimal(self.best_of as nat))),
            ("frequency_penalty"@, JsonView::Number(self.frequency_penalty@)),
            ("presence_penalty"@, JsonView::Number(self.presence_penalty@)),
            ("echo"@, JsonView::Bool(self.echo)),
            ("stream"@, JsonView::Bool(self.stream)),
            ("n"@, JsonView::Number(spec_decimal(self.n as nat))),
            ("top_p"@, JsonView::Number(self.top_p@)),
        ] + spec_optional_member("logit_bias"@, spec_text_value(self.logit_bias))
            + spec_optional_member("stop"@, spec_texts_value(self.stop)) + spec_optional_member(
            "logprobs"@,
            spec_count_value(self.logprobs),
        ) + spec_optional_member("suffix"@, spec_text_value(self.suffix))
    }

    /// The JSON object of the request.
    pub fn document(&self) -> (document: Json)
        ensures
            document@ == JsonView::Object(self.spec_members()),
    {
        let mut members: Vec<Member> = Vec::new();
        assert(spec_named_documents(members@) =~= Seq::empty());
        push_member(&mut members, "model", Json::Text(self.model.clone()));
        push_member(&mut members, "prompt", Json::Text(self.prompt.clone()));
        push_member(&mut members, "max_tokens", Json::Number(decimal_text(self.max_tokens as u64)));
        push_member(&mut members, "temperature", Json::Number(self.temperature.clone()));
        push_member(&mut members, "user", Json::Text(self.user.clone()));
        push_member(&mut members, "best_of", Json::Number(decimal_text(self.best_of as u64)));
        push_member(
            &mut members,
            "frequency_penalty",
            Json::Number(self.frequency_penalty.clone()),
        );
        push_member(&mut members, "presence_penalty", Json::Number(self.presence_penalty.clone()));
        push_member(&mut members, "echo", Json::Bool(self.echo));
        push_member(&mut members, "stream", Json::Bool(self.stream));
        push_member(&mut members, "n", Json::Number(decimal_text(self.n as u64)));
        push_member(&mut members, "top_p", Json::Number(self.top_p.clone()));
        assert(spec_named_documents(members@) =~= seq![
            ("model"@, JsonView::Text(self.model@)),
            ("prompt"@, JsonView::Text(self.prompt@)),
            ("max_tokens"@, JsonView::Number(spec_decimal(self.max_tokens as nat))),
            ("temperature"@, JsonView::Number(self.temperature@)),
            ("user"@, JsonView::Text(self.user@)),
            ("best_of"@, JsonView::Number(spec_decimal(self.best_of as nat))),
            ("frequency_penalty"@, JsonView::Number(self.frequency_penalty@)),
            ("presence_penalty"@, JsonView::Number(self.presence_penalty@)),
            ("echo"@, JsonView::Bool(self.echo)),
            ("stream"@, JsonView::Bool(self.stream)),
            ("n"@, JsonView::Number(spec_decimal(self.n as nat))),
            ("top_p"@, JsonView::Number(self.top_p@)),
        ]);
        push_optional_member(&mut members, "logit_bias", text_value(&self.logit_bias));
        push_optional_member(&mut members, "stop", texts_value(&self.stop));
        push_optional_member(&mut members, "logprobs", count_value(&self.logprobs));
        push_optional_member(&mut members, "suffix", text_value(&self.suffix));
        object_of(members)
    }
}

impl OpenAIFineTuneCreateRequest {
    /// The members of the JSON object of the request: the fields that are
    /// always there, then those of the optional fields that are set.
    pub open spec fn spec_members(&self) -> Seq<(Seq<char>, JsonView)> {
        seq![
            ("training_file"@, JsonView::Text(self.training_file@)),
            ("model"@, JsonView::Text(self.model@)),
            ("n_epochs"@, JsonView::Number(spec_signed_decimal(self.n_epochs as int))),
            ("prompt_loss_weight"@, JsonView::Number(self.prompt_loss_weight@)),
            ("compute_classification_metrics"@, JsonView::Bool(self.compute_classification_metrics)),
        ] + spec_optional_member("validation_file"@, spec_text_value(self.validation_file))
            + spec_optional_member("batch_size"@, spec_count_value(self.batch_size))
            + spec_optional_member(
            "classification_n_classes"@,
            spec_count_value(self.classification_n_classes),
        ) + spec_optional_member(
            "classification_positive_class"@,
            spec_text_value(self.classification_positive_class),
        ) + spec_optional_member(
            "classification_betas"@,
            spec_texts_value(self.classification_betas),
        ) + spec_optional_member("suffix"@, spec_text_value(self.suffix))
    }

    /// The JSON object of the request.
    pub fn document(&self) -> (document: Json)
        ensures
            document@ == JsonView::Object(self.spec_members()),
    {
        let mut members: Vec<Member> = Vec::new();
        assert(spec_named_documents(members@) =~= Seq::empty());
        push_member(&mut members, "training_file", Json::Text(self.training_file.clone()));
        push_member(&mut members, "model", Json::Text(self.model.clone()));
        push_member(
            &mut members,
            "n_epochs",
            Json::Number(signed_decimal_text(self.n_epochs as i64)),
        );
        push_member(
            &mut members,
            "prompt_loss_weight",
            Json::Number(self.prompt_loss_weight.clone()),
        );
        push_member(
            &mut members,
            "compute_classification_metrics",
            Json::Bool(self.compute_classification_metrics),
        );
        assert(spec_named_documents(members@) =~= seq![
            ("training_file"@, JsonView::Text(self.training_file@)),
            ("model"@, JsonView::Text(self.model@)),
            ("n_epochs"@, JsonView::Number(spec_signed_decimal(self.n_epochs as int))),
            ("prompt_loss_weight"@, JsonView::Number(self.prompt_loss_weight@)),
            ("compute_classification_metrics"@, JsonView::Bool(self.compute_classification_metrics)),
        ]);
        push_optional_member(&mut members, "validation_file", text_value(&self.validation_file));
        push_optional_member(&mut members, "batch_size", count_value(&self.batch_size));
        push_optional_member(
            &mut members,
            "classification_n_classes",
            count_value(&self.classification_n_classes),
        );
        push_optional_member(
            &mut members,
            "classification_positive_class",
            text_value(&self.classification_positive_class),
        );
        push_optional_member(
            &mut members,
            "classification_betas",
            texts_value(&self.classification_betas),
        );
        push_optional_member(&mut members, "suffix", text_value(&self.suffix));
        object_of(members)
    }
}

/// The binary part that carries a file.
pub open spec fn spec_file_part(file_name: Seq<char>, bytes: Seq<u8>) -> PartView {
    PartView::File { name: "file"@, file_name, bytes }
}

impl OpenAIFileUploadRequest {
    /// The parts of the form of the request around a file.
    pub open spec fn spec_parts(&self, file_name: Seq<char>, bytes: Seq<u8>) -> Seq<PartView> {
        seq![
            spec_file_part(file_name, bytes),
            PartView::Text { name: "purpose"@, value: self.purpose@ },
        ]
    }

    /// The form of the request around the content of its file.
    pub fn form(&self, attachment: Attachment) -> (form: MultipartForm)
        ensures
            form@ == self.spec_parts(attachment.file_name@, attachment.bytes@),
    {
        let mut parts: Vec<Part> = Vec::new();
        assert(spec_parts(parts@) =~= Seq::empty());
        push_file_part(&mut parts, "file", attachment);
        push_text_part(&mut parts, "purpose", &self.purpose);
        assert(spec_parts(parts@) =~= self.spec_parts(attachment.file_name@, attachment.bytes@));
        MultipartForm { parts }
    }
}

impl OpenAIAudioTranslationRequest {
    /// The parts of the form of the request around a file.
    pub open spec fn spec_parts(&self, file_name: Seq<char>, bytes: Seq<u8>) -> Seq<PartView> {
        seq![
            spec_file_part(file_name, bytes),
            PartView::Text { name: "model"@, value: self.model@ },
            PartView::Text { name: "response_format"@, value: self.response_format@ },
            PartView::Text { name: "temperature"@, value: self.temperature@ },
        ] + spec_optional_part("prompt"@, self.prompt)
    }

    /// The form of the request around the content of its file.
    pub fn form(&self, attachment: Attachment) -> (form: MultipartForm)
        ensures
            form@ == self.spec_parts(attachment.file_name@, attachment.bytes@),
    {
        let mut parts: Vec<Part> = Vec::new();
        assert(spec_parts(parts@) =~= Seq::empty());
        push_file_part(&mut parts, "file", attachment);
        push_text_part(&mut parts, "model", &self.model);
        push_text_part(&mut parts, "response_format", &self.response_format);
        push_text_part(&mut parts, "temperature", &self.temperature);
        assert(spec_parts(parts@) =~= seq![
            spec_file_part(attachment.file_name@, attachment.bytes@),
            PartView::Text { name: "model"@, value: self.model@ },
            PartView::Text { name: "response_format"@, value: self.response_format@ },
            PartView::Text { name: "temperature"@, value: self.temperature@ },
        ]);
        push_optional_part(&mut parts, "prompt", &self.prompt);
        MultipartForm { parts }
    }
}

impl OpenAIAudioTranscriptionRequest {
    /// The parts of the form of the request around a file.
    pub open spec fn spec_parts(&self, file_name: Seq<char>, bytes: Seq<u8>) -> Seq<PartView> {
        seq![
            spec_file_part(file_name, bytes),
            PartView::Text { name: "model"@, value: self.model@ },
            PartView::Text { name: "response_format"@, value: self.response_format@ },
            PartView::Text { name: "temperature"@, value: self.temperature@ },
        ] + spec_optional_part("prompt"@, self.prompt) + spec_optional_part(
            "language"@,
            self.language,
        )
    }

    /// The form of the request around the content of its file.
    pub fn form(&self, attachment: Attachment) -> (form: MultipartForm)
        ensures
            form@ == self.spec_parts(attachment.file_name@, attachment.bytes@),
    {
        let mut parts: Vec<Part> = Vec::new();
        assert(spec_parts(parts@) =~= Seq::empty());
        push_file_part(&mut parts, "file", attachment);
        push_text_part(&mut parts, "model", &self.model);
        push_text_part(&mut parts, "response_format", &self.response_format);
        push_text_part(&mut parts, "temperature", &self.temperature);
        assert(spec_parts(parts@) =~= seq![
            spec_file_part(attachment.file_name@, attachment.bytes@),
            PartView::Text { name: "model"@, value: self.model@ },
            PartView::Text { name: "response_format"@, value: self.response_format@ },
            PartView::Text { name: "temperature"@, value: self.temperature@ },
        ]);
        push_optional_part(&mut parts, "prompt", &self.prompt);
        push_optional_part(&mut parts, "language", &self.language);
        MultipartForm { parts }
    }
}

impl OpenAIRequest {
    /// The path of the local file that the request carries, for the
    /// requests that carry one.
    pub open spec fn spec_file(&self) -> Option<Seq<char>> {
        match self {
            OpenAIRequest::OpenAIAudioTranslationRequest(request) => Some(request.file@),
            OpenAIRequest::OpenAIAudioTranscriptionRequest(request) => Some(request.file@),
            OpenAIRequest::OpenAIFileUploadRequest(request) => Some(request.file@),
            _ => None,
        }
    }

    /// The JSON object of a request that carries no file: the fields of the
    /// request under their own names.
    pub open spec fn spec_document(&self) -> JsonView {
        match self {
            OpenAIRequest::OpenAICompletionsRequest(request) => JsonView::Object(
                request.spec_members(),
            ),
            OpenAIRequest::OpenAIFileDeleteRequest(request) => spec_text_object(
                "filename"@,
                request.filename@,
            ),
            OpenAIRequest::OpenAIFineTuneCreateRequest(request) => JsonView::Object(
                request.spec_members(),
            ),
            OpenAIRequest::OpenAIFineTuneCancelRequest(request) => spec_text_object(
                "fine_tune_id"@,
                request.fine_tune_id@,
            ),
            OpenAIRequest::OpenAIFineTuneDetailRequest(request) => spec_text_object(
                "fine_tune_id"@,
                request.fine_tune_id@,
            ),
            OpenAIRequest::OpenAIFineTuneEventsRequest(request) => spec_text_object(
                "fine_tune_id"@,
                request.fine_tune_id@,
            ),
            OpenAIRequest::OpenAIModelDeleteRequest(request) => spec_text_object(
                "model_name"@,
                request.model_name@,
            ),
            _ => spec_empty_object(),
        }
    }

    /// The parts of the form of a request that carries a file, around the
    /// content of that file.
    pub open spec fn spec_form(&self, file_name: Seq<char>, bytes: Seq<u8>) -> Seq<PartView> {
        match self {
            OpenAIRequest::OpenAIAudioTranslationRequest(request) => request.spec_parts(
                file_name,
                bytes,
            ),
            OpenAIRequest::OpenAIAudioTranscriptionRequest(request) => request.spec_parts(
                file_name,
                bytes,
            ),
            OpenAIRequest::OpenAIFileUploadRequest(request) => request.spec_parts(file_name, bytes),
            _ => Seq::empty(),
        }
    }

    /// The body of the request. A request that carries a file is encoded
    /// around the attachment and cannot be encoded without one; any other
    /// request is encoded as its JSON object, whatever is attached. The
    /// empty request has no body.
    pub open spec fn spec_body(&self, attachment: Option<Attachment>) -> Result<BodyView, Failure> {
        if self is Empty {
            Err(Failure::Configuration)
        } else if self.spec_file() is Some {
            match attachment {
                Some(file) => Ok(BodyView::Multipart(self.spec_form(file.file_name@, file.bytes@))),
                None => Err(Failure::LocalIo),
            }
        } else {
            Ok(BodyView::Json(self.spec_document()))
        }
    }

    /// The path of the local file that the request carries.
    pub fn file(&self) -> (path: Option<&String>)
        ensures
            path matches Some(p) ==> self.spec_file() == Some(p@),
            path is None ==> self.spec_file() is None,
    {
        match self {
            OpenAIRequest::OpenAIAudioTranslationRequest(request) => Some(&request.file),
            OpenAIRequest::OpenAIAudioTranscriptionRequest(request) => Some(&request.file),
            OpenAIRequest::OpenAIFileUploadRequest(request) => Some(&request.file),
            _ => None,
        }
    }

    /// Encodes the body of the request.
    pub fn encode(&self, attachment: Option<Attachment>) -> (result: Result<Body, Failure>)
        ensures
            match self.spec_body(attachment) {
                Ok(expected) => result matches Ok(body) && body@ == expected,
                Err(failure) => result == Err::<Body, Failure>(failure),
            },
    {
        match self {
            OpenAIRequest::Empty => Err(Failure::Configuration),
            OpenAIRequest::OpenAIAudioTranslationRequest(request) => match attachment {
                Some(file) => Ok(Body::Multipart(request.form(file))),
                None => Err(Failure::LocalIo),
            },
            OpenAIRequest::OpenAIAudioTranscriptionRequest(request) => match attachment {
                Some(file) => Ok(Body::Multipart(request.form(file))),
                None => Err(Failure::LocalIo),
            },
            OpenAIRequest::OpenAIFileUploadRequest(request) => match attachment {
                Some(file) => Ok(Body::Multipart(request.form(file))),
                None => Err(Failure::LocalIo),
            },
            OpenAIRequest::OpenAICompletionsRequest(request) => Ok(Body::Json(request.document())),
            OpenAIRequest::OpenAIFineTuneCreateRequest(request) => Ok(
                Body::Json(request.document()),
            ),
            OpenAIRequest::OpenAIFileDeleteRequest(request) => Ok(
                Body::Json(text_object("filename", &request.filename)),
            ),
            OpenAIRequest::OpenAIFineTuneCancelRequest(request) => Ok(
                Body::Json(text_object("fine_tune_id", &request.fine_tune_id)),
            ),
            OpenAIRequest::OpenAIFineTuneDetailRequest(request) => Ok(
                Body::Json(text_object("fine_tune_id", &request.fine_tune_id)),
            ),
            OpenAIRequest::OpenAIFineTuneEventsRequest(request) => Ok(
                Body::Json(text_object("fine_tune_id", &request.fine_tune_id)),
            ),
            OpenAIRequest::OpenAIModelDeleteRequest(request) => Ok(
                Body::Json(text_object("model_name", &request.model_name)),
            ),
            OpenAIRequest::OpenAIFilesRequest(_) => Ok(Body::Json(empty_object())),
            OpenAIRequest::OpenAIFineTunesRequest(_) => Ok(Body::Json(empty_object())),
            OpenAIRequest::OpenAIModelsRequest(_) => Ok(Body::Json(empty_object())),
        }
    }
}

/// Whether `parts` hold exactly one binary part, and that part is `file`.
pub open spec fn spec_carries_one_file(parts: Seq<PartView>, file: PartView) -> bool {
    exists|i: int|
        0 <= i < parts.len() && #[trigger] parts[i] == file && forall|j: int|
            0 <= j < parts.len() && (#[trigger] parts[j]) is File ==> j == i
}

impl OpenAIRequest {
    /// The names of the optional fields of the request that are absent.
    pub open spec fn spec_absent(&self) -> Set<Seq<char>> {
        match self {
            OpenAIRequest::OpenAIAudioTranslationRequest(request) => Set::new(
                |name: Seq<char>| name == "prompt"@ && request.prompt is None,
            ),
            OpenAIRequest::OpenAIAudioTranscriptionRequest(request) => Set::new(
                |name: Seq<char>|
                    {
                        ||| name == "prompt"@ && request.prompt is None
                        ||| name == "language"@ && request.language is None
                    },
            ),
            OpenAIRequest::OpenAICompletionsRequest(request) => Set::new(
                |name: Seq<char>|
                    {
                        ||| name == "logit_bias"@ && request.logit_bias is None
                        ||| name == "stop"@ && request.stop is None
                        ||| name == "logprobs"@ && request.logprobs is None
                        ||| name == "suffix"@ && request.suffix is None
                    },
            ),
            OpenAIRequest::OpenAIFineTuneCreateRequest(request) => Set::new(
                |name: Seq<char>|
                    {
                        ||| name == "validation_file"@ && request.validation_file is None
                        ||| name == "batch_size"@ && request.batch_size is None
                        ||| name == "classification_n_classes"@
                            && request.classification_n_classes is None
                        ||| name == "classification_positive_class"@
                            && request.classification_positive_class is None
                        ||| name == "classification_betas"@
                            && request.classification_betas is None
                        ||| name == "suffix"@ && request.suffix is None
                    },
            ),
            _ => Set::empty(),
        }
    }
}

/// Whether no member of `members` is called `name`.
spec fn spec_no_member(members: Seq<(Seq<char>, JsonView)>, name: Seq<char>) -> bool {
    forall|i: int| 0 <= i < members.len() ==> (#[trigger] members[i]).0 != name
}

/// Whether no part of `parts` is called `name`.
spec fn spec_no_part(parts: Seq<PartView>, name: Seq<char>) -> bool {
    forall|i: int| 0 <= i < parts.len() ==> (#[trigger] parts[i]).spec_name() != name
}

/// Members that are not called `name` on either side of a seam are not
/// called `name` after the two sides are joined.
proof fn lemma_no_member_concat(
    first: Seq<(Seq<char>, JsonView)>,
    second: Seq<(Seq<char>, JsonView)>,
    name: Seq<char>,
)
    requires
        spec_no_member(first, name),
        spec_no_member(second, name),
    ensures
        spec_no_member(first + second, name),
{
    let whole = first + second;
    assert forall|i: int| 0 <= i < whole.len() implies (#[trigger] whole[i]).0 != name by {
        if i < first.len() {
            assert(whole[i] == first[i]);
        } else {
            assert(whole[i] == second[i - first.len()]);
        }
    }
}

/// The same for the parts of a form.
proof fn lemma_no_part_concat(first: Seq<PartView>, second: Seq<PartView>, name: Seq<char>)
    requires
        spec_no_part(first, name),
        spec_no_part(second, name),
    ensures
        spec_no_part(first + second, name),
{
    let whole = first + second;
    assert forall|i: int| 0 <= i < whole.len() implies (#[trigger] whole[i]).spec_name()
        != name by {
        if i < first.len() {
            assert(whole[i] == first[i]);
        } else {
            assert(whole[i] == second[i - first.len()]);
        }
    }
}

/// The names of the fields of the requests are distinct texts.
proof fn lemma_field_names()
    ensures
        "file"@.len() == 4,
        "purpose"@.len() == 7,
        "model"@.len() == 5,
        "response_format"@.len() == 15,
        "temperature"@.len() == 11,
        "prompt"@.len() == 6,
        "language"@.len() == 8,
        "max_tokens"@.len() == 10,
        "user"@.len() == 4,
        "best_of"@.len() == 7,
        "frequency_penalty"@.len() == 17,
        "presence_penalty"@.len() == 16,
        "echo"@.len() == 4,
        "stream"@.len() == 6,
        "n"@.len() == 1,
        "top_p"@.len() == 5,
        "logit_bias"@.len() == 10,
        "stop"@.len() == 4,
        "logprobs"@.len() == 8,
        "suffix"@.len() == 6,
        "training_file"@.len() == 13,
        "n_epochs"@.len() == 8,
        "prompt_loss_weight"@.len() == 18,
        "compute_classification_metrics"@.len() == 30,
        "validation_file"@.len() == 15,
        "batch_size"@.len() == 10,
        "classification_n_classes"@.len() == 24,
        "classification_positive_class"@.len() == 29,
        "classification_betas"@.len() == 20,
        "logit_bias"@[0] == 'l',
        "max_tokens"@[0] == 'm',
        "stop"@[0] == 's',
        "user"@[0] == 'u',
        "echo"@[0] == 'e',
        "suffix"@[1] == 'u',
        "prompt"@[1] == 'r',
        "stream"@[1] == 't',
        "logprobs"@[0] == 'l',
        "n_epochs"@[0] == 'n',
{
    reveal_strlit("file");
    reveal_strlit("purpose");
    reveal_strlit("model");
    reveal_strlit("response_format");
    reveal_strlit("temperature");
    reveal_strlit("prompt");
    reveal_strlit("language");
    reveal_strlit("max_tokens");
    reveal_strlit("user");
    reveal_strlit("best_of");
    reveal_strlit("frequency_penalty");
    reveal_strlit("presence_penalty");
    reveal_strlit("echo");
    reveal_strlit("stream");
    reveal_strlit("n");
    reveal_strlit("top_p");
    reveal_strlit("logit_bias");
    reveal_strlit("stop");
    reveal_strlit("logprobs");
    reveal_strlit("suffix");
    reveal_strlit("training_file");
    reveal_strlit("n_epochs");
    reveal_strlit("prompt_loss_weight");
    reveal_strlit("compute_classification_metrics");
    reveal_strlit("validation_file");
    reveal_strlit("batch_size");
    reveal_strlit("classification_n_classes");
    reveal_strlit("classification_positive_class");
    reveal_strlit("classification_betas");
}

/// A request goes out as a multipart form exactly when it carries a file,
/// and the form then holds exactly one binary part: the content of the
/// attached file under the name of that file.
pub proof fn law_multipart_exactly_for_files(request: OpenAIRequest, attachment: Option<Attachment>)
    requires
        request.spec_body(attachment) is Ok,
    ensures
        request.spec_body(attachment)->Ok_0 is Multipart <==> request.spec_file() is Some,
        request.spec_body(attachment)->Ok_0 matches BodyView::Multipart(parts)
            ==> spec_carries_one_file(
            parts,
            spec_file_part(attachment->0.file_name@, attachment->0.bytes@),
        ),
{
    if request.spec_file() is Some {
        let file = attachment->0;
        let parts = request.spec_form(file.file_name@, file.bytes@);
        let expected = spec_file_part(file.file_name@, file.bytes@);
        assert(parts[0] == expected);
        assert forall|j: int| 0 <= j < parts.len() && (#[trigger] parts[j]) is File implies j
            == 0 by {
            match request {
                OpenAIRequest::OpenAIAudioTranslationRequest(r) => {
                    let fixed = parts.subrange(0, 4);
                    let prompt = spec_optional_part("prompt"@, r.prompt);
                    assert(parts =~= fixed + prompt);
                    if j >= 4 {
                        assert(parts[j] == prompt[j - 4]);
                    }
                },
                OpenAIRequest::OpenAIAudioTranscriptionRequest(r) => {
                    let prompt = spec_optional_part("prompt"@, r.prompt);
                    let language = spec_optional_part("language"@, r.language);
                    if j >= 4 + prompt.len() {
                        assert(parts[j] == language[j - 4 - prompt.len()]);
                    } else if j >= 4 {
                        assert(parts[j] == prompt[j - 4]);
                    }
                },
                _ => {},
            }
        }
    }
}

/// The law of absent fields, for a completion request.
proof fn lemma_absent_completions(r: OpenAICompletionsRequest, name: Seq<char>)
    requires
        OpenAIRequest::OpenAICompletionsRequest(r).spec_absent().contains(name),
    ensures
        spec_no_member(r.spec_members(), name),
{
    lemma_field_names();
    let fixed = r.spec_members().subrange(0, 12);
    let logit_bias = spec_optional_member("logit_bias"@, spec_text_value(r.logit_bias));
    let stop = spec_optional_member("stop"@, spec_texts_value(r.stop));
    let logprobs = spec_optional_member("logprobs"@, spec_count_value(r.logprobs));
    let suffix = spec_optional_member("suffix"@, spec_text_value(r.suffix));
    assert(r.spec_members() =~= fixed + logit_bias + stop + logprobs + suffix);
    assert(fixed.len() == 12);
    assert(fixed[0].0 == "model"@);
    assert(fixed[1].0 == "prompt"@);
    assert(fixed[2].0 == "max_tokens"@);
    assert(fixed[3].0 == "temperature"@);
    assert(fixed[4].0 == "user"@);
    assert(fixed[5].0 == "best_of"@);
    assert(fixed[6].0 == "frequency_penalty"@);
    assert(fixed[7].0 == "presence_penalty"@);
    assert(fixed[8].0 == "echo"@);
    assert(fixed[9].0 == "stream"@);
    assert(fixed[10].0 == "n"@);
    assert(fixed[11].0 == "top_p"@);
    assert(spec_no_member(fixed, name));
    assert(spec_no_member(logit_bias, name));
    assert(spec_no_member(stop, name));
    assert(spec_no_member(logprobs, name));
    assert(spec_no_member(suffix, name));
    lemma_no_member_concat(fixed, logit_bias, name);
    lemma_no_member_concat(fixed + logit_bias, stop, name);
    lemma_no_member_concat(fixed + logit_bias + stop, logprobs, name);
    lemma_no_member_concat(fixed + logit_bias + stop + logprobs, suffix, name);
}

/// The law of absent fields, for the start of a fine-tune job.
proof fn lemma_absent_fine_tune(r: OpenAIFineTuneCreateRequest, name: Seq<char>)
    requires
        OpenAIRequest::OpenAIFineTuneCreateRequest(r).spec_absent().contains(name),
    ensures
        spec_no_member(r.spec_members(), name),
{
    lemma_field_names();
    let fixed = r.spec_members().subrange(0, 5);
    let validation_file = spec_optional_member(
        "validation_file"@,
        spec_text_value(r.validation_file),
    );
    let batch_size = spec_optional_member("batch_size"@, spec_count_value(r.batch_size));
    let classes = spec_optional_member(
        "classification_n_classes"@,
        spec_count_value(r.classification_n_classes),
    );
    let positive = spec_optional_member(
        "classification_positive_class"@,
        spec_text_value(r.classification_positive_class),
    );
    let betas = spec_optional_member(
        "classification_betas"@,
        spec_texts_value(r.classification_betas),
    );
    let suffix = spec_optional_member("suffix"@, spec_text_value(r.suffix));
    assert(r.spec_members() =~= fixed + validation_file + batch_size + classes + positive + betas
        + suffix);
    assert(fixed.len() == 5);
    assert(fixed[0].0 == "training_file"@);
    assert(fixed[1].0 == "model"@);
    assert(fixed[2].0 == "n_epochs"@);
    assert(fixed[3].0 == "prompt_loss_weight"@);
    assert(fixed[4].0 == "compute_classification_metrics"@);
    assert(spec_no_member(fixed, name));
    assert(spec_no_member(validation_file, name));
    assert(spec_no_member(batch_size, name));
    assert(spec_no_member(classes, name));
    assert(spec_no_member(positive, name));
    assert(spec_no_member(betas, name));
    assert(spec_no_member(suffix, name));
    lemma_no_member_concat(fixed, validation_file, name);
    lemma_no_member_concat(fixed + validation_file, batch_size, name);
    lemma_no_member_concat(fixed + validation_file + batch_size, classes, name);
    lemma_no_member_concat(fixed + validation_file + batch_size + classes, positive, name);
    lemma_no_member_concat(
        fixed + validation_file + batch_size + classes + positive,
        betas,
        name,
    );
    lemma_no_member_concat(
        fixed + validation_file + batch_size + classes + positive + betas,
        suffix,
        name,
    );
}

/// The law of absent fields, for the requests on audio files.
proof fn lemma_absent_audio(
    parts: Seq<PartView>,
    prompt: Option<String>,
    language: Option<String>,
    name: Seq<char>,
)
    requires
        parts.len() >= 4,
        parts[0].spec_name() == "file"@,
        parts[1].spec_name() == "model"@,
        parts[2].spec_name() == "response_format"@,
        parts[3].spec_name() == "temperature"@,
        parts == parts.subrange(0, 4) + spec_optional_part("prompt"@, prompt)
            + spec_optional_part("language"@, language),
        (name == "prompt"@ && prompt is None) || (name == "language"@ && language is None),
    ensures
        spec_no_part(parts, name),
{
    lemma_field_names();
    let fixed = parts.subrange(0, 4);
    let first = spec_optional_part("prompt"@, prompt);
    let second = spec_optional_part("language"@, language);
    assert(fixed[0] == parts[0]);
    assert(fixed[1] == parts[1]);
    assert(fixed[2] == parts[2]);
    assert(fixed[3] == parts[3]);
    assert(spec_no_part(fixed, name));
    assert(spec_no_part(first, name));
    assert(spec_no_part(second, name));
    lemma_no_part_concat(fixed, first, name);
    lemma_no_part_concat(fixed + first, second, name);
}

/// An optional field that is absent from a request appears neither as a
/// member of its JSON object nor as a part of its form.
pub proof fn law_absent_fields_leave_no_trace(
    request: OpenAIRequest,
    attachment: Option<Attachment>,
    name: Seq<char>,
)
    requires
        request.spec_body(attachment) is Ok,
        request.spec_absent().contains(name),
    ensures
        !request.spec_body(attachment)->Ok_0.spec_names().contains(name),
{
    let names = request.spec_body(attachment)->Ok_0.spec_names();
    match request {
        OpenAIRequest::OpenAICompletionsRequest(r) => {
            lemma_absent_completions(r, name);
            assert forall|i: int| 0 <= i < names.len() implies names[i] != name by {
                assert(names[i] == r.spec_members()[i].0);
            }
        },
        OpenAIRequest::OpenAIFineTuneCreateRequest(r) => {
            lemma_absent_fine_tune(r, name);
            assert forall|i: int| 0 <= i < names.len() implies names[i] != name by {
                assert(names[i] == r.spec_members()[i].0);
            }
        },
        OpenAIRequest::OpenAIAudioTranslationRequest(r) => {
            let file = attachment->0;
            let parts = r.spec_parts(file.file_name@, file.bytes@);
            assert(parts =~= parts.subrange(0, 4) + spec_optional_part("prompt"@, r.prompt)
                + spec_optional_part("language"@, None));
            lemma_absent_audio(parts, r.prompt, None, name);
            assert forall|i: int| 0 <= i < names.len() implies names[i] != name by {
                assert(names[i] == parts[i].spec_name());
            }
        },
        OpenAIRequest::OpenAIAudioTranscriptionRequest(r) => {
            let file = attachment->0;
            let parts = r.spec_parts(file.file_name@, file.bytes@);
            assert(parts =~= parts.subrange(0, 4) + spec_optional_part("prompt"@, r.prompt)
                + spec_optional_part("language"@, r.language));
            lemma_absent_audio(parts, r.prompt, r.language, name);
            assert forall|i: int| 0 <= i < names.len() implies names[i] != name by {
                assert(names[i] == parts[i].spec_name());
            }
        },
        _ => {},
    }
}

} // verus!
