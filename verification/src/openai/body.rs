//! The body of a call: a JSON document, or a multipart form that carries a
//! file next to its text fields.

use vstd::prelude::*;

use crate::openai::json::{
    lemma_array_view, lemma_object_view, spec_documents, spec_named_documents, Json, JsonView,
    Member,
};

verus! {

/// One part of a multipart form.
#[derive(Debug, Clone, PartialEq, Eq)]
pub enum Part {
    /// A text field.
    Text {
        /// The name of the field.
        name: String,
        /// The text of the field.
        value: String,
    },
    /// A binary part that carries the content of a file.
    File {
        /// The name of the field.
        name: String,
        /// The name of the file that the content was read from.
        file_name: String,
        /// The content of the file.
        bytes: Vec<u8>,
    },
}

/// The mathematical value of a [`Part`].
pub enum PartView {
    Text { name: Seq<char>, value: Seq<char> },
    File { name: Seq<char>, file_name: Seq<char>, bytes: Seq<u8> },
}

/// A multipart form: its parts, in the order in which they are sent.
#[derive(Debug, Clone, PartialEq, Eq)]
pub struct MultipartForm {
    pub parts: Vec<Part>,
}

/// The body of a call.
#[derive(Debug, PartialEq, Eq)]
pub enum Body {
    /// A JSON document, sent as `application/json`.
    Json(Json),
    /// A multipart form, sent as `multipart/form-data`.
    Multipart(MultipartForm),
}

/// The mathematical value of a [`Body`].
pub enum BodyView {
    Json(JsonView),
    Multipart(Seq<PartView>),
}

/// The content of a file that was read to be sent, under the name of the file.
#[derive(Debug, Clone, PartialEq, Eq)]
pub struct Attachment {
    /// The name of the file, without the directories that lead to it.
    pub file_name: String,
    /// The content of the file.
    pub bytes: Vec<u8>,
}

impl View for Part {
    type V = PartView;

    open spec fn view(&self) -> PartView {
        match self {
            Part::Text { name, value } => PartView::Text { name: name@, value: value@ },
            Part::File { name, file_name, bytes } => PartView::File {
                name: name@,
                file_name: file_name@,
                bytes: bytes@,
            },
        }
    }
}

impl PartView {
    /// The name of the field that the part fills.
    pub open spec fn spec_name(self) -> Seq<char> {
        match self {
            PartView::Text { name, .. } => name,
            PartView::File { name, .. } => name,
        }
    }
}

/// The views of a run of parts, in order.
pub open spec fn spec_parts(parts: Seq<Part>) -> Seq<PartView> {
    Seq::new(parts.len(), |i: int| parts[i]@)
}

impl View for MultipartForm {
    type V = Seq<PartView>;

    open spec fn view(&self) -> Seq<PartView> {
        spec_parts(self.parts@)
    }
}

impl View for Body {
    type V = BodyView;

    open spec fn view(&self) -> BodyView {
        match self {
            Body::Json(document) => BodyView::Json(document@),
            Body::Multipart(form) => BodyView::Multipart(form@),
        }
    }
}

impl BodyView {
    /// The names under which the body carries its fields: the names of the
    /// members of a JSON object, or the names of the parts of a form.
    pub open spec fn spec_names(self) -> Seq<Seq<char>> {
        match self {
            BodyView::Json(document) => document.spec_names(),
            BodyView::Multipart(parts) => Seq::new(parts.len(), |i: int| parts[i].spec_name()),
        }
    }

    /// The binary parts of the body, in order; a JSON body has none.
    pub open spec fn spec_files(self) -> Seq<PartView> {
        match self {
            BodyView::Json(_) => Seq::empty(),
            BodyView::Multipart(parts) => parts.filter(|part: PartView| part is File),
        }
    }
}

/// The member that an optional field contributes to an object: one member
/// when the field is set, none when it is absent.
pub open spec fn spec_optional_member(name: Seq<char>, value: Option<JsonView>) -> Seq<
    (Seq<char>, JsonView),
> {
    match value {
        Some(document) => seq![(name, document)],
        None => Seq::empty(),
    }
}

/// The text part that an optional field contributes to a form.
pub open spec fn spec_optional_part(name: Seq<char>, value: Option<String>) -> Seq<PartView> {
    match value {
        Some(text) => seq![PartView::Text { name, value: text@ }],
        None => Seq::empty(),
    }
}

/// The JSON string of an optional text.
pub open spec fn spec_text_value(text: Option<String>) -> Option<JsonView> {
    match text {
        Some(t) => Some(JsonView::Text(t@)),
        None => None,
    }
}

/// The JSON number of an optional count.
pub open spec fn spec_count_value(count: Option<u32>) -> Option<JsonView> {
    match count {
        Some(c) => Some(JsonView::Number(crate::openai::text::spec_decimal(c as nat))),
        None => None,
    }
}

/// The JSON array of strings of a run of texts.
pub open spec fn spec_texts(texts: Seq<String>) -> JsonView {
    JsonView::Array(Seq::new(texts.len(), |i: int| JsonView::Text(texts[i]@)))
}

/// The JSON array of strings of an optional run of texts.
pub open spec fn spec_texts_value(texts: Option<Vec<String>>) -> Option<JsonView> {
    match texts {
        Some(t) => Some(spec_texts(t@)),
        None => None,
    }
}

/// Adds a member to the members of an object under construction.
pub fn push_member(members: &mut Vec<Member>, name: &str, value: Json)
    ensures
        spec_named_documents(final(members)@) == spec_named_documents(old(members)@).push(
            (name@, value@),
        ),
{
    members.push(Member { name: String::from_str(name), value });
    assert(spec_named_documents(members@) =~= spec_named_documents(old(members)@).push(
        (name@, value@),
    ));
}

/// Adds the member of an optional field, if the field is set.
pub fn push_optional_member(members: &mut Vec<Member>, name: &str, value: Option<Json>)
    ensures
        spec_named_documents(final(members)@) == spec_named_documents(old(members)@)
            + spec_optional_member(
            name@,
            match value {
                Some(document) => Some(document@),
                None => None,
            },
        ),
{
    match value {
        Some(document) => {
            let ghost before = spec_named_documents(members@);
            push_member(members, name, document);
            assert(before.push((name@, document@)) =~= before + seq![(name@, document@)]);
        },
        None => {
            assert(spec_named_documents(members@) + Seq::<(Seq<char>, JsonView)>::empty()
                =~= spec_named_documents(members@));
        },
    }
}

/// The JSON string of an optional text.
pub fn text_value(text: &Option<String>) -> (value: Option<Json>)
    ensures
        value matches Some(document) ==> spec_text_value(*text) == Some(document@),
        value is None ==> spec_text_value(*text) is None,
{
    match text {
        Some(t) => Some(Json::Text(t.clone())),
        None => None,
    }
}

/// The JSON number of an optional count.
pub fn count_value(count: &Option<u32>) -> (value: Option<Json>)
    ensures
        value matches Some(document) ==> spec_count_value(*count) == Some(document@),
        value is None ==> spec_count_value(*count) is None,
{
    match count {
        Some(c) => Some(Json::Number(crate::openai::text::decimal_text(*c as u64))),
        None => None,
    }
}

/// The JSON array of strings of an optional run of texts.
pub fn texts_value(texts: &Option<Vec<String>>) -> (value: Option<Json>)
    ensures
        value matches Some(document) ==> spec_texts_value(*texts) == Some(document@),
        value is None ==> spec_texts_value(*texts) is None,
{
    match texts {
        Some(list) => {
            let mut items: Vec<Json> = Vec::new();
            let mut i: usize = 0;
            while i < list.len()
                invariant
                    i <= list.len(),
                    items.len() == i,
                    forall|k: int| 0 <= k < i ==> items[k]@ == JsonView::Text(list[k]@),
                decreases list.len() - i,
            {
                items.push(Json::Text(list[i].clone()));
                i = i + 1;
            }
            proof {
                lemma_array_view(items);
                assert(spec_documents(items@) =~= spec_texts(list@)->Array_0);
            }
            Some(Json::Array(items))
        },
        None => None,
    }
}

/// Closes an object under construction.
pub fn object_of(members: Vec<Member>) -> (document: Json)
    ensures
        document@ == JsonView::Object(spec_named_documents(members@)),
{
    proof {
        lemma_object_view(members);
    }
    Json::Object(members)
}

/// Adds a text field to a form under construction.
pub fn push_text_part(parts: &mut Vec<Part>, name: &str, value: &String)
    ensures
        spec_parts(final(parts)@) == spec_parts(old(parts)@).push(
            PartView::Text { name: name@, value: value@ },
        ),
{
    parts.push(Part::Text { name: String::from_str(name), value: value.clone() });
    assert(spec_parts(parts@) =~= spec_parts(old(parts)@).push(
        PartView::Text { name: name@, value: value@ },
    ));
}

/// Adds the text field of an optional field to a form, if the field is set.
pub fn push_optional_part(parts: &mut Vec<Part>, name: &str, value: &Option<String>)
    ensures
        spec_parts(final(parts)@) == spec_parts(old(parts)@) + spec_optional_part(name@, *value),
{
    match value {
        Some(text) => {
            let ghost before = spec_parts(parts@);
            push_text_part(parts, name, text);
            assert(before.push(PartView::Text { name: name@, value: text@ }) =~= before
                + seq![PartView::Text { name: name@, value: text@ }]);
        },
        None => {
            assert(spec_parts(parts@) + Seq::<PartView>::empty() =~= spec_parts(parts@));
        },
    }
}

/// Adds the content of a file to a form under construction.
pub fn push_file_part(parts: &mut Vec<Part>, name: &str, attachment: Attachment)
    ensures
        spec_parts(final(parts)@) == spec_parts(old(parts)@).push(
            PartView::File {
                name: name@,
                file_name: attachment.file_name@,
                bytes: attachment.bytes@,
            },
        ),
{
    parts.push(
        Part::File {
            name: String::from_str(name),
            file_name: attachment.file_name,
            bytes: attachment.bytes,
        },
    );
    assert(spec_parts(parts@) =~= spec_parts(old(parts)@).push(
        PartView::File {
            name: name@,
            file_name: attachment.file_name@,
            bytes: attachment.bytes@,
        },
    ));
}

} // verus!
