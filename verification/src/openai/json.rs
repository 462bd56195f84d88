//! JSON documents: the structured bodies of requests and replies.

use serde_json::Value;
use vstd::prelude::*;

verus! {

/// A JSON document. The members of an object keep the order in which they
/// were added; a number is held as its decimal text.
#[derive(Debug, PartialEq, Eq)]
pub enum Json {
    Null,
    Bool(bool),
    /// A number, as its decimal text.
    Number(String),
    /// A string.
    Text(String),
    /// An array, with its items in order.
    Array(Vec<Json>),
    /// An object, with its members in order.
    Object(Vec<Member>),
}

/// A named member of a JSON object.
#[derive(Debug, PartialEq, Eq)]
pub struct Member {
    pub name: String,
    pub value: Json,
}

/// The mathematical value of a [`Json`] document.
pub enum JsonView {
    Null,
    Bool(bool),
    Number(Seq<char>),
    Text(Seq<char>),
    Array(Seq<JsonView>),
    Object(Seq<(Seq<char>, JsonView)>),
}

impl View for Json {
    type V = JsonView;

    /// The value of the document: an array holds the values of its items
    /// and an object the names and the values of its members, in order.
    /// [`lemma_array_view`] and [`lemma_object_view`] say so in plain form.
    open spec fn view(&self) -> JsonView
        decreases self,
    {
        match self {
            Json::Null => JsonView::Null,
            Json::Bool(flag) => JsonView::Bool(*flag),
            Json::Number(text) => JsonView::Number(text@),
            Json::Text(text) => JsonView::Text(text@),
            Json::Array(items) => JsonView::Array(
                Seq::new(
                    items@.len(),
                    |i: int|
                        if 0 <= i < items@.len() {
                            items@[i].view()
                        } else {
                            JsonView::Null
                        },
                ),
            ),
            Json::Object(members) => JsonView::Object(
                Seq::new(members@.len(), |i: int| members@[i].name@).zip_with(
                    Seq::new(
                        members@.len(),
                        |i: int|
                            if 0 <= i < members@.len() {
                                members@[i].value.view()
                            } else {
                                JsonView::Null
                            },
                    ),
                ),
            ),
        }
    }
}

/// The value of the first member of `members` that is named `name`.
pub open spec fn spec_member(members: Seq<(Seq<char>, JsonView)>, name: Seq<char>) -> Option<
    JsonView,
>
    decreases members.len(),
{
    if members.len() == 0 {
        None
    } else if members[0].0 == name {
        Some(members[0].1)
    } else {
        spec_member(members.drop_first(), name)
    }
}

/// The views of a run of documents, in order.
pub open spec fn spec_documents(items: Seq<Json>) -> Seq<JsonView> {
    Seq::new(items.len(), |i: int| items[i]@)
}

/// The views of a run of named documents, in order.
pub open spec fn spec_named_documents(members: Seq<Member>) -> Seq<(Seq<char>, JsonView)> {
    Seq::new(members.len(), |i: int| (members[i].name@, members[i].value@))
}

impl JsonView {
    /// The member called `name`, when this document is an object that has one.
    pub open spec fn spec_get(self, name: Seq<char>) -> Option<JsonView> {
        match self {
            JsonView::Object(members) => spec_member(members, name),
            _ => None,
        }
    }

    /// The text of the member called `name`, when there is one and it is a string.
    pub open spec fn spec_get_text(self, name: Seq<char>) -> Option<Seq<char>> {
        match self.spec_get(name) {
            Some(JsonView::Text(text)) => Some(text),
            _ => None,
        }
    }

    /// The value of the member called `name`, when there is one and it is a boolean.
    pub open spec fn spec_get_flag(self, name: Seq<char>) -> Option<bool> {
        match self.spec_get(name) {
            Some(JsonView::Bool(flag)) => Some(flag),
            _ => None,
        }
    }

    /// The items of the member called `name`, when there is one and it is an array.
    pub open spec fn spec_get_items(self, name: Seq<char>) -> Option<Seq<JsonView>> {
        match self.spec_get(name) {
            Some(JsonView::Array(items)) => Some(items),
            _ => None,
        }
    }

    /// The names of the members of an object, in order; empty for any other document.
    pub open spec fn spec_names(self) -> Seq<Seq<char>> {
        match self {
            JsonView::Object(members) => Seq::new(members.len(), |i: int| members[i].0),
            _ => Seq::empty(),
        }
    }
}

/// Unfolds the view of an array.
pub proof fn lemma_array_view(items: Vec<Json>)
    ensures
        Json::Array(items)@ == JsonView::Array(spec_documents(items@)),
{
    assert(Json::Array(items)@->Array_0 =~= spec_documents(items@));
}

/// Unfolds the view of an object.
pub proof fn lemma_object_view(members: Vec<Member>)
    ensures
        Json::Object(members)@ == JsonView::Object(spec_named_documents(members@)),
{
    assert(Json::Object(members)@->Object_0 =~= spec_named_documents(members@));
}

/// `serde_json::Value`, the parser's own document type.
#[verifier::external_type_specification]
#[verifier::external_body]
pub struct ExValue(serde_json::Value);

/// The document that a parsed value holds.
pub uninterp spec fn spec_value_document(value: serde_json::Value) -> JsonView;

/// The document that a text denotes, when it is well-formed JSON.
pub uninterp spec fn spec_parsed(text: Seq<char>) -> Option<JsonView>;

/// The documents that a run of parsed values holds, in order.
pub open spec fn spec_value_documents(values: Seq<serde_json::Value>) -> Seq<JsonView> {
    Seq::new(values.len(), |i: int| spec_value_document(values[i]))
}

/// The named documents that a run of parsed members holds, in order.
pub open spec fn spec_value_members(members: Seq<(&String, &serde_json::Value)>) -> Seq<
    (Seq<char>, JsonView),
> {
    Seq::new(members.len(), |i: int| (members[i].0@, spec_value_document(*members[i].1)))
}

/// `serde_json::from_str` at `Value`: a value comes back exactly when the
/// text is well-formed JSON, and it holds the document that the text denotes.
#[verifier::external_body]
fn value_from_text(text: &str) -> (value: Option<Value>)
    ensures
        value matches Some(v) ==> spec_parsed(text@) == Some(spec_value_document(v)),
        value is None ==> spec_parsed(text@) is None,
{
    serde_json::from_str::<Value>(text).ok()
}

/// `Value::as_bool`: the boolean of a boolean value, nothing for any other value.
#[verifier::external_body]
fn value_flag(value: &Value) -> (flag: Option<bool>)
    ensures
        flag matches Some(b) ==> spec_value_document(*value) == JsonView::Bool(b),
        flag is None ==> !(spec_value_document(*value) is Bool),
{
    value.as_bool()
}

/// `Value::as_number`, with the number written out as `Number` displays it:
/// the decimal text of a number value, nothing for any other value.
#[verifier::external_body]
fn value_number(value: &Value) -> (text: Option<String>)
    ensures
        text matches Some(t) ==> spec_value_document(*value) == JsonView::Number(t@),
        text is None ==> !(spec_value_document(*value) is Number),
{
    value.as_number().map(|number| number.to_string())
}

/// `Value::as_str`: the text of a string value, nothing for any other value.
#[verifier::external_body]
fn value_text(value: &Value) -> (text: Option<&str>)
    ensures
        text matches Some(t) ==> spec_value_document(*value) == JsonView::Text(t@),
        text is None ==> !(spec_value_document(*value) is Text),
{
    value.as_str()
}

/// `Value::as_array`: the items of an array value in order, nothing for any
/// other value.
#[verifier::external_body]
fn value_items(value: &Value) -> (items: Option<&Vec<Value>>)
    ensures
        items matches Some(values) ==> spec_value_document(*value) == JsonView::Array(
            spec_value_documents(values@),
        ),
        items is None ==> !(spec_value_document(*value) is Array),
{
    value.as_array()
}

/// `Value::as_object` and `Map::iter`: the members of an object value in the
/// order in which the map yields them, nothing for any other value.
#[verifier::external_body]
fn value_members(value: &Value) -> (members: Option<Vec<(&String, &Value)>>)
    ensures
        members matches Some(pairs) ==> spec_value_document(*value) == JsonView::Object(
            spec_value_members(pairs@),
        ),
        members is None ==> !(spec_value_document(*value) is Object),
{
    value.as_object().map(|map| map.iter().collect())
}

impl Json {
    /// Copies a parsed value into a document of this crate.
    fn from_value(value: &Value) -> (document: Json)
        ensures
            document@ == spec_value_document(*value),
        decreases spec_value_document(*value),
    {
        if let Some(flag) = value_flag(value) {
            Json::Bool(flag)
        } else if let Some(text) = value_number(value) {
            Json::Number(text)
        } else if let Some(text) = value_text(value) {
            Json::Text(String::from_str(text))
        } else if let Some(values) = value_items(value) {
            let mut items: Vec<Json> = Vec::new();
            let mut i: usize = 0;
            while i < values.len()
                invariant
                    i <= values.len(),
                    items.len() == i,
                    spec_value_document(*value) == JsonView::Array(spec_value_documents(values@)),
                    forall|k: int| 0 <= k < i ==> items[k]@ == spec_value_document(values[k]),
                decreases values.len() - i,
            {
                proof {
                    let documents = spec_value_documents(values@);
                    assert(documents[i as int] == spec_value_document(values[i as int]));
                    let whole = spec_value_document(*value);
                    assert(decreases_to!(whole => whole->Array_0));
                    assert(decreases_to!(whole->Array_0 => whole->Array_0[i as int]));
                }
                let item = Json::from_value(&values[i]);
                items.push(item);
                i = i + 1;
            }
            proof {
                lemma_array_view(items);
                assert(spec_documents(items@) =~= spec_value_documents(values@));
            }
            Json::Array(items)
        } else if let Some(pairs) = value_members(value) {
            let mut members: Vec<Member> = Vec::new();
            let mut i: usize = 0;
            while i < pairs.len()
                invariant
                    i <= pairs.len(),
                    members.len() == i,
                    spec_value_document(*value) == JsonView::Object(spec_value_members(pairs@)),
                    forall|k: int|
                        0 <= k < i ==> members[k].name@ == pairs[k].0@ && members[k].value@
                            == spec_value_document(*pairs[k].1),
                decreases pairs.len() - i,
            {
                proof {
                    let named = spec_value_members(pairs@);
                    assert(named[i as int].1 == spec_value_document(*pairs[i as int].1));
                    let whole = spec_value_document(*value);
                    assert(decreases_to!(whole => whole->Object_0));
                    assert(decreases_to!(whole->Object_0 => whole->Object_0[i as int]));
                    assert(decreases_to!(whole->Object_0[i as int] => whole->Object_0[i as int].1));
                }
                let member = Member {
                    name: pairs[i].0.clone(),
                    value: Json::from_value(pairs[i].1),
                };
                members.push(member);
                i = i + 1;
            }
            proof {
                lemma_object_view(members);
                assert(spec_named_documents(members@) =~= spec_value_members(pairs@));
            }
            Json::Object(members)
        } else {
            Json::Null
        }
    }

    /// Reads a document from JSON text. Nothing comes back when the text is
    /// not well-formed JSON.
    pub fn parse(text: &str) -> (document: Option<Json>)
        ensures
            document matches Some(d) ==> spec_parsed(text@) == Some(d@),
            document is None ==> spec_parsed(text@) is None,
    {
        match value_from_text(text) {
            Some(value) => Some(Json::from_value(&value)),
            None => None,
        }
    }

    /// The member called `name`, when this document is an object that has one.
    pub fn member(&self, name: &str) -> (found: Option<&Json>)
        ensures
            found matches Some(value) ==> self@.spec_get(name@) == Some(value@),
            found is None ==> self@.spec_get(name@) is None,
    {
        match self {
            Json::Object(members) => {
                proof {
                    lemma_object_view(*members);
                }
                let wanted = String::from_str(name);
                let ghost all = spec_named_documents(members@);
                let mut i: usize = 0;
                assert(all.skip(0) =~= all);
                while i < members.len()
                    invariant
                        i <= members.len(),
                        wanted@ == name@,
                        self@ == JsonView::Object(all),
                        all == spec_named_documents(members@),
                        spec_member(all, name@) == spec_member(all.skip(i as int), name@),
                    decreases members.len() - i,
                {
                    let ghost rest = all.skip(i as int);
                    assert(rest[0] == all[i as int]);
                    assert(rest.drop_first() =~= all.skip(i + 1));
                    if members[i].name == wanted {
                        return Some(&members[i].value);
                    }
                    i = i + 1;
                }
                assert(all.skip(i as int).len() == 0);
                None
            },
            _ => None,
        }
    }

    /// The text of the member called `name`, when there is one and it is a string.
    pub fn member_text(&self, name: &str) -> (found: Option<&String>)
        ensures
            found matches Some(text) ==> self@.spec_get_text(name@) == Some(text@),
            found is None ==> self@.spec_get_text(name@) is None,
    {
        match self.member(name) {
            Some(Json::Text(text)) => Some(text),
            _ => None,
        }
    }

    /// The value of the member called `name`, when there is one and it is a boolean.
    pub fn member_flag(&self, name: &str) -> (found: Option<bool>)
        ensures
            found == self@.spec_get_flag(name@),
    {
        match self.member(name) {
            Some(Json::Bool(flag)) => Some(*flag),
            _ => None,
        }
    }

    /// The items of the member called `name`, when there is one and it is an array.
    pub fn member_items(&self, name: &str) -> (found: Option<&Vec<Json>>)
        ensures
            found matches Some(items) ==> self@.spec_get_items(name@) == Some(
                spec_documents(items@),
            ),
            found is None ==> self@.spec_get_items(name@) is None,
    {
        match self.member(name) {
            Some(Json::Array(items)) => {
                proof {
                    lemma_array_view(*items);
                }
                Some(items)
            },
            _ => None,
        }
    }
}

} // verus!
