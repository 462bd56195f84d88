//! The completion of one prompt, without a dispatcher: the call that asks
//! for it, and what its reply shows.

use reqwest::header::HeaderMap;
use vstd::prelude::*;

use crate::openai::body::{object_of, push_member, Body, BodyView};
use crate::openai::failure::{classify, spec_classify, Failure, StatusClass};
use crate::openai::handler::{
    lemma_json_content_type, spec_credential, spec_origin, spec_send_headers, WireRequest,
    WireView,
};
use crate::openai::headers::{header_value, headers_insert, headers_new, spec_headers};
use crate::openai::json::{spec_named_documents, spec_parsed, Json, JsonView, Member};
use crate::openai::request::Verb;
use crate::openai::response::{
    choice_lines, read_body, read_list, spec_choice_lines, spec_read_list, spec_read_parsed,
    spec_views, Choice, FromDocument,
};
use crate::openai::text::{decimal_text, spec_decimal};

verus! {

/// Asks the service to complete a prompt.
#[derive(Debug, Clone, PartialEq, Eq)]
pub struct ChatGPTRequest {
    /// The model that completes the prompt.
    pub model: String,
    /// The text to complete.
    pub prompt: String,
    /// The most tokens that the completion may hold.
    pub max_tokens: usize,
    /// The sampling temperature, as decimal text.
    pub temperature: String,
    /// The end user on whose behalf the request is made.
    pub user: String,
}

/// The answer to a [`ChatGPTRequest`].
#[derive(Debug, Clone, PartialEq, Eq)]
pub struct ChatGPTResponse {
    /// The generated completions, in the order of the answer.
    pub choices: Vec<Choice>,
}

impl View for ChatGPTResponse {
    type V = Seq<Seq<char>>;

    open spec fn view(&self) -> Seq<Seq<char>> {
        spec_views(self.choices@)
    }
}

impl FromDocument for ChatGPTResponse {
    open spec fn spec_read(document: JsonView) -> Option<Seq<Seq<char>>> {
        spec_read_list::<Choice>(document, "choices"@)
    }

    fn read(document: &Json) -> (value: Option<ChatGPTResponse>) {
        match read_list::<Choice>(document, "choices") {
            Some(choices) => Some(ChatGPTResponse { choices }),
            None => None,
        }
    }
}

impl ChatGPTResponse {
    /// The lines that show the completions to the caller.
    pub fn choice_lines(&self) -> (lines: Vec<String>)
        ensures
            spec_views(lines@) == spec_choice_lines(self@, "ChatGBT Response: "@),
    {
        choice_lines(&self.choices, "ChatGBT Response: ")
    }
}

impl ChatGPTRequest {
    /// The JSON object of the request: its five fields under their own names.
    pub open spec fn spec_document(&self) -> JsonView {
        JsonView::Object(
            seq![
                ("model"@, JsonView::Text(self.model@)),
                ("prompt"@, JsonView::Text(self.prompt@)),
                ("max_tokens"@, JsonView::Number(spec_decimal(self.max_tokens as nat))),
                ("temperature"@, JsonView::Number(self.temperature@)),
                ("user"@, JsonView::Text(self.user@)),
            ],
        )
    }

    /// The call that asks for the completion, or why it cannot be made.
    pub open spec fn spec_call(&self, token: Seq<char>) -> Result<WireView, Failure> {
        match spec_credential(token) {
            Some(authorization) => Ok(
                WireView {
                    verb: Verb::Post,
                    url: spec_origin() + "/v1/completions"@,
                    headers: spec_send_headers(
                        Some(authorization),
                        BodyView::Json(self.spec_document()),
                    ),
                    body: BodyView::Json(self.spec_document()),
                },
            ),
            None => Err(Failure::Configuration),
        }
    }

    /// What the reply to the call shows: the lines of the completions for a
    /// success whose body is a list of completions, and a failure otherwise.
    pub open spec fn spec_shown(status: u16, body: String) -> Result<Seq<Seq<char>>, Failure> {
        if spec_classify(Some(status)) == StatusClass::Success {
            match spec_read_parsed::<ChatGPTResponse>(spec_parsed(body@)) {
                Some(choices) => Ok(spec_choice_lines(choices, "ChatGBT Response: "@)),
                None => Err(Failure::Decode),
            }
        } else {
            Err(Failure::Application { class: spec_classify(Some(status)), status, body })
        }
    }

    /// The JSON object of the request.
    pub fn document(&self) -> (document: Json)
        ensures
            document@ == self.spec_document(),
    {
        let mut members: Vec<Member> = Vec::new();
        assert(spec_named_documents(members@) =~= Seq::empty());
        push_member(&mut members, "model", Json::Text(self.model.clone()));
        push_member(&mut members, "prompt", Json::Text(self.prompt.clone()));
        push_member(&mut members, "max_tokens", Json::Number(decimal_text(self.max_tokens as u64)));
        push_member(&mut members, "temperature", Json::Number(self.temperature.clone()));
        push_member(&mut members, "user", Json::Text(self.user.clone()));
        assert(spec_named_documents(members@) =~= self.spec_document()->Object_0);
        object_of(members)
    }

    /// The headers of the call: the content type of its JSON body and the
    /// authorization of the bearer token. A token that cannot be carried in
    /// a header makes no headers.
    pub fn create_headers(&self, token: &str) -> (headers: Option<HeaderMap>)
        ensures
            headers is Some <==> spec_credential(token@) is Some,
            headers matches Some(map) ==> spec_headers(map) == spec_send_headers(
                spec_credential(token@),
                BodyView::Json(self.spec_document()),
            ),
    {
        let bearer = String::from_str("Bearer ").concat(token);
        let authorization = header_value(bearer.as_str());
        proof {
            lemma_json_content_type();
            reveal_strlit("authorization");
            reveal_strlit("content-type");
        }
        let content_type = header_value("application/json");
        match (authorization, content_type) {
            (Some(authorization), Some(content_type)) => {
                let mut headers = headers_new();
                headers_insert(&mut headers, "authorization", authorization);
                headers_insert(&mut headers, "content-type", content_type);
                Some(headers)
            },
            _ => None,
        }
    }

    /// The call that asks for the completion. Without a token that can be
    /// carried in a header there is no call: that is a configuration failure.
    pub fn converse(&self, token: &str) -> (call: Result<WireRequest, Failure>)
        ensures
            match self.spec_call(token@) {
                Ok(expected) => call matches Ok(wire) && wire@ == expected,
                Err(failure) => call == Err::<WireRequest, Failure>(failure),
            },
    {
        match self.create_headers(token) {
            Some(headers) => {
                let url = String::from_str("https://api.openai.com").concat("/v1/completions");
                Ok(WireRequest { verb: Verb::Post, url, headers, body: Body::Json(self.document()) })
            },
            None => Err(Failure::Configuration),
        }
    }

    /// What the reply to the call shows to the caller.
    pub fn conversed(status: u16, body: String) -> (shown: Result<Vec<String>, Failure>)
        ensures
            match Self::spec_shown(status, body) {
                Ok(expected) => shown matches Ok(lines) && spec_views(lines@) == expected,
                Err(failure) => shown == Err::<Vec<String>, Failure>(failure),
            },
    {
        let class = classify(Some(status));
        match class {
            StatusClass::Success => match read_body::<ChatGPTResponse>(body.as_str()) {
                Some(response) => Ok(response.choice_lines()),
                None => Err(Failure::Decode),
            },
            _ => Err(Failure::Application { class, status, body }),
        }
    }
}

} // verus!
