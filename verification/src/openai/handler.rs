//! The dispatcher: the state of one exchange with the service and the
//! decisions that drive it.
//!
//! The dispatcher performs no input or output itself. It is driven by
//! events and answers each with the action to take next: read the file that
//! the request carries, send a call, or stop. The caller carries the action
//! out and reports back what happened.

use reqwest::header::HeaderMap;
use vstd::prelude::*;

use crate::openai::body::{Attachment, Body, BodyView};
use crate::openai::failure::{classify, spec_classify, Failure, StatusClass};
use crate::openai::headers::{
    header_value, headers_insert, headers_new, spec_header_safe, spec_headers, spec_no_headers,
};
use crate::openai::json::spec_parsed;
use crate::openai::request::{OpenAIRequest, Verb};
use crate::openai::response::OpenAIResponse;
use crate::openai::text::spec_part_of;

verus! {

/// How far the exchange has come.
#[derive(Debug, Clone, Copy, PartialEq, Eq, Structural)]
pub enum Stage {
    /// Nothing is under way.
    Idle,
    /// The file that the request carries is being read.
    AwaitingFile,
    /// The call is in flight.
    AwaitingReply,
}

/// A call, ready to be sent.
#[derive(Debug, PartialEq)]
pub struct WireRequest {
    pub verb: Verb,
    /// The full address of the call.
    pub url: String,
    pub headers: HeaderMap,
    pub body: Body,
}

/// The mathematical value of a [`WireRequest`].
pub struct WireView {
    pub verb: Verb,
    pub url: Seq<char>,
    pub headers: Map<Seq<char>, Seq<char>>,
    pub body: BodyView,
}

/// What happened outside the dispatcher.
#[derive(Debug, PartialEq, Eq)]
pub enum Event {
    /// The caller asks for the exchange to begin.
    Start,
    /// The file that the request carries was read.
    FileLoaded(Attachment),
    /// The file that the request carries could not be read.
    FileUnreadable,
    /// The service answered.
    Replied {
        /// The numeric status of the reply.
        status: u16,
        /// The body of the reply.
        body: String,
    },
    /// The call brought no status back.
    Unreachable,
}

/// What the caller is to do next.
#[derive(Debug, PartialEq)]
pub enum Action {
    /// Read the file at this path and report its content.
    ReadFile(String),
    /// Send this call and report the reply.
    Send(WireRequest),
    /// The exchange is over and its response is in the dispatcher.
    Done,
    /// The exchange is over and produced no response.
    Abort(Failure),
}

/// The mathematical value of an [`Action`].
pub enum ActionView {
    ReadFile(Seq<char>),
    Send(WireView),
    Done,
    Abort(Failure),
}

impl View for WireRequest {
    type V = WireView;

    open spec fn view(&self) -> WireView {
        WireView {
            verb: self.verb,
            url: self.url@,
            headers: spec_headers(self.headers),
            body: self.body@,
        }
    }
}

impl View for Action {
    type V = ActionView;

    open spec fn view(&self) -> ActionView {
        match self {
            Action::ReadFile(path) => ActionView::ReadFile(path@),
            Action::Send(wire) => ActionView::Send(wire@),
            Action::Done => ActionView::Done,
            Action::Abort(failure) => ActionView::Abort(*failure),
        }
    }
}

/// The origin of the service.
pub open spec fn spec_origin() -> Seq<char> {
    "https://api.openai.com"@
}

/// The value of the authorization header for a bearer token.
pub open spec fn spec_bearer(token: Seq<char>) -> Seq<char> {
    "Bearer "@ + token
}

/// The credential that a token makes: its authorization header, when the
/// token can be carried in a header at all.
pub open spec fn spec_credential(token: Seq<char>) -> Option<Seq<char>> {
    if spec_header_safe(spec_bearer(token)) {
        Some(spec_bearer(token))
    } else {
        None
    }
}

/// The header set of a dispatcher: the authorization header, if there is a
/// credential, and nothing else.
pub open spec fn spec_header_set(authorization: Option<Seq<char>>) -> Map<Seq<char>, Seq<char>> {
    match authorization {
        Some(value) => spec_no_headers().insert("authorization"@, value),
        None => spec_no_headers(),
    }
}

/// The headers of one call: the header set of the dispatcher, and for a
/// JSON body its content type. The content type of a multipart body names
/// the boundary between the parts and is left to the transport.
pub open spec fn spec_send_headers(authorization: Option<Seq<char>>, body: BodyView) -> Map<
    Seq<char>,
    Seq<char>,
> {
    match body {
        BodyView::Json(_) => spec_header_set(authorization).insert(
            "content-type"@,
            "application/json"@,
        ),
        BodyView::Multipart(_) => spec_header_set(authorization),
    }
}

/// The call that a request is sent as, or why it cannot be sent.
pub open spec fn spec_wire(
    authorization: Option<Seq<char>>,
    request: OpenAIRequest,
    attachment: Option<Attachment>,
) -> Result<WireView, Failure> {
    if authorization is None {
        Err(Failure::Configuration)
    } else {
        match request.spec_body(attachment) {
            Ok(body) => Ok(
                WireView {
                    verb: request.spec_verb()->0,
                    url: spec_origin() + request.spec_path(),
                    headers: spec_send_headers(authorization, body),
                    body,
                },
            ),
            Err(failure) => Err(failure),
        }
    }
}

/// `Path::file_name`, as text: the last component of a path, when the path
/// has one and it is valid Unicode. What counts as a component depends on
/// the platform; on every platform it is a part of the path.
#[verifier::external_body]
fn file_name_of(path: &str) -> (name: Option<String>)
    ensures
        name matches Some(text) ==> spec_part_of(text@, path@),
{
    std::path::Path::new(path).file_name().and_then(|name| name.to_str()).map(String::from)
}

impl Event {
    /// The event that reports a file that was read, given the name that
    /// its path ends with: the file is loaded under that name, and it counts
    /// as unreadable when its path names no file.
    pub fn file_named(name: Option<String>, bytes: Vec<u8>) -> (event: Event)
        ensures
            event == match name {
                Some(file_name) => Event::FileLoaded(Attachment { file_name, bytes }),
                None => Event::FileUnreadable,
            },
    {
        match name {
            Some(file_name) => Event::FileLoaded(Attachment { file_name, bytes }),
            None => Event::FileUnreadable,
        }
    }

    /// The event that reports a file that was read from `path`. The file
    /// is loaded under the last component of the path, which is a part of
    /// the path; a path without one names no file.
    pub fn file_loaded(path: &str, bytes: Vec<u8>) -> (event: Event)
        ensures
            event is FileUnreadable || (event matches Event::FileLoaded(attachment)
                && attachment.bytes == bytes && spec_part_of(attachment.file_name@, path@)),
    {
        Event::file_named(file_name_of(path), bytes)
    }
}

/// The dispatcher. It holds the credential, the request that is being
/// handled and the response that was produced last.
#[derive(Debug)]
pub struct OpenAIHandler {
    authorization: Option<String>,
    request: OpenAIRequest,
    response: OpenAIResponse,
    stage: Stage,
}

/// The content type of a JSON body can stand in a header.
pub proof fn lemma_json_content_type()
    ensures
        spec_header_safe("application/json"@),
{
    reveal_strlit("application/json");
    let text = "application/json"@;
    assert forall|i: int| 0 <= i < text.len() implies crate::openai::headers::spec_header_char(
        #[trigger] text[i],
    ) by {
        if i == 0 {
        } else if i == 1 {
        } else if i == 2 {
        } else if i == 3 {
        } else if i == 4 {
        } else if i == 5 {
        } else if i == 6 {
        } else if i == 7 {
        } else if i == 8 {
        } else if i == 9 {
        } else if i == 10 {
        } else if i == 11 {
        } else if i == 12 {
        } else if i == 13 {
        } else if i == 14 {
        } else {
        }
    }
}

impl OpenAIHandler {
    #[verifier::type_invariant]
    spec fn well_formed(self) -> bool {
        &&& self.authorization matches Some(value) ==> spec_header_safe(value@)
        &&& self.stage == Stage::AwaitingFile ==> self.request.spec_file() is Some
            && self.authorization is Some
        &&& self.stage == Stage::AwaitingReply ==> !(self.request is Empty)
    }

    /// The value of the authorization header, if the dispatcher has a credential.
    pub closed spec fn spec_authorization(&self) -> Option<Seq<char>> {
        match self.authorization {
            Some(value) => Some(value@),
            None => None,
        }
    }

    /// The request that the dispatcher handles.
    pub closed spec fn spec_request(&self) -> OpenAIRequest {
        self.request
    }

    /// The response that the dispatcher produced last.
    pub closed spec fn spec_response(&self) -> OpenAIResponse {
        self.response
    }

    /// How far the exchange has come.
    pub closed spec fn spec_stage(&self) -> Stage {
        self.stage
    }

    /// The action that answers an event.
    ///
    /// An event out of turn ends the exchange as a configuration failure.
    /// In turn: a start is refused without a credential or without a
    /// request, asks for the file of a request that carries one and sends
    /// any other request at once; a file that was read is sent; a file that
    /// could not be read ends the exchange before any call is made; a reply
    /// is classified by its status, and only a success is decoded.
    pub open spec fn spec_action(&self, event: Event) -> ActionView {
        let request = self.spec_request();
        match event {
            Event::Start => {
                if self.spec_stage() != Stage::Idle {
                    ActionView::Abort(Failure::Configuration)
                } else if self.spec_authorization() is None || request is Empty {
                    ActionView::Abort(Failure::Configuration)
                } else {
                    match request.spec_file() {
                        Some(path) => ActionView::ReadFile(path),
                        None => match spec_wire(self.spec_authorization(), request, None) {
                            Ok(wire) => ActionView::Send(wire),
                            Err(failure) => ActionView::Abort(failure),
                        },
                    }
                }
            },
            Event::FileLoaded(attachment) => {
                if self.spec_stage() != Stage::AwaitingFile {
                    ActionView::Abort(Failure::Configuration)
                } else {
                    match spec_wire(self.spec_authorization(), request, Some(attachment)) {
                        Ok(wire) => ActionView::Send(wire),
                        Err(failure) => ActionView::Abort(failure),
                    }
                }
            },
            Event::FileUnreadable => {
                if self.spec_stage() != Stage::AwaitingFile {
                    ActionView::Abort(Failure::Configuration)
                } else {
                    ActionView::Abort(Failure::LocalIo)
                }
            },
            Event::Replied { status, body } => {
                if self.spec_stage() != Stage::AwaitingReply {
                    ActionView::Abort(Failure::Configuration)
                } else if spec_classify(Some(status)) == StatusClass::Success {
                    match request.spec_decoded(spec_parsed(body@)) {
                        Some(_) => ActionView::Done,
                        None => ActionView::Abort(request.spec_decode_failure()),
                    }
                } else {
                    ActionView::Abort(
                        Failure::Application { class: spec_classify(Some(status)), status, body },
                    )
                }
            },
            Event::Unreachable => {
                if self.spec_stage() != Stage::AwaitingReply {
                    ActionView::Abort(Failure::Configuration)
                } else {
                    ActionView::Abort(Failure::Transport)
                }
            },
        }
    }

    /// A dispatcher without a credential and without a request.
    pub fn new() -> (handler: OpenAIHandler)
        ensures
            handler.spec_authorization() is None,
            handler.spec_request() is Empty,
            handler.spec_response() is Empty,
            handler.spec_stage() == Stage::Idle,
    {
        OpenAIHandler {
            authorization: None,
            request: OpenAIRequest::Empty,
            response: OpenAIResponse::Empty,
            stage: Stage::Idle,
        }
    }

    /// The authorization header of a bearer token, when the token can be
    /// carried in a header.
    fn credential(token: &String) -> (authorization: Option<String>)
        ensures
            authorization matches Some(value) ==> spec_credential(token@) == Some(value@),
            authorization is None ==> spec_credential(token@) is None,
    {
        let bearer = String::from_str("Bearer ").concat(token.as_str());
        match header_value(bearer.as_str()) {
            Some(_) => Some(bearer),
            None => None,
        }
    }

    /// A dispatcher with the credential that `token` makes and without a
    /// request. A token that cannot be carried in a header makes none.
    pub fn new_with_token(token: String) -> (handler: OpenAIHandler)
        ensures
            handler.spec_authorization() == spec_credential(token@),
            handler.spec_request() is Empty,
            handler.spec_response() is Empty,
            handler.spec_stage() == Stage::Idle,
    {
        OpenAIHandler {
            authorization: Self::credential(&token),
            request: OpenAIRequest::Empty,
            response: OpenAIResponse::Empty,
            stage: Stage::Idle,
        }
    }

    /// The same dispatcher with the credential that `token` makes.
    pub fn set_token(self, token: String) -> (handler: OpenAIHandler)
        ensures
            handler.spec_authorization() == spec_credential(token@),
            handler.spec_request() == self.spec_request(),
            handler.spec_response() == self.spec_response(),
            handler.spec_stage() == Stage::Idle,
    {
        OpenAIHandler {
            authorization: Self::credential(&token),
            request: self.request,
            response: self.response,
            stage: Stage::Idle,
        }
    }

    /// The header set of the dispatcher, in a header map of the transport.
    pub fn headers(&self) -> (headers: HeaderMap)
        ensures
            spec_headers(headers) == spec_header_set(self.spec_authorization()),
    {
        proof {
            use_type_invariant(self);
        }
        let mut headers = headers_new();
        match &self.authorization {
            Some(text) => {
                match header_value(text.as_str()) {
                    Some(value) => {
                        headers_insert(&mut headers, "authorization", value);
                    },
                    None => {},
                }
            },
            None => {},
        }
        headers
    }

    /// The headers of one call with the given body.
    fn send_headers(&self, body: &Body) -> (headers: HeaderMap)
        ensures
            spec_headers(headers) == spec_send_headers(self.spec_authorization(), body@),
    {
        let mut headers = self.headers();
        match body {
            Body::Json(_) => {
                proof {
                    lemma_json_content_type();
                    reveal_strlit("authorization");
                    reveal_strlit("content-type");
                }
                match header_value("application/json") {
                    Some(value) => {
                        headers_insert(&mut headers, "content-type", value);
                    },
                    None => {},
                }
            },
            Body::Multipart(_) => {},
        }
        headers
    }

    /// The full address of the call for the request that the dispatcher
    /// handles: the origin of the service and the path of the request.
    pub fn endpoint(&self) -> (url: String)
        ensures
            url@ == spec_origin() + self.spec_request().spec_path(),
    {
        let origin = String::from_str("https://api.openai.com");
        let path = self.request.path();
        origin.concat(path.as_str())
    }

    /// The call that the request is sent as.
    fn wire(&self, attachment: Option<Attachment>) -> (result: Result<WireRequest, Failure>)
        ensures
            match spec_wire(self.spec_authorization(), self.spec_request(), attachment) {
                Ok(expected) => result matches Ok(wire) && wire@ == expected,
                Err(failure) => result == Err::<WireRequest, Failure>(failure),
            },
    {
        if self.authorization.is_none() {
            return Err(Failure::Configuration);
        }
        match self.request.encode(attachment) {
            Ok(body) => {
                let verb = match self.request.verb() {
                    Some(verb) => verb,
                    None => Verb::Get,
                };
                let headers = self.send_headers(&body);
                Ok(WireRequest { verb, url: self.endpoint(), headers, body })
            },
            Err(failure) => Err(failure),
        }
    }

    /// Ends the exchange without a response.
    fn abort(&mut self, failure: Failure) -> (action: Action)
        ensures
            action == Action::Abort(failure),
            final(self).spec_stage() == Stage::Idle,
            final(self).spec_request() == old(self).spec_request(),
            final(self).spec_response() == old(self).spec_response(),
            final(self).spec_authorization() == old(self).spec_authorization(),
    {
        proof {
            use_type_invariant(&*self);
        }
        self.stage = Stage::Idle;
        Action::Abort(failure)
    }

    /// Sends the request, with the file that it carries if it carries one.
    fn send(&mut self, attachment: Option<Attachment>) -> (action: Action)
        ensures
            match spec_wire(
                old(self).spec_authorization(),
                old(self).spec_request(),
                attachment,
            ) {
                Ok(wire) => action@ == ActionView::Send(wire) && final(self).spec_stage()
                    == Stage::AwaitingReply,
                Err(failure) => action == Action::Abort(failure) && final(self).spec_stage()
                    == Stage::Idle,
            },
            final(self).spec_request() == old(self).spec_request(),
            final(self).spec_response() == old(self).spec_response(),
            final(self).spec_authorization() == old(self).spec_authorization(),
    {
        proof {
            use_type_invariant(&*self);
        }
        match self.wire(attachment) {
            Ok(wire) => {
                self.stage = Stage::AwaitingReply;
                Action::Send(wire)
            },
            Err(failure) => self.abort(failure),
        }
    }

    /// Answers an event with the action to take next.
    ///
    /// Whatever the event, the credential and the request stay as they
    /// were. The response changes only when a successful reply was decoded,
    /// and then to the response that answers the request. After an action
    /// that asks for a file the dispatcher awaits the file, after one that
    /// sends a call it awaits the reply, and after any other it is idle.
    pub fn process(&mut self, event: Event) -> (action: Action)
        ensures
            action@ == old(self).spec_action(event),
            final(self).spec_stage() == (match action@ {
                ActionView::ReadFile(_) => Stage::AwaitingFile,
                ActionView::Send(_) => Stage::AwaitingReply,
                _ => Stage::Idle,
            }),
            final(self).spec_request() == old(self).spec_request(),
            final(self).spec_authorization() == old(self).spec_authorization(),
            action@ is Done ==> (event matches Event::Replied { status, body }
                && old(self).spec_request().spec_decoded(spec_parsed(body@)) == Some(
                final(self).spec_response()@,
            ) && old(self).spec_request().spec_answered_by(final(self).spec_response()@)),
            !(action@ is Done) ==> final(self).spec_response() == old(self).spec_response(),
    {
        proof {
            use_type_invariant(&*self);
        }
        match event {
            Event::Start => {
                if self.stage != Stage::Idle {
                    self.abort(Failure::Configuration)
                } else if self.authorization.is_none() {
                    self.abort(Failure::Configuration)
                } else {
                    match self.request {
                        OpenAIRequest::Empty => self.abort(Failure::Configuration),
                        _ => {
                            let path = match self.request.file() {
                                Some(path) => Some(path.clone()),
                                None => None,
                            };
                            match path {
                                Some(path) => {
                                    self.stage = Stage::AwaitingFile;
                                    Action::ReadFile(path)
                                },
                                None => self.send(None),
                            }
                        },
                    }
                }
            },
            Event::FileLoaded(attachment) => {
                if self.stage != Stage::AwaitingFile {
                    self.abort(Failure::Configuration)
                } else {
                    self.send(Some(attachment))
                }
            },
            Event::FileUnreadable => {
                if self.stage != Stage::AwaitingFile {
                    self.abort(Failure::Configuration)
                } else {
                    self.abort(Failure::LocalIo)
                }
            },
            Event::Replied { status, body } => {
                if self.stage != Stage::AwaitingReply {
                    self.abort(Failure::Configuration)
                } else {
                    let class = classify(Some(status));
                    match class {
                        StatusClass::Success => match self.request.decode(body.as_str()) {
                            Ok(response) => {
                                self.stage = Stage::Idle;
                                self.response = response;
                                Action::Done
                            },
                            Err(failure) => self.abort(failure),
                        },
                        _ => self.abort(Failure::Application { class, status, body }),
                    }
                }
            },
            Event::Unreachable => {
                if self.stage != Stage::AwaitingReply {
                    self.abort(Failure::Configuration)
                } else {
                    self.abort(Failure::Transport)
                }
            },
        }
    }

    /// The request that the dispatcher handles.
    pub fn request(&self) -> (request: &OpenAIRequest)
        ensures
            *request == self.spec_request(),
    {
        &self.request
    }

    /// Selects the request to handle. An exchange that was under way is
    /// given up.
    pub fn set_request(&mut self, request: OpenAIRequest)
        ensures
            final(self).spec_request() == request,
            final(self).spec_stage() == Stage::Idle,
            final(self).spec_response() == old(self).spec_response(),
            final(self).spec_authorization() == old(self).spec_authorization(),
    {
        proof {
            use_type_invariant(&*self);
        }
        self.stage = Stage::Idle;
        self.request = request;
    }

    /// The response that the dispatcher produced last.
    pub fn response(&self) -> (response: &OpenAIResponse)
        ensures
            *response == self.spec_response(),
    {
        &self.response
    }

    /// Replaces the response that the dispatcher holds.
    pub fn set_response(&mut self, response: OpenAIResponse)
        ensures
            final(self).spec_response() == response,
            final(self).spec_request() == old(self).spec_request(),
            final(self).spec_stage() == old(self).spec_stage(),
            final(self).spec_authorization() == old(self).spec_authorization(),
    {
        proof {
            use_type_invariant(&*self);
        }
        self.response = response;
    }

    /// How far the exchange has come.
    pub fn stage(&self) -> (stage: Stage)
        ensures
            stage == self.spec_stage(),
    {
        self.stage
    }
}

/// Only status 200 leads to a response: a reply that ends the exchange with
/// a response had that status.
pub proof fn law_success_is_status_200(handler: OpenAIHandler, status: u16, body: String)
    requires
        handler.spec_action(Event::Replied { status, body }) is Done,
    ensures
        status == 200,
{
}

/// Every other status takes the one failure path: the exchange ends
/// without a response, as an application failure that carries the class of
/// the status, the status and the body of the reply.
pub proof fn law_failure_path_is_uniform(handler: OpenAIHandler, status: u16, body: String)
    requires
        handler.spec_stage() == Stage::AwaitingReply,
        status != 200,
    ensures
        handler.spec_action(Event::Replied { status, body }) == ActionView::Abort(
            Failure::Application { class: spec_classify(Some(status)), status, body },
        ),
        spec_classify(Some(status)) != StatusClass::Success,
        spec_classify(Some(status)) == StatusClass::BadRequest <==> status == 400,
        spec_classify(Some(status)) == StatusClass::Unauthorized <==> status == 401,
{
}

/// The dispatcher holds one call in flight at most: while it awaits a
/// reply, no event makes it send a call or read a file.
pub proof fn law_one_call_in_flight(handler: OpenAIHandler, event: Event)
    requires
        handler.spec_stage() == Stage::AwaitingReply,
    ensures
        !(handler.spec_action(event) is Send),
        !(handler.spec_action(event) is ReadFile),
{
}

/// No call is made before the file of a request that carries one has been
/// read: the start of such a request asks for the file, and a file that
/// cannot be read ends the exchange.
pub proof fn law_file_is_read_before_any_call(handler: OpenAIHandler)
    requires
        handler.spec_request().spec_file() is Some,
    ensures
        !(handler.spec_action(Event::Start) is Send),
        !(handler.spec_action(Event::FileUnreadable) is Send),
{
}

} // verus!
