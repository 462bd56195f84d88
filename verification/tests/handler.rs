use chatgbt_buddy::openai::body::Attachment;
use chatgbt_buddy::openai::failure::Failure;
use chatgbt_buddy::openai::handler::{Action, Event, OpenAIHandler, Stage};
use chatgbt_buddy::openai::request::{
    OpenAIFileDeleteRequest, OpenAIFileUploadRequest, OpenAIFilesRequest, OpenAIRequest,
};
use chatgbt_buddy::openai::response::{OpenAIFilesResponse, OpenAIResponse};

fn files() -> OpenAIRequest {
    OpenAIRequest::OpenAIFilesRequest(OpenAIFilesRequest {})
}

fn upload() -> OpenAIRequest {
    OpenAIRequest::OpenAIFileUploadRequest(OpenAIFileUploadRequest {
        file: "data.jsonl".to_string(),
        purpose: "fine-tune".to_string(),
    })
}

fn loaded() -> Event {
    Event::FileLoaded(Attachment { file_name: "data.jsonl".to_string(), bytes: vec![1, 2, 3] })
}

#[test]
fn handler_new_is_empty() {
    let handler = OpenAIHandler::new();
    assert_eq!(handler.request(), &OpenAIRequest::Empty);
    assert_eq!(handler.response(), &OpenAIResponse::Empty);
    assert_eq!(handler.stage(), Stage::Idle);
    assert!(handler.headers().is_empty());
}

#[test]
fn handler_with_token_carries_the_bearer_header() {
    let handler = OpenAIHandler::new_with_token("sk-abc123".to_string());
    let headers = handler.headers();
    assert_eq!(headers.len(), 1);
    assert_eq!(headers.get("authorization").unwrap(), "Bearer sk-abc123");
    assert_eq!(headers.get("Authorization").unwrap(), "Bearer sk-abc123");
}

#[test]
fn handler_set_token_replaces_the_credential() {
    let handler = OpenAIHandler::new().set_token("first".to_string());
    assert_eq!(handler.headers().get("authorization").unwrap(), "Bearer first");
    let handler = handler.set_token("second".to_string());
    let headers = handler.headers();
    assert_eq!(headers.len(), 1);
    assert_eq!(headers.get("authorization").unwrap(), "Bearer second");
}

#[test]
fn handler_set_token_keeps_request_and_response() {
    let mut handler = OpenAIHandler::new();
    handler.set_request(files());
    handler.set_response(OpenAIResponse::OpenAIFilesResponse(OpenAIFilesResponse { data: vec![] }));
    let handler = handler.set_token("sk".to_string());
    assert_eq!(handler.request(), &files());
    assert_eq!(
        handler.response(),
        &OpenAIResponse::OpenAIFilesResponse(OpenAIFilesResponse { data: vec![] })
    );
}

#[test]
fn handler_token_that_no_header_can_carry_makes_no_credential() {
    for token in ["line\nbreak", "bell\u{7}", "delete\u{7f}", "carriage\rreturn", "nul\0"] {
        let mut handler = OpenAIHandler::new_with_token(token.to_string());
        assert!(handler.headers().is_empty());
        handler.set_request(files());
        assert_eq!(handler.process(Event::Start), Action::Abort(Failure::Configuration));
    }
}

#[test]
fn handler_token_with_tab_space_and_letters_beyond_ascii_is_carried() {
    for token in ["with space", "with\ttab", "gr\u{fc}n", ""] {
        let handler = OpenAIHandler::new_with_token(token.to_string());
        let expected = format!("Bearer {}", token);
        assert_eq!(handler.headers().get("authorization").unwrap().as_bytes(), expected.as_bytes());
    }
}

#[test]
fn handler_without_credential_makes_no_call() {
    let mut handler = OpenAIHandler::new();
    handler.set_request(files());
    assert_eq!(handler.process(Event::Start), Action::Abort(Failure::Configuration));
    assert_eq!(handler.stage(), Stage::Idle);
}

#[test]
fn handler_without_request_makes_no_call() {
    let mut handler = OpenAIHandler::new_with_token("sk".to_string());
    assert_eq!(handler.process(Event::Start), Action::Abort(Failure::Configuration));
    assert_eq!(handler.stage(), Stage::Idle);
}

#[test]
fn handler_endpoint_is_origin_and_path() {
    let mut handler = OpenAIHandler::new();
    assert_eq!(handler.endpoint(), "https://api.openai.com");
    handler.set_request(files());
    assert_eq!(handler.endpoint(), "https://api.openai.com/v1/files");
    handler.set_request(OpenAIRequest::OpenAIFileDeleteRequest(OpenAIFileDeleteRequest {
        filename: "file-1".to_string(),
    }));
    assert_eq!(handler.endpoint(), "https://api.openai.com/v1/files/file-1");
}

#[test]
fn handler_events_out_of_turn_end_the_exchange() {
    let mut idle = OpenAIHandler::new_with_token("sk".to_string());
    idle.set_request(upload());
    assert_eq!(idle.process(loaded()), Action::Abort(Failure::Configuration));
    assert_eq!(idle.process(Event::FileUnreadable), Action::Abort(Failure::Configuration));
    assert_eq!(idle.process(Event::Unreachable), Action::Abort(Failure::Configuration));
    let reply = Event::Replied { status: 200, body: "{}".to_string() };
    assert_eq!(idle.process(reply), Action::Abort(Failure::Configuration));
    assert_eq!(idle.response(), &OpenAIResponse::Empty);

    let mut waiting = OpenAIHandler::new_with_token("sk".to_string());
    waiting.set_request(upload());
    assert!(matches!(waiting.process(Event::Start), Action::ReadFile(_)));
    assert_eq!(waiting.process(Event::Start), Action::Abort(Failure::Configuration));
    assert_eq!(waiting.stage(), Stage::Idle);
}

#[test]
fn handler_holds_one_call_in_flight() {
    let mut handler = OpenAIHandler::new_with_token("sk".to_string());
    handler.set_request(files());
    assert!(matches!(handler.process(Event::Start), Action::Send(_)));
    assert_eq!(handler.stage(), Stage::AwaitingReply);
    assert_eq!(handler.process(Event::Start), Action::Abort(Failure::Configuration));
    assert_eq!(handler.stage(), Stage::Idle);
}

#[test]
fn handler_set_request_gives_up_the_exchange_under_way() {
    let mut handler = OpenAIHandler::new_with_token("sk".to_string());
    handler.set_request(files());
    assert!(matches!(handler.process(Event::Start), Action::Send(_)));
    handler.set_request(upload());
    assert_eq!(handler.stage(), Stage::Idle);
    assert_eq!(handler.request(), &upload());
    let late = Event::Replied { status: 200, body: "{\"data\":[]}".to_string() };
    assert_eq!(handler.process(late), Action::Abort(Failure::Configuration));
    assert_eq!(handler.response(), &OpenAIResponse::Empty);
}

#[test]
fn handler_headers_survive_a_failed_exchange() {
    let mut handler = OpenAIHandler::new_with_token("sk".to_string());
    let before = handler.headers();
    handler.set_request(files());
    assert!(matches!(handler.process(Event::Start), Action::Send(_)));
    assert!(matches!(handler.process(Event::Unreachable), Action::Abort(_)));
    assert_eq!(handler.headers(), before);
    assert!(matches!(handler.process(Event::Start), Action::Send(_)));
    let reply = Event::Replied { status: 400, body: String::new() };
    assert!(matches!(handler.process(reply), Action::Abort(_)));
    assert_eq!(handler.headers(), before);
    assert_eq!(handler.request(), &files());
}

#[test]
fn event_for_a_file_goes_by_its_name() {
    assert_eq!(
        Event::file_named(Some("a.txt".to_string()), vec![7]),
        Event::FileLoaded(Attachment { file_name: "a.txt".to_string(), bytes: vec![7] })
    );
    assert_eq!(Event::file_named(None, vec![7]), Event::FileUnreadable);
}

#[test]
fn event_for_a_loaded_file_takes_the_last_component() {
    assert_eq!(
        Event::file_loaded("dir/sub/a.txt", vec![7]),
        Event::FileLoaded(Attachment { file_name: "a.txt".to_string(), bytes: vec![7] })
    );
    assert_eq!(
        Event::file_loaded("a.txt", vec![]),
        Event::FileLoaded(Attachment { file_name: "a.txt".to_string(), bytes: vec![] })
    );
    assert_eq!(Event::file_loaded("dir/..", vec![7]), Event::FileUnreadable);
    assert_eq!(Event::file_loaded("", vec![7]), Event::FileUnreadable);
}

#[test]
fn dispatcher_items_are_at_hand_in_one_place() {
    let mut handler = chatgbt_buddy::openai::OpenAIHandler::new_with_token("sk".to_string());
    handler.set_request(chatgbt_buddy::openai::OpenAIRequest::OpenAIModelsRequest(
        chatgbt_buddy::openai::OpenAIModelsRequest {},
    ));
    let action = handler.process(chatgbt_buddy::openai::Event::Start);
    assert!(matches!(action, chatgbt_buddy::openai::Action::Send(_)));
    assert_eq!(
        chatgbt_buddy::openai::classify(Some(401)),
        chatgbt_buddy::openai::StatusClass::Unauthorized
    );
}
