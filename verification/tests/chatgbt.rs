use chatgbt_buddy::chatgbt::{ChatGPTRequest, ChatGPTResponse};
use chatgbt_buddy::openai::body::Body;
use chatgbt_buddy::openai::failure::{Failure, StatusClass};
use chatgbt_buddy::openai::json::{Json, Member};
use chatgbt_buddy::openai::request::Verb;
use chatgbt_buddy::openai::response::Choice;

fn request() -> ChatGPTRequest {
    ChatGPTRequest {
        model: "text-davinci-003".to_string(),
        prompt: "Hello".to_string(),
        max_tokens: 16,
        temperature: "0.5".to_string(),
        user: "u".to_string(),
    }
}

fn text(name: &str, value: &str) -> Member {
    Member { name: name.to_string(), value: Json::Text(value.to_string()) }
}

fn number(name: &str, value: &str) -> Member {
    Member { name: name.to_string(), value: Json::Number(value.to_string()) }
}

#[test]
fn chat_document_has_the_five_fields() {
    let expected = Json::Object(vec![
        text("model", "text-davinci-003"),
        text("prompt", "Hello"),
        number("max_tokens", "16"),
        number("temperature", "0.5"),
        text("user", "u"),
    ]);
    assert_eq!(request().document(), expected);
}

#[test]
fn chat_headers_carry_content_type_and_bearer() {
    let headers = request().create_headers("sk-test").expect("headers");
    assert_eq!(headers.len(), 2);
    assert_eq!(headers.get("content-type").unwrap(), "application/json");
    assert_eq!(headers.get("authorization").unwrap(), "Bearer sk-test");
}

#[test]
fn chat_headers_need_a_token_that_a_header_can_carry() {
    assert!(request().create_headers("two\nlines").is_none());
    assert_eq!(request().converse("two\nlines"), Err(Failure::Configuration));
}

#[test]
fn chat_call_posts_to_the_completions() {
    let wire = request().converse("sk-test").expect("a call");
    assert_eq!(wire.verb, Verb::Post);
    assert_eq!(wire.url, "https://api.openai.com/v1/completions");
    assert_eq!(wire.headers.get("authorization").unwrap(), "Bearer sk-test");
    assert_eq!(wire.body, Body::Json(request().document()));
}

#[test]
fn chat_reply_shows_one_choice_as_it_is() {
    let body = "{\"choices\":[{\"text\":\"\\n\\nHi there\"}]}".to_string();
    assert_eq!(ChatGPTRequest::conversed(200, body), Ok(vec!["Hi there".to_string()]));
}

#[test]
fn chat_reply_shows_several_choices_under_a_label() {
    let body = "{\"choices\":[{\"text\":\"\\n\\nHi\"},{\"text\":\"Ho\"}]}".to_string();
    assert_eq!(
        ChatGPTRequest::conversed(200, body),
        Ok(vec!["ChatGBT Response: Hi".to_string(), "ChatGBT Response: Ho".to_string()])
    );
    let response = ChatGPTResponse {
        choices: vec![Choice { text: "a".to_string() }, Choice { text: "\n\nb".to_string() }],
    };
    assert_eq!(
        response.choice_lines(),
        vec!["ChatGBT Response: a".to_string(), "ChatGBT Response: b".to_string()]
    );
}

#[test]
fn chat_reply_of_another_shape_is_a_decode_failure() {
    assert_eq!(ChatGPTRequest::conversed(200, "{\"data\":[]}".to_string()), Err(Failure::Decode));
    assert_eq!(ChatGPTRequest::conversed(200, "oops".to_string()), Err(Failure::Decode));
}

#[test]
fn chat_reply_with_another_status_is_a_failure() {
    assert_eq!(
        ChatGPTRequest::conversed(400, "bad".to_string()),
        Err(Failure::Application {
            class: StatusClass::BadRequest,
            status: 400,
            body: "bad".to_string(),
        })
    );
    assert_eq!(
        ChatGPTRequest::conversed(401, "{\"choices\":[]}".to_string()),
        Err(Failure::Application {
            class: StatusClass::Unauthorized,
            status: 401,
            body: "{\"choices\":[]}".to_string(),
        })
    );
    assert_eq!(
        ChatGPTRequest::conversed(503, String::new()),
        Err(Failure::Application { class: StatusClass::Other, status: 503, body: String::new() })
    );
}
