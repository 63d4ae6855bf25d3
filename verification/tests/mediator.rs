use chat::mediator::{AskModel, ModelActor, OllamaMessage, OllamaRequest, ReplyShape, Upstream};

fn actor(base_url: &str) -> ModelActor {
    ModelActor { base_url: base_url.to_string(), client: reqwest::Client::new() }
}

fn task(session_id: &str, model: &str, prompt: &str) -> AskModel {
    AskModel {
        session_id: session_id.to_string(),
        model: model.to_string(),
        prompt: prompt.to_string(),
    }
}

fn answered(status: u16, body: &str) -> Upstream {
    Upstream::Answered { status, body: body.as_bytes().to_vec() }
}

fn document(text: &str) -> serde_json::Value {
    serde_json::from_str(text).unwrap()
}

#[test]
fn test_ask_model_success() {
    let actor = actor("http://127.0.0.1:11434");
    assert!(actor.chat_url().ends_with("/api/chat"));

    let msg = task("test-session", "test-model", "Hello");
    let outcome = answered(
        200,
        r#"{
            "message": {
                "content": "Hello, this is a test response"
            }
        }"#,
    );

    let result = actor.handle(&msg, &outcome);
    assert!(result.is_ok());
    assert_eq!(result.unwrap(), "Hello, this is a test response");
}

#[test]
fn test_ask_model_fallback() {
    let actor = actor("http://invalid-url-that-wont-work:9999");

    let msg = task("test-session", "test-model", "Hello");

    let result = actor.handle(&msg, &Upstream::Unreachable);
    assert!(result.is_ok());
    let response = result.unwrap();
    assert!(response.contains("(dev echo)"));
    assert!(response.contains("test-session"));
    assert!(response.contains("test-model"));
    assert!(response.contains("Hello"));
}

#[test]
fn echo_has_the_exact_text() {
    let msg = task("test-session", "test-model", "Hello");
    assert_eq!(msg.echo(), "(dev echo) session=test-session model=test-model -> Hello");
}

#[test]
fn echo_of_empty_fields() {
    let msg = task("", "", "");
    assert_eq!(msg.echo(), "(dev echo) session= model= -> ");
}

#[test]
fn chat_url_appends_the_path() {
    assert_eq!(actor("http://localhost:11434").chat_url(), "http://localhost:11434/api/chat");
    assert_eq!(actor("").chat_url(), "/api/chat");
}

#[test]
fn reply_member_is_used_without_message_content() {
    let actor = actor("http://localhost:11434");
    let msg = task("s", "m", "p");
    let result = actor.handle(&msg, &answered(200, r#"{"reply":"from reply"}"#));
    assert_eq!(result, Ok("from reply".to_string()));
}

#[test]
fn message_content_comes_before_reply() {
    let v = document(r#"{"reply":"second","message":{"content":"first"}}"#);
    assert_eq!(ModelActor::normalize(&v), "first");
}

#[test]
fn message_content_that_is_no_string_is_passed_over() {
    let v = document(r#"{"reply":"second","message":{"content":7}}"#);
    assert_eq!(ModelActor::normalize(&v), "second");
    let v = document(r#"{"reply":"second","message":"flat"}"#);
    assert_eq!(ModelActor::normalize(&v), "second");
    let v = document(r#"{"reply":"second","message":{"role":"assistant"}}"#);
    assert_eq!(ModelActor::normalize(&v), "second");
}

#[test]
fn unknown_shape_is_written_out_again() {
    let v = document(r#"{ "done" : true, "reply" : 3 }"#);
    assert_eq!(ModelActor::normalize(&v), r#"{"done":true,"reply":3}"#);
    let v = document("[1, 2]");
    assert_eq!(ModelActor::normalize(&v), "[1,2]");
    let v = document(r#""bare""#);
    assert_eq!(ModelActor::normalize(&v), r#""bare""#);
}

#[test]
fn empty_string_reply_is_a_reply() {
    let v = document(r#"{"message":{"content":""},"reply":"second"}"#);
    assert_eq!(ModelActor::normalize(&v), "");
}

#[test]
fn reply_shape_reads_the_three_parts() {
    let v = document(r#"{"reply":"second","message":{"content":"first"}}"#);
    let shape = ReplyShape::read(&v);
    assert_eq!(shape.message_content, Some("first".to_string()));
    assert_eq!(shape.reply, Some("second".to_string()));
    assert_eq!(shape.raw, r#"{"message":{"content":"first"},"reply":"second"}"#);

    let v = document(r#"{"other":null}"#);
    let shape = ReplyShape::read(&v);
    assert_eq!(shape.message_content, None);
    assert_eq!(shape.reply, None);
    assert_eq!(shape.raw, r#"{"other":null}"#);
}

#[test]
fn reply_shape_picks_by_priority() {
    let shape = ReplyShape {
        message_content: Some("a".to_string()),
        reply: Some("b".to_string()),
        raw: "c".to_string(),
    };
    assert_eq!(shape.text(), "a");
    let shape = ReplyShape { message_content: None, reply: Some("b".to_string()), raw: "c".to_string() };
    assert_eq!(shape.text(), "b");
    let shape = ReplyShape { message_content: None, reply: None, raw: "c".to_string() };
    assert_eq!(shape.text(), "c");
}

#[test]
fn failure_status_gives_the_echo() {
    let actor = actor("http://localhost:11434");
    let msg = task("s1", "mistral", "hi");
    let echo = actor.handle(&msg, &Upstream::Unreachable);
    assert_eq!(echo, Ok("(dev echo) session=s1 model=mistral -> hi".to_string()));
    for status in [100u16, 199, 300, 301, 404, 500, 503] {
        let result = actor.handle(&msg, &answered(status, r#"{"reply":"ignored"}"#));
        assert_eq!(result, echo);
    }
}

#[test]
fn every_success_status_is_normalised() {
    let actor = actor("http://localhost:11434");
    let msg = task("s1", "mistral", "hi");
    for status in [200u16, 201, 204, 299] {
        let result = actor.handle(&msg, &answered(status, r#"{"reply":"used"}"#));
        assert_eq!(result, Ok("used".to_string()));
    }
}

#[test]
fn body_that_is_no_json_is_an_error() {
    let actor = actor("http://localhost:11434");
    let msg = task("s1", "mistral", "hi");
    let result = actor.handle(&msg, &answered(200, ""));
    assert_eq!(result, Err("EOF while parsing a value at line 1 column 0".to_string()));
    let result = actor.handle(&msg, &answered(200, "{\"reply\":"));
    assert_eq!(result, Err("EOF while parsing a value at line 1 column 9".to_string()));
}

#[test]
fn body_that_is_no_json_is_no_error_under_a_failure_status() {
    let actor = actor("http://localhost:11434");
    let msg = task("s1", "mistral", "hi");
    let result = actor.handle(&msg, &answered(500, "<html>"));
    assert_eq!(result, Ok("(dev echo) session=s1 model=mistral -> hi".to_string()));
}

#[test]
fn request_has_one_user_message() {
    let msg = task("s1", "mistral", "hi");
    let request = ModelActor::request_for(&msg);
    assert_eq!(request.model, "mistral");
    assert_eq!(request.messages.len(), 1);
    assert_eq!(request.messages[0].role, "user");
    assert_eq!(request.messages[0].content, "hi");
    assert!(!request.stream);
}

#[test]
fn payload_has_the_exact_text() {
    let msg = task("s1", "mistral", "hi");
    assert_eq!(
        ModelActor::payload(&msg),
        r#"{"model":"mistral","messages":[{"role":"user","content":"hi"}],"stream":false}"#
    );
}

#[test]
fn payload_escapes_its_strings() {
    let msg = task("s1", "mi\"stral", "line one\nsaid \"two\" \\ end");
    let payload = ModelActor::payload(&msg);
    assert_eq!(
        payload,
        "{\"model\":\"mi\\\"stral\",\"messages\":[{\"role\":\"user\",\"content\":\"line one\\nsaid \\\"two\\\" \\\\ end\"}],\"stream\":false}"
    );
    let back = document(&payload);
    assert_eq!(back["model"].as_str(), Some("mi\"stral"));
    assert_eq!(back["messages"][0]["content"].as_str(), Some("line one\nsaid \"two\" \\ end"));
    assert_eq!(back["stream"].as_bool(), Some(false));
}

#[test]
fn request_text_joins_its_messages() {
    let none = OllamaRequest { model: "m".to_string(), messages: Vec::new(), stream: true };
    assert_eq!(none.to_json(), r#"{"model":"m","messages":[],"stream":true}"#);
    let two = OllamaRequest {
        model: "m".to_string(),
        messages: vec![
            OllamaMessage { role: "user".to_string(), content: "a".to_string() },
            OllamaMessage { role: "assistant".to_string(), content: "b".to_string() },
        ],
        stream: false,
    };
    assert_eq!(
        two.to_json(),
        r#"{"model":"m","messages":[{"role":"user","content":"a"},{"role":"assistant","content":"b"}],"stream":false}"#
    );
}

#[test]
fn decode_of_a_document_and_of_an_error() {
    let parsed = serde_json::from_str::<serde_json::Value>(r#"{"reply":"from reply"}"#);
    assert_eq!(ModelActor::decode(parsed), Ok("from reply".to_string()));
    let parsed = serde_json::from_str::<serde_json::Value>("[1,");
    assert_eq!(
        ModelActor::decode(parsed),
        Err("EOF while parsing a value at line 1 column 3".to_string())
    );
}

#[test]
fn base_url_falls_back_to_the_local_server() {
    assert_eq!(ModelActor::base_url_or_default(None), "http://localhost:11434");
    assert_eq!(
        ModelActor::base_url_or_default(Some("http://10.0.0.2:8000".to_string())),
        "http://10.0.0.2:8000"
    );
    assert_eq!(ModelActor::base_url_or_default(Some(String::new())), "");
}
