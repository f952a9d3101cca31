use relay_bot::chat::{ChatMessage, ChatRequest};

fn hi_request() -> ChatRequest {
    ChatRequest::new("gpt-4o", vec![ChatMessage::new("user", "hi")])
}

#[test]
fn request_body_is_exact() {
    assert_eq!(
        hi_request().to_json(),
        r#"{"model":"gpt-4o","messages":[{"role":"user","content":"hi"}]}"#
    );
}

#[test]
fn request_body_round_trips() {
    let body = hi_request().to_json();
    let value: serde_json::Value = serde_json::from_str(&body).unwrap();
    assert_eq!(value["model"].as_str(), Some("gpt-4o"));
    let messages = value["messages"].as_array().unwrap();
    assert_eq!(messages.len(), 1);
    assert_eq!(messages[0]["role"].as_str(), Some("user"));
    assert_eq!(messages[0]["content"].as_str(), Some("hi"));
    assert!(body.find("\"model\"").unwrap() < body.find("\"messages\"").unwrap());
    assert!(body.find("\"role\"").unwrap() < body.find("\"content\"").unwrap());
}

#[test]
fn turn_order_is_kept_and_text_escaped() {
    let request = ChatRequest::new(
        "m",
        vec![
            ChatMessage::new("system", "be \"brief\""),
            ChatMessage::new("user", "line\nbreak"),
            ChatMessage::new("assistant", "ok\\"),
        ],
    );
    let body = request.to_json();
    let value: serde_json::Value = serde_json::from_str(&body).unwrap();
    let messages = value["messages"].as_array().unwrap();
    let roles: Vec<&str> = messages.iter().map(|m| m["role"].as_str().unwrap()).collect();
    assert_eq!(roles, vec!["system", "user", "assistant"]);
    assert_eq!(messages[0]["content"].as_str(), Some("be \"brief\""));
    assert_eq!(messages[1]["content"].as_str(), Some("line\nbreak"));
    assert_eq!(messages[2]["content"].as_str(), Some("ok\\"));
    assert!(body.contains(r#""be \"brief\"""#));
}

#[test]
fn empty_conversation_has_empty_list() {
    let request = ChatRequest::new("m", Vec::new());
    assert_eq!(request.to_json(), r#"{"model":"m","messages":[]}"#);
    assert!(request.messages().is_empty());
}

#[test]
fn accessors_give_back_the_parts() {
    let request = hi_request();
    assert_eq!(request.model(), "gpt-4o");
    assert_eq!(request.messages()[0].role(), "user");
    assert_eq!(request.messages()[0].content(), "hi");
    assert_eq!(
        request.messages()[0].to_json(),
        r#"{"role":"user","content":"hi"}"#
    );
}
