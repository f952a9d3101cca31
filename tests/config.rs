use relay_bot::chat::{ChatMessage, ChatRequest};
use relay_bot::completion::{bearer, prepare_completion, COMPLETIONS_URL};
use relay_bot::config::{Config, ConfigError};

#[test]
fn missing_bot_token_is_fatal() {
    let r = Config::from_values(None, Some("k".to_string()));
    let e = r.err().unwrap();
    assert_eq!(e, ConfigError::MissingBotToken);
    assert_eq!(e.diagnostic(), "Expected a token in the environment");
}

#[test]
fn present_token_is_kept() {
    let c = Config::from_values(Some("tok".to_string()), None).ok().unwrap();
    assert_eq!(c.bot_token(), "tok");
    assert_eq!(c.api_key(), None);
}

#[test]
fn missing_api_key_fails_before_sending() {
    let c = Config::from_values(Some("tok".to_string()), None).ok().unwrap();
    let request = ChatRequest::new("gpt-4o", vec![ChatMessage::new("user", "hi")]);
    let e = prepare_completion(&c, &request).err().unwrap();
    assert_eq!(e, ConfigError::MissingApiKey);
    assert_eq!(e.diagnostic(), "Expected a key in the environment");
}

#[test]
fn completion_post_is_laid_out() {
    let c = Config::from_values(Some("tok".to_string()), Some("sk-1".to_string()))
        .ok()
        .unwrap();
    let request = ChatRequest::new("gpt-4o", vec![ChatMessage::new("user", "hi")]);
    let post = prepare_completion(&c, &request).ok().unwrap();
    assert_eq!(post.url, "https://api.openai.com/v1/chat/completions");
    assert_eq!(post.url, COMPLETIONS_URL);
    assert_eq!(post.authorization, "Bearer sk-1");
    assert_eq!(post.content_type, "application/json");
    assert_eq!(post.body, request.to_json());
    assert_eq!(bearer("x"), "Bearer x");
}
