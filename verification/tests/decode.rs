use llm_sdk::chat::{ChatCompletionResponse, FinishReason};
use llm_sdk::error::DecodeError;
use llm_sdk::image::CreateImageResponse;
use llm_sdk::json::JsonValue;

fn s(v: &str) -> JsonValue {
    JsonValue::Str(v.to_string())
}

fn obj(members: Vec<(&str, JsonValue)>) -> JsonValue {
    JsonValue::Obj(members.into_iter().map(|(k, v)| (k.to_string(), v)).collect())
}

fn usage() -> JsonValue {
    obj(vec![
        ("completion_tokens", JsonValue::Num(9)),
        ("prompt_tokens", JsonValue::Num(20)),
        ("total_tokens", JsonValue::Num(29)),
    ])
}

fn chat_body(finish_reason: &str) -> JsonValue {
    obj(vec![
        ("id", s("chatcmpl-1")),
        (
            "choices",
            JsonValue::Arr(vec![obj(vec![
                ("finish_reason", s(finish_reason)),
                ("index", JsonValue::Num(0)),
                ("message", obj(vec![("content", s("hello there"))])),
            ])]),
        ),
        ("created", JsonValue::Num(1700000000)),
        ("model", s("gpt-3.5-turbo-1106")),
        ("system_fingerprint", s("fp_44709d6fcb")),
        ("object", s("chat.completion")),
        ("usage", usage()),
        ("unknown_future_field", s("ignored")),
    ])
}

#[test]
fn decode_chat_response_ok() {
    let r = ChatCompletionResponse::from_json(&chat_body("stop")).unwrap();
    assert_eq!(r.id, "chatcmpl-1");
    assert_eq!(r.choices.len(), 1);
    assert_eq!(r.choices[0].finish_reason, FinishReason::Stop);
    assert_eq!(r.choices[0].index, 0);
    assert_eq!(r.choices[0].message.content, "hello there");
    assert_eq!(r.choices[0].message.name, None);
    assert!(r.choices[0].message.tool_calls.is_empty());
    assert_eq!(r.created, 1700000000);
    assert_eq!(r.model, "gpt-3.5-turbo-1106");
    assert_eq!(r.system_fingerprint, "fp_44709d6fcb");
    assert_eq!(r.object, "chat.completion");
    assert_eq!(r.usage.completion_tokens, 9);
    assert_eq!(r.usage.prompt_tokens, 20);
    assert_eq!(r.usage.total_tokens, 29);
}

#[test]
fn decode_chat_response_unknown_finish_reason() {
    match ChatCompletionResponse::from_json(&chat_body("banana")) {
        Err(DecodeError::UnknownToken { field, token }) => {
            assert_eq!(field, "finish_reason");
            assert_eq!(token, "banana");
        }
        other => panic!("an unrecognized token must be told apart, got {:?}", other),
    }
}

#[test]
fn decode_chat_response_missing_field() {
    let body = obj(vec![("choices", JsonValue::Arr(vec![]))]);
    match ChatCompletionResponse::from_json(&body) {
        Err(DecodeError::MissingField(f)) => assert_eq!(f, "id"),
        other => panic!("a missing member must be named, got {:?}", other),
    }
}

#[test]
fn decode_chat_response_malformed_field() {
    let mut members = match chat_body("stop") {
        JsonValue::Obj(m) => m,
        _ => unreachable!(),
    };
    members[0].1 = JsonValue::Num(7);
    match ChatCompletionResponse::from_json(&JsonValue::Obj(members)) {
        Err(DecodeError::Malformed(f)) => assert_eq!(f, "id"),
        other => panic!("a wrong shape must be named, got {:?}", other),
    }
}

#[test]
fn decode_chat_response_empty_choices_ok() {
    let body = obj(vec![
        ("id", s("chatcmpl-2")),
        ("choices", JsonValue::Arr(vec![])),
        ("created", JsonValue::Num(1)),
        ("model", s("m")),
        ("system_fingerprint", s("fp")),
        ("object", s("chat.completion")),
        ("usage", usage()),
    ]);
    let r = ChatCompletionResponse::from_json(&body).unwrap();
    assert_eq!(r.choices.len(), 0);
}

#[test]
fn decode_assistant_tool_calls() {
    let call = obj(vec![
        ("id", s("call_1")),
        ("type", s("function")),
        (
            "function",
            obj(vec![("name", s("get_weather")), ("arguments", s("{\"city\":\"x\"}"))]),
        ),
    ]);
    let body = obj(vec![
        ("id", s("chatcmpl-3")),
        (
            "choices",
            JsonValue::Arr(vec![obj(vec![
                ("finish_reason", s("tool_calls")),
                ("index", JsonValue::Num(0)),
                (
                    "message",
                    obj(vec![("content", s("")), ("tool_calls", JsonValue::Arr(vec![call]))]),
                ),
            ])]),
        ),
        ("created", JsonValue::Num(2)),
        ("model", s("m")),
        ("system_fingerprint", s("fp")),
        ("object", s("chat.completion")),
        ("usage", usage()),
    ]);
    let r = ChatCompletionResponse::from_json(&body).unwrap();
    let calls = &r.choices[0].message.tool_calls;
    assert_eq!(calls.len(), 1);
    assert_eq!(calls[0].id, "call_1");
    assert_eq!(calls[0].function.name, "get_weather");
    assert_eq!(calls[0].function.arguments, "{\"city\":\"x\"}");
}

#[test]
fn decode_image_response_ok() {
    let body = obj(vec![
        ("created", JsonValue::Num(1700000001)),
        (
            "data",
            JsonValue::Arr(vec![obj(vec![
                ("url", s("https://example.com/image.png")),
                ("revised_prompt", s("a caterpillar, watercolor")),
            ])]),
        ),
    ]);
    let r = CreateImageResponse::from_json(&body).unwrap();
    assert_eq!(r.created, 1700000001);
    assert_eq!(r.data.len(), 1);
    assert_eq!(r.data[0].url.as_deref(), Some("https://example.com/image.png"));
    assert_eq!(r.data[0].b64_json, None);
    assert_eq!(r.data[0].revised_prompt, "a caterpillar, watercolor");
}

#[test]
fn decode_image_response_missing_revised_prompt() {
    let body = obj(vec![
        ("created", JsonValue::Num(1)),
        ("data", JsonValue::Arr(vec![obj(vec![("url", s("u"))])])),
    ]);
    match CreateImageResponse::from_json(&body) {
        Err(DecodeError::MissingField(f)) => assert_eq!(f, "revised_prompt"),
        other => panic!("a missing member must be named, got {:?}", other),
    }
}
