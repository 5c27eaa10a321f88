use llm_sdk::chat::{
    AssistantMessage, ChatCompletionMessage, ChatCompletionRequestBuilder, FunctionCall,
    FunctionInfo, Tool, ToolCall, ToolChoice, ToolType,
};
use llm_sdk::image::{CreateImageRequest, CreateImageRequestBuilder, ImageQuality, ImageStyle};
use llm_sdk::json::JsonValue;

fn to_value(s: &str) -> serde_json::Value {
    serde_json::from_str(s).unwrap()
}

#[test]
fn chat_completion_request_tool_choice_function_serialize_should_work() {
    let req = ChatCompletionRequestBuilder::default()
        .tool_choice(ToolChoice::Function {
            name: "my_function".to_string(),
        })
        .messages(vec![])
        .build()
        .unwrap();
    let json = to_value(&req.to_body());
    assert_eq!(
        json,
        to_value(
            r#"{
                "messages": [],
                "tool_choice": {
                    "type": "function",
                    "function": {
                        "name": "my_function"
                    }
                }
            }"#
        )
    )
}

#[test]
fn chat_completion_request_tool_choice_auto_serialize_should_work() {
    let req = ChatCompletionRequestBuilder::default()
        .tool_choice(ToolChoice::Auto)
        .messages(vec![])
        .build()
        .unwrap();
    let json = to_value(&req.to_body());
    assert_eq!(
        json,
        to_value(
            r#"{
                "messages": [],
                "tool_choice": "auto"
            }"#
        )
    )
}

#[test]
fn chat_completion_request_serialize_should_work() {
    let messages = vec![
        ChatCompletionMessage::new_system("I can answer any question you ask me.", ""),
        ChatCompletionMessage::new_user("What is human life expectancy in the world?", "user1"),
    ];
    let req = ChatCompletionRequestBuilder::default()
        .tool_choice(ToolChoice::Auto)
        .messages(messages)
        .build()
        .unwrap();
    let json = to_value(&req.to_body());
    assert_eq!(
        json,
        to_value(
            r#"{
                "messages": [{
                    "role": "system",
                    "content": "I can answer any question you ask me."
                },
                {
                    "role": "user",
                    "content": "What is human life expectancy in the world?",
                    "name": "user1"
                }],
                "tool_choice": "auto"
            }"#
        )
    )
}

#[test]
fn create_image_request_shoud_serialize() {
    let req = CreateImageRequest::new("hello world");
    assert_eq!(
        to_value(&req.to_body()),
        to_value(
            r#"{
                "prompt": "hello world",
                "model": "dall-e-3"
            }"#
        )
    );
}

#[test]
fn create_image_request_custom_shoud_serialize() {
    let req = CreateImageRequestBuilder::default()
        .prompt("hello world")
        .quality(ImageQuality::Hd)
        .style(ImageStyle::Natural)
        .build()
        .unwrap();
    assert_eq!(
        to_value(&req.to_body()),
        to_value(
            r#"{
                "prompt": "hello world",
                "model": "dall-e-3",
                "quality": "hd",
                "style": "natural"
            }"#
        )
    );
}

#[test]
fn chat_request_serialize_exact_text() {
    let messages = vec![
        ChatCompletionMessage::new_system("I can answer any question you ask me.", ""),
        ChatCompletionMessage::new_user("What is human life expectancy in the world?", "user1"),
    ];
    let req = ChatCompletionRequestBuilder::default()
        .tool_choice(ToolChoice::Auto)
        .messages(messages)
        .build()
        .unwrap();
    assert_eq!(
        req.to_body(),
        r#"{"messages":[{"role":"system","content":"I can answer any question you ask me."},{"role":"user","content":"What is human life expectancy in the world?","name":"user1"}],"tool_choice":"auto"}"#
    );
}

#[test]
fn image_request_new_serialize_exact_text() {
    let req = CreateImageRequest::new("hello world");
    assert_eq!(req.to_body(), r#"{"prompt":"hello world","model":"dall-e-3"}"#);
}

#[test]
fn image_request_custom_includes_quality_and_style() {
    let req = CreateImageRequestBuilder::default()
        .prompt("hello world")
        .quality(ImageQuality::Hd)
        .style(ImageStyle::Natural)
        .build()
        .unwrap();
    assert_eq!(
        req.to_body(),
        r#"{"prompt":"hello world","model":"dall-e-3","quality":"hd","style":"natural"}"#
    );
}

#[test]
fn message_empty_name_omitted() {
    let m = ChatCompletionMessage::new_system("hi", "");
    assert_eq!(m.to_json().render(), r#"{"role":"system","content":"hi"}"#);
    let m = ChatCompletionMessage::new_user("hi", "");
    assert_eq!(m.to_json().render(), r#"{"role":"user","content":"hi"}"#);
}

#[test]
fn tool_message_serializes_with_tool_call_id() {
    let m = ChatCompletionMessage::Tool(llm_sdk::chat::ToolMessage {
        content: "42".to_string(),
        tool_call_id: "call_1".to_string(),
    });
    assert_eq!(
        m.to_json().render(),
        r#"{"role":"tool","content":"42","tool_call_id":"call_1"}"#
    );
}

#[test]
fn assistant_tool_calls_serialized_when_nonempty() {
    let empty = ChatCompletionMessage::Assistant(AssistantMessage {
        content: "ok".to_string(),
        name: None,
        tool_calls: vec![],
    });
    assert_eq!(empty.to_json().render(), r#"{"role":"assistant","content":"ok"}"#);

    let with_call = ChatCompletionMessage::Assistant(AssistantMessage {
        content: "".to_string(),
        name: None,
        tool_calls: vec![ToolCall {
            id: "call_1".to_string(),
            tool_type: ToolType::Function,
            function: FunctionCall {
                name: "f".to_string(),
                arguments: "{}".to_string(),
            },
        }],
    });
    assert_eq!(
        with_call.to_json().render(),
        r#"{"role":"assistant","content":"","tool_calls":[{"id":"call_1","type":"function","function":{"name":"f","arguments":"{}"}}]}"#
    );
}

#[test]
fn function_tool_serialization() {
    let tool = Tool {
        tool_type: ToolType::Function,
        function: FunctionInfo {
            description: Some("adds numbers".to_string()),
            name: "add".to_string(),
            parameters: JsonValue::Obj(vec![(
                "type".to_string(),
                JsonValue::Str("object".to_string()),
            )]),
        },
    };
    assert_eq!(
        tool.to_json().render(),
        r#"{"type":"function","function":{"description":"adds numbers","name":"add","parameters":{"type":"object"}}}"#
    );

    let no_description = Tool {
        tool_type: ToolType::Function,
        function: FunctionInfo {
            description: None,
            name: "add".to_string(),
            parameters: JsonValue::Null,
        },
    };
    assert_eq!(
        no_description.to_json().render(),
        r#"{"type":"function","function":{"name":"add","parameters":null}}"#
    );
}

#[test]
fn render_escapes_string_content() {
    let v = JsonValue::Str("a\"b\\c\nd\te\u{1}".to_string());
    assert_eq!(v.render(), "\"a\\\"b\\\\c\\nd\\te\\u0001\"");
    let parsed: serde_json::Value = serde_json::from_str(&v.render()).unwrap();
    assert_eq!(parsed, serde_json::Value::String("a\"b\\c\nd\te\u{1}".to_string()));
}

#[test]
fn render_number_digits() {
    assert_eq!(JsonValue::Num(0).render(), "0");
    assert_eq!(JsonValue::Num(1024).render(), "1024");
    assert_eq!(JsonValue::Num(18446744073709551615).render(), "18446744073709551615");
    assert_eq!(JsonValue::Bool(true).render(), "true");
    assert_eq!(JsonValue::Arr(vec![JsonValue::Num(1), JsonValue::Num(2)]).render(), "[1,2]");
}
