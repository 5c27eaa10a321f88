use llm_sdk::chat::{ChatCompleteModel, ChatCompletionMessage, ChatCompletionRequestBuilder};
use llm_sdk::error::BuildError;
use llm_sdk::image::{CreateImageRequest, CreateImageRequestBuilder, ImageModel};

#[test]
fn builder_missing_messages_fails() {
    let r = ChatCompletionRequestBuilder::default().build();
    match r {
        Err(BuildError::UninitializedField(f)) => assert_eq!(f, "messages"),
        _ => panic!("finalizing without messages must fail naming the field"),
    }
}

#[test]
fn builder_missing_prompt_fails() {
    let r = CreateImageRequestBuilder::default().n(1).build();
    match r {
        Err(e) => assert_eq!(e.field_name(), "prompt"),
        _ => panic!("finalizing without prompt must fail naming the field"),
    }
}

#[test]
fn builder_last_write_wins() {
    let req = ChatCompletionRequestBuilder::default()
        .messages(vec![ChatCompletionMessage::new_user("a", "")])
        .model(ChatCompleteModel::Gpt4Turbo)
        .model(ChatCompleteModel::Gpt3TurboInstruct)
        .build()
        .unwrap();
    assert_eq!(req.model, Some(ChatCompleteModel::Gpt3TurboInstruct));

    let req = ChatCompletionRequestBuilder::default()
        .messages(vec![ChatCompletionMessage::new_user("a", "")])
        .messages(vec![])
        .build()
        .unwrap();
    assert_eq!(req.to_body(), r#"{"messages":[]}"#);
}

#[test]
fn builder_empty_tools_omitted() {
    let req = ChatCompletionRequestBuilder::default()
        .messages(vec![])
        .tools(vec![])
        .build()
        .unwrap();
    assert_eq!(req.to_body(), r#"{"messages":[]}"#);
}

#[test]
fn builder_defaults_image_model() {
    let req = CreateImageRequestBuilder::default()
        .prompt("p")
        .build()
        .unwrap();
    assert_eq!(req.model, ImageModel::DallE3);
}

#[test]
fn new_matches_minimal_builder_output() {
    let by_new = CreateImageRequest::new("hello world").to_body();
    let by_builder = CreateImageRequestBuilder::default()
        .prompt("hello world")
        .build()
        .unwrap()
        .to_body();
    assert_eq!(by_new, by_builder);
}
