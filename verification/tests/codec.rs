use llm_sdk::chat::{ChatCompleteModel, ChatResponseFormat, FinishReason, ToolType};
use llm_sdk::image::{ImageModel, ImageQuality, ImageResponseFormat, ImageSize, ImageStyle};

#[test]
fn codec_roundtrips_all_families() {
    for m in [
        ChatCompleteModel::Gpt3Turbo,
        ChatCompleteModel::Gpt3TurboInstruct,
        ChatCompleteModel::Gpt4Turbo,
        ChatCompleteModel::Gpt4TurboVision,
    ] {
        assert_eq!(ChatCompleteModel::from_wire(m.wire_name()), Some(m));
    }
    for f in [ChatResponseFormat::Text, ChatResponseFormat::Json] {
        assert_eq!(ChatResponseFormat::from_wire(f.wire_name()), Some(f));
    }
    assert_eq!(ToolType::from_wire(ToolType::Function.wire_name()), Some(ToolType::Function));
    for r in [
        FinishReason::Stop,
        FinishReason::Length,
        FinishReason::ContentFilter,
        FinishReason::ToolCalls,
    ] {
        assert_eq!(FinishReason::from_wire(r.wire_name()), Some(r));
    }
    assert_eq!(ImageModel::from_wire(ImageModel::DallE3.wire_name()), Some(ImageModel::DallE3));
    for q in [ImageQuality::Standard, ImageQuality::Hd] {
        assert_eq!(ImageQuality::from_wire(q.wire_name()), Some(q));
    }
    for f in [ImageResponseFormat::Url, ImageResponseFormat::B64Json] {
        assert_eq!(ImageResponseFormat::from_wire(f.wire_name()), Some(f));
    }
    for s in [ImageSize::Large, ImageSize::LargeWide, ImageSize::LargeTall] {
        assert_eq!(ImageSize::from_wire(s.wire_name()), Some(s));
    }
    for s in [ImageStyle::Vivid, ImageStyle::Natural] {
        assert_eq!(ImageStyle::from_wire(s.wire_name()), Some(s));
    }
}

#[test]
fn codec_rejects_unknown_tokens() {
    assert_eq!(FinishReason::from_wire("banana"), None);
    assert_eq!(FinishReason::from_wire(""), None);
    assert_eq!(ChatCompleteModel::from_wire("gpt-5"), None);
    assert_eq!(ChatResponseFormat::from_wire("json"), None);
    assert_eq!(ToolType::from_wire("tool"), None);
    assert_eq!(ImageQuality::from_wire("standard"), None);
    assert_eq!(ImageSize::from_wire("512x512"), None);
    assert_eq!(ImageStyle::from_wire("Vivid"), None);
}

#[test]
fn finish_reason_tokens_exact() {
    assert_eq!(FinishReason::Stop.wire_name(), "stop");
    assert_eq!(FinishReason::Length.wire_name(), "length");
    assert_eq!(FinishReason::ContentFilter.wire_name(), "content_filter");
    assert_eq!(FinishReason::ToolCalls.wire_name(), "tool_calls");
    assert_eq!(ChatCompleteModel::Gpt3Turbo.wire_name(), "gpt-3.5-turbo-1106");
    assert_eq!(ImageQuality::Standard.wire_name(), "default");
    assert_eq!(ImageSize::Large.wire_name(), "1024x1024");
}

#[test]
fn codec_defaults_declared() {
    assert_eq!(ChatCompleteModel::default(), ChatCompleteModel::Gpt3Turbo);
    assert_eq!(ChatResponseFormat::default(), ChatResponseFormat::Json);
    assert_eq!(ToolType::default(), ToolType::Function);
    assert_eq!(FinishReason::default(), FinishReason::Stop);
    assert_eq!(ImageModel::default(), ImageModel::DallE3);
    assert_eq!(ImageQuality::default(), ImageQuality::Standard);
    assert_eq!(ImageResponseFormat::default(), ImageResponseFormat::Url);
    assert_eq!(ImageSize::default(), ImageSize::Large);
    assert_eq!(ImageStyle::default(), ImageStyle::Vivid);
}
