use tellme::json::{JsonNumber, JsonValue};
use tellme::probe::{judge_reply, server_status, usage_counts, ChatReply, Feature, ModelsReply, UsageCounts};

fn s(text: &str) -> JsonValue {
    JsonValue::String(text.to_string())
}

fn n(v: u64) -> JsonValue {
    JsonValue::Number(JsonNumber::PosInt(v))
}

fn obj(entries: Vec<(&str, JsonValue)>) -> JsonValue {
    JsonValue::Object(entries.into_iter().map(|(k, v)| (k.to_string(), v)).collect())
}

fn answer_with_message(message: JsonValue) -> JsonValue {
    obj(vec![
        ("choices", JsonValue::Array(vec![obj(vec![("message", message)])])),
        ("usage", obj(vec![("prompt_tokens", n(279)), ("completion_tokens", n(60)), ("total_tokens", n(339))])),
    ])
}

#[test]
fn server_status_reads_first_model() {
    let body = obj(vec![(
        "data",
        JsonValue::Array(vec![obj(vec![("id", s("qwen/qwen3.6-27b"))]), obj(vec![("id", s("other"))])]),
    )]);
    assert_eq!(server_status(&ModelsReply::Answered(Some(body))), (Some("qwen/qwen3.6-27b".to_string()), true));
}

#[test]
fn server_status_without_model_list() {
    assert_eq!(server_status(&ModelsReply::Answered(None)), (None, false));
    assert_eq!(server_status(&ModelsReply::Answered(Some(obj(vec![])))), (None, false));
    assert_eq!(server_status(&ModelsReply::Answered(Some(s("OK")))), (None, false));
    let not_a_list = obj(vec![("data", obj(vec![("id", s("m"))]))]);
    assert_eq!(server_status(&ModelsReply::Answered(Some(not_a_list))), (None, false));
}

#[test]
fn server_status_with_empty_or_odd_list() {
    let empty = obj(vec![("data", JsonValue::Array(vec![]))]);
    assert_eq!(server_status(&ModelsReply::Answered(Some(empty))), (None, true));
    let numeric_id = obj(vec![("data", JsonValue::Array(vec![obj(vec![("id", n(7))])]))]);
    assert_eq!(server_status(&ModelsReply::Answered(Some(numeric_id))), (None, true));
}

#[test]
fn server_status_unreachable_or_refused() {
    assert_eq!(server_status(&ModelsReply::Unreachable), (None, false));
    assert_eq!(server_status(&ModelsReply::Refused), (None, false));
}

#[test]
fn tool_calls_detected() {
    let message = obj(vec![("tool_calls", JsonValue::Array(vec![obj(vec![("id", s("call_1"))])]))]);
    let report = judge_reply(Feature::ToolCall, &ChatReply::Answered(answer_with_message(message)));
    assert!(report.ok);
    assert_eq!(report.detail, None);
    assert_eq!(report.reply, None);
    assert_eq!(
        report.usage,
        Some(UsageCounts { prompt_tokens: 279, completion_tokens: 60, total_tokens: 339 })
    );
}

#[test]
fn empty_tool_calls_not_detected() {
    let message = obj(vec![("tool_calls", JsonValue::Array(vec![])), ("content", s("晴"))]);
    let report = judge_reply(Feature::ToolCall, &ChatReply::Answered(answer_with_message(message)));
    assert!(!report.ok);
    assert_eq!(report.detail, Some("模型未返回 tool_calls，可能未配置 tool-call-parser".to_string()));
    let missing = judge_reply(Feature::ToolCall, &ChatReply::Answered(answer_with_message(obj(vec![]))));
    assert!(!missing.ok);
}

#[test]
fn reasoning_detected_from_either_field() {
    let first = obj(vec![("reasoning_content", s("9.9 > 9.11"))]);
    assert!(judge_reply(Feature::Reasoning, &ChatReply::Answered(answer_with_message(first))).ok);
    let second = obj(vec![("reasoning", s("step by step"))]);
    assert!(judge_reply(Feature::Reasoning, &ChatReply::Answered(answer_with_message(second))).ok);
    let empty_text = obj(vec![("reasoning", s(""))]);
    assert!(judge_reply(Feature::Reasoning, &ChatReply::Answered(answer_with_message(empty_text))).ok);
}

#[test]
fn reasoning_missing() {
    let message = obj(vec![("content", s("9.9")), ("reasoning_content", JsonValue::Null)]);
    let report = judge_reply(Feature::Reasoning, &ChatReply::Answered(answer_with_message(message)));
    assert!(!report.ok);
    assert_eq!(
        report.detail,
        Some("响应中未发现 reasoning_content 或 reasoning 字段，可能模型不支持推理或未配置 --reasoning-parser".to_string())
    );
}

#[test]
fn vision_reply_shown() {
    let message = obj(vec![("content", s("A red circle."))]);
    let report = judge_reply(Feature::Vision, &ChatReply::Answered(answer_with_message(message)));
    assert!(report.ok);
    assert_eq!(report.reply, Some("A red circle.".to_string()));
    assert_eq!(report.detail, None);
}

#[test]
fn vision_empty_reply() {
    let message = obj(vec![("content", s(""))]);
    let report = judge_reply(Feature::Vision, &ChatReply::Answered(answer_with_message(message)));
    assert!(!report.ok);
    assert_eq!(report.reply, None);
    assert_eq!(report.detail, Some("模型返回了空响应，可能不支持视觉输入".to_string()));
}

#[test]
fn error_member_reported() {
    let body = obj(vec![("error", obj(vec![("message", s("model not found"))]))]);
    let report = judge_reply(Feature::ToolCall, &ChatReply::Answered(body));
    assert!(!report.ok);
    assert_eq!(report.detail, Some("model not found".to_string()));
    assert_eq!(report.usage, None);
    let odd = obj(vec![("error", JsonValue::Null), ("usage", obj(vec![]))]);
    let report = judge_reply(Feature::Vision, &ChatReply::Answered(odd));
    assert_eq!(report.detail, Some("未知错误".to_string()));
    assert_eq!(report.usage, None);
}

#[test]
fn transport_failures_reported() {
    let sent = judge_reply(Feature::Reasoning, &ChatReply::SendFailed("connection refused".to_string()));
    assert!(!sent.ok);
    assert_eq!(sent.detail, Some("请求失败: connection refused".to_string()));
    let read = judge_reply(Feature::Vision, &ChatReply::Unreadable("expected value".to_string()));
    assert_eq!(read.detail, Some("响应解析失败: expected value".to_string()));
    assert_eq!(read.usage, None);
    assert_eq!(read.reply, None);
}

#[test]
fn usage_counts_default_to_zero() {
    let usage = obj(vec![("completion_tokens", n(12)), ("prompt_tokens", s("5")), ("total_tokens", JsonValue::Number(JsonNumber::Float))]);
    assert_eq!(usage_counts(&usage), UsageCounts { prompt_tokens: 0, completion_tokens: 12, total_tokens: 0 });
    assert_eq!(usage_counts(&JsonValue::Null), UsageCounts { prompt_tokens: 0, completion_tokens: 0, total_tokens: 0 });
}

#[test]
fn null_usage_still_reported() {
    let body = obj(vec![
        ("choices", JsonValue::Array(vec![obj(vec![("message", obj(vec![("content", s("hi"))]))])])),
        ("usage", JsonValue::Null),
    ]);
    let report = judge_reply(Feature::Vision, &ChatReply::Answered(body));
    assert_eq!(report.usage, Some(UsageCounts { prompt_tokens: 0, completion_tokens: 0, total_tokens: 0 }));
}

#[test]
fn first_key_occurrence_wins() {
    let value = JsonValue::Object(vec![
        ("a".to_string(), s("first")),
        ("a".to_string(), s("second")),
    ]);
    assert_eq!(value.get("a").and_then(|v| v.as_str()), Some("first"));
    assert!(value.get("b").is_none());
    assert!(s("x").get("a").is_none());
    assert_eq!(n(5).as_u64(), Some(5));
    assert_eq!(JsonValue::Number(JsonNumber::NegInt(-1)).as_u64(), None);
}
