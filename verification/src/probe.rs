//! How the prober judges the server's answers.
use vstd::prelude::*;
use crate::json::{
    JsonNumber, deref_opt, element, member, spec_array_len, spec_as_str, spec_as_u64, spec_element, spec_get,
    spec_member, JsonValue,
};

verus! {

/// What came back from the model list request.
#[derive(Debug)]
pub enum ModelsReply {
    /// The request could not be sent or got no answer.
    Unreachable,
    /// The server answered with a status that is not a success.
    Refused,
    /// The server answered with a success status; the body as JSON, if it was JSON.
    Answered(Option<JsonValue>),
}

/// The id of the first model in a model list body (`data[0].id`), if it is a string.
pub open spec fn spec_first_model_id(body: JsonValue) -> Option<Seq<char>> {
    spec_as_str(spec_member(spec_element(spec_member(Some(body), "data"@), 0), "id"@))
}

/// Whether a body is a model list: a JSON object with a `data` array.
pub open spec fn spec_is_model_list(body: JsonValue) -> bool {
    spec_array_len(spec_get(body, "data"@)) is Some
}

/// What the server check concludes: the model that the server lists first
/// (if it could tell), and whether the server passed the check, that is,
/// answered with a success status and a model list.
pub open spec fn spec_server_status(reply: ModelsReply) -> (Option<Seq<char>>, bool) {
    match reply {
        ModelsReply::Answered(Some(body)) => if spec_is_model_list(body) {
            (spec_first_model_id(body), true)
        } else {
            (None, false)
        },
        _ => (None, false),
    }
}

/// Judges the answer to the model list request: the server passes when it
/// answers with a success status and a model list (a `data` array), and the
/// first listed model id is reported when the list carries one.
pub fn server_status(reply: &ModelsReply) -> (res: (Option<String>, bool))
    ensures
        res.1 == spec_server_status(*reply).1,
        match res.0 {
            Some(id) => spec_server_status(*reply).0 == Some(id@),
            None => spec_server_status(*reply).0 is None,
        },
{
    match reply {
        ModelsReply::Unreachable => (None, false),
        ModelsReply::Refused => (None, false),
        ModelsReply::Answered(None) => (None, false),
        ModelsReply::Answered(Some(body)) => {
            let data = member(Some(body), "data");
            match data {
                Some(JsonValue::Array(_)) => {},
                _ => {
                    return (None, false);
                },
            }
            let first = element(data, 0);
            let id = member(first, "id");
            match id {
                Some(v) => match v.as_str() {
                    Some(s) => (Some(s.to_owned()), true),
                    None => (None, true),
                },
                None => (None, true),
            }
        },
    }
}

/// The capabilities that the prober checks.
#[derive(Debug, Clone, Copy, PartialEq, Eq, Structural)]
pub enum Feature {
    ToolCall,
    Reasoning,
    Vision,
}

/// What came back from a chat completion request.
#[derive(Debug)]
pub enum ChatReply {
    /// The request failed; the error's text.
    SendFailed(String),
    /// The answer's body was not JSON; the error's text.
    Unreadable(String),
    /// The answer's body.
    Answered(JsonValue),
}

/// Token counts that the server reports; a missing count is 0.
#[derive(Debug, Clone, Copy, PartialEq, Eq, Structural)]
pub struct UsageCounts {
    pub prompt_tokens: u64,
    pub completion_tokens: u64,
    pub total_tokens: u64,
}

/// The verdict on one capability.
#[derive(Debug)]
pub struct FeatureReport {
    /// Whether the capability was detected.
    pub ok: bool,
    /// A hint shown when it was not.
    pub detail: Option<String>,
    /// The server's token counts, when the answer carried a `usage` member.
    pub usage: Option<UsageCounts>,
    /// The model's reply, shown for the vision check.
    pub reply: Option<String>,
}

/// A verdict seen as plain values.
pub struct ReportView {
    pub ok: bool,
    pub detail: Option<Seq<char>>,
    pub usage: Option<UsageCounts>,
    pub reply: Option<Seq<char>>,
}

/// The text of an optional string.
pub open spec fn opt_view(s: Option<String>) -> Option<Seq<char>> {
    match s {
        Some(x) => Some(x@),
        None => None,
    }
}

impl View for FeatureReport {
    type V = ReportView;

    open spec fn view(&self) -> ReportView {
        ReportView {
            ok: self.ok,
            detail: opt_view(self.detail),
            usage: self.usage,
            reply: opt_view(self.reply),
        }
    }
}

/// The message of the first choice of an answer.
pub open spec fn spec_reply_message(body: JsonValue) -> Option<JsonValue> {
    spec_member(spec_element(spec_member(Some(body), "choices"@), 0), "message"@)
}

/// The text of the first choice's reply, empty when there is none.
pub open spec fn spec_reply_content(body: JsonValue) -> Seq<char> {
    match spec_as_str(spec_member(spec_reply_message(body), "content"@)) {
        Some(c) => c,
        None => Seq::empty(),
    }
}

/// Whether an answer (without an `error` member) shows the capability:
/// a non-empty `tool_calls` array; a string `reasoning_content` or
/// `reasoning`; a non-empty text reply.
pub open spec fn spec_detected(feature: Feature, body: JsonValue) -> bool {
    let message = spec_reply_message(body);
    match feature {
        Feature::ToolCall => match spec_array_len(spec_member(message, "tool_calls"@)) {
            Some(n) => n > 0,
            None => false,
        },
        Feature::Reasoning => spec_as_str(spec_member(message, "reasoning_content"@)) is Some
            || spec_as_str(spec_member(message, "reasoning"@)) is Some,
        Feature::Vision => spec_reply_content(body).len() > 0,
    }
}

/// The hint shown when a capability is not detected.
pub open spec fn spec_missing_hint(feature: Feature) -> Seq<char> {
    match feature {
        Feature::ToolCall => "模型未返回 tool_calls，可能未配置 tool-call-parser"@,
        Feature::Reasoning => "响应中未发现 reasoning_content 或 reasoning 字段，可能模型不支持推理或未配置 --reasoning-parser"@,
        Feature::Vision => "模型返回了空响应，可能不支持视觉输入"@,
    }
}

/// A token count read from a `usage` member, 0 when missing.
pub open spec fn spec_count(usage: Option<JsonValue>, key: Seq<char>) -> u64 {
    match spec_as_u64(spec_member(usage, key)) {
        Some(n) => n,
        None => 0,
    }
}

/// The token counts of a `usage` member.
pub open spec fn spec_usage_counts(usage: JsonValue) -> UsageCounts {
    UsageCounts {
        prompt_tokens: spec_count(Some(usage), "prompt_tokens"@),
        completion_tokens: spec_count(Some(usage), "completion_tokens"@),
        total_tokens: spec_count(Some(usage), "total_tokens"@),
    }
}

/// The verdict on a capability from the answer to its request.
pub open spec fn spec_judge(feature: Feature, reply: ChatReply) -> ReportView {
    match reply {
        ChatReply::SendFailed(e) => ReportView {
            ok: false,
            detail: Some("请求失败: "@ + e@),
            usage: None,
            reply: None,
        },
        ChatReply::Unreadable(e) => ReportView {
            ok: false,
            detail: Some("响应解析失败: "@ + e@),
            usage: None,
            reply: None,
        },
        ChatReply::Answered(body) => match spec_get(body, "error"@) {
            Some(error) => ReportView {
                ok: false,
                detail: Some(
                    match spec_as_str(spec_get(error, "message"@)) {
                        Some(m) => m,
                        None => "未知错误"@,
                    },
                ),
                usage: None,
                reply: None,
            },
            None => {
                let ok = spec_detected(feature, body);
                ReportView {
                    ok,
                    detail: if ok { None } else { Some(spec_missing_hint(feature)) },
                    usage: match spec_get(body, "usage"@) {
                        Some(u) => Some(spec_usage_counts(u)),
                        None => None,
                    },
                    reply: if feature == Feature::Vision && ok {
                        Some(spec_reply_content(body))
                    } else {
                        None
                    },
                }
            },
        },
    }
}

/// The name under which a capability is shown.
pub open spec fn spec_feature_title(feature: Feature) -> Seq<char> {
    match feature {
        Feature::ToolCall => "Tool Call"@,
        Feature::Reasoning => "Reasoning"@,
        Feature::Vision => "Vision"@,
    }
}

/// The panel title of a capability.
pub fn feature_title(feature: Feature) -> (res: &'static str)
    ensures
        res@ == spec_feature_title(feature),
{
    match feature {
        Feature::ToolCall => "Tool Call",
        Feature::Reasoning => "Reasoning",
        Feature::Vision => "Vision",
    }
}

fn missing_hint(feature: Feature) -> (res: String)
    ensures
        res@ == spec_missing_hint(feature),
{
    match feature {
        Feature::ToolCall => "模型未返回 tool_calls，可能未配置 tool-call-parser".to_owned(),
        Feature::Reasoning => "响应中未发现 reasoning_content 或 reasoning 字段，可能模型不支持推理或未配置 --reasoning-parser".to_owned(),
        Feature::Vision => "模型返回了空响应，可能不支持视觉输入".to_owned(),
    }
}

fn count(usage: &JsonValue, key: &str) -> (res: u64)
    ensures
        res == spec_count(Some(*usage), key@),
{
    match usage.get(key) {
        Some(v) => match v.as_u64() {
            Some(n) => n,
            None => 0,
        },
        None => 0,
    }
}

/// Reads the token counts of a `usage` member; a count that is missing or
/// not a non-negative integer is 0.
pub fn usage_counts(usage: &JsonValue) -> (res: UsageCounts)
    ensures
        res == spec_usage_counts(*usage),
{
    UsageCounts {
        prompt_tokens: count(usage, "prompt_tokens"),
        completion_tokens: count(usage, "completion_tokens"),
        total_tokens: count(usage, "total_tokens"),
    }
}

fn reply_message(body: &JsonValue) -> (res: Option<&JsonValue>)
    ensures
        deref_opt(res) == spec_reply_message(*body),
{
    let choices = member(Some(body), "choices");
    let first = element(choices, 0);
    member(first, "message")
}

fn detected(feature: Feature, body: &JsonValue) -> (res: bool)
    ensures
        res == spec_detected(feature, *body),
{
    let message = reply_message(body);
    match feature {
        Feature::ToolCall => match member(message, "tool_calls") {
            Some(JsonValue::Array(calls)) => calls.len() > 0,
            _ => false,
        },
        Feature::Reasoning => {
            let content = match member(message, "reasoning_content") {
                Some(v) => v.as_str().is_some(),
                None => false,
            };
            content || match member(message, "reasoning") {
                Some(v) => v.as_str().is_some(),
                None => false,
            }
        },
        Feature::Vision => match member(message, "content") {
            Some(v) => match v.as_str() {
                Some(c) => c.unicode_len() > 0,
                None => false,
            },
            None => false,
        },
    }
}

fn reply_content(body: &JsonValue) -> (res: String)
    ensures
        res@ == spec_reply_content(*body),
{
    match member(reply_message(body), "content") {
        Some(v) => match v.as_str() {
            Some(c) => c.to_owned(),
            None => String::new(),
        },
        None => String::new(),
    }
}

/// Judges the answer to a capability's request, as the prober shows it:
/// a failed request or an unreadable body is reported with its error; an
/// `error` member with its message; otherwise the capability counts as
/// detected by its own criterion, with the server's token counts.
pub fn judge_reply(feature: Feature, reply: &ChatReply) -> (res: FeatureReport)
    ensures
        res@ == spec_judge(feature, *reply),
{
    match reply {
        ChatReply::SendFailed(e) => {
            let mut detail = "请求失败: ".to_owned();
            detail.append(e.as_str());
            FeatureReport { ok: false, detail: Some(detail), usage: None, reply: None }
        },
        ChatReply::Unreadable(e) => {
            let mut detail = "响应解析失败: ".to_owned();
            detail.append(e.as_str());
            FeatureReport { ok: false, detail: Some(detail), usage: None, reply: None }
        },
        ChatReply::Answered(body) => match body.get("error") {
            Some(error) => {
                let message = match error.get("message") {
                    Some(m) => match m.as_str() {
                        Some(text) => text.to_owned(),
                        None => "未知错误".to_owned(),
                    },
                    None => "未知错误".to_owned(),
                };
                FeatureReport { ok: false, detail: Some(message), usage: None, reply: None }
            },
            None => {
                let ok = detected(feature, body);
                let detail = if ok {
                    None
                } else {
                    Some(missing_hint(feature))
                };
                let usage = match body.get("usage") {
                    Some(u) => Some(usage_counts(u)),
                    None => None,
                };
                let shown = if ok && feature == Feature::Vision {
                    Some(reply_content(body))
                } else {
                    None
                };
                FeatureReport { ok, detail, usage, reply: shown }
            },
        },
    }
}

/// A capability's verdict explains itself exactly when it is negative: a
/// detected capability carries no hint, and every other verdict carries one.
pub proof fn lemma_hint_iff_not_detected(feature: Feature, reply: ChatReply)
    ensures
        spec_judge(feature, reply).ok <==> spec_judge(feature, reply).detail is None,
{
}

/// Only the vision check shows the model's reply, only when vision was
/// detected, and the reply shown is never empty.
pub proof fn lemma_reply_only_for_detected_vision(feature: Feature, reply: ChatReply)
    ensures
        spec_judge(feature, reply).reply is Some ==> {
            &&& feature == Feature::Vision
            &&& spec_judge(feature, reply).ok
            &&& spec_judge(feature, reply).reply.unwrap().len() > 0
        },
        feature == Feature::Vision && spec_judge(feature, reply).ok ==> spec_judge(feature, reply).reply is Some,
{
}

/// Token counts are shown only for an answer that was read and carried no
/// error; a failed request, an unreadable body or an error never shows them.
pub proof fn lemma_usage_only_from_clean_answer(feature: Feature, reply: ChatReply)
    ensures
        spec_judge(feature, reply).usage is Some ==> (reply matches ChatReply::Answered(body) && spec_get(body, "error"@) is None && spec_get(body, "usage"@) is Some),
{
}

/// An answer with an `error` member never counts as a detected capability,
/// whatever else it holds.
pub proof fn lemma_error_answer_fails(feature: Feature, body: JsonValue)
    requires
        spec_get(body, "error"@) is Some,
    ensures
        !spec_judge(feature, ChatReply::Answered(body)).ok,
{
}

/// The server check passes exactly when the server answered with a success
/// status and a model list, and it names a model only when it passes.
pub proof fn lemma_server_status(reply: ModelsReply)
    ensures
        spec_server_status(reply).1 <==> (reply matches ModelsReply::Answered(Some(body)) && spec_is_model_list(body)),
        spec_server_status(reply).0 is Some ==> spec_server_status(reply).1,
{
}

/// The first choice's message of an answer, read member by member:
/// `choices`, its first element, then `message`.
pub open spec fn answer_message(body: JsonValue) -> Option<JsonValue> {
    match spec_get(body, "choices"@) {
        Some(JsonValue::Array(items)) => if items@.len() > 0 {
            spec_get(items@[0], "message"@)
        } else {
            None
        },
        _ => None,
    }
}

/// The text of member `key` of a value, when the value is an object and the
/// member a string.
pub open spec fn text_member(v: Option<JsonValue>, key: Seq<char>) -> Option<Seq<char>> {
    match v {
        Some(x) => match spec_get(x, key) {
            Some(JsonValue::String(s)) => Some(s@),
            _ => None,
        },
        None => None,
    }
}

/// A token count of a `usage` member: the member when it is a non-negative
/// integer, else 0.
pub open spec fn usage_number(usage: JsonValue, key: Seq<char>) -> u64 {
    match spec_get(usage, key) {
        Some(JsonValue::Number(JsonNumber::PosInt(n))) => n,
        _ => 0,
    }
}

proof fn lemma_navigation(body: JsonValue)
    ensures
        spec_reply_message(body) == answer_message(body),
        forall|key: Seq<char>| #![auto] spec_as_str(spec_member(spec_reply_message(body), key)) == text_member(answer_message(body), key),
{
}

/// The reasoning check passes exactly when the first choice's message holds
/// a string `reasoning_content` or a string `reasoning`; what else the
/// message holds (its `content` in particular) does not matter. A failed
/// check carries its hint, a passed one none.
pub proof fn law_reasoning_criterion(body: JsonValue)
    requires
        spec_get(body, "error"@) is None,
    ensures
        spec_judge(Feature::Reasoning, ChatReply::Answered(body)).ok <==> (text_member(answer_message(body), "reasoning_content"@) is Some
            || text_member(answer_message(body), "reasoning"@) is Some),
        spec_judge(Feature::Reasoning, ChatReply::Answered(body)).detail == if spec_judge(
            Feature::Reasoning,
            ChatReply::Answered(body),
        ).ok {
            None
        } else {
            Some("响应中未发现 reasoning_content 或 reasoning 字段，可能模型不支持推理或未配置 --reasoning-parser"@)
        },
        spec_judge(Feature::Reasoning, ChatReply::Answered(body)).reply is None,
{
    lemma_navigation(body);
}

/// Two answers whose messages agree on `reasoning_content` and `reasoning`
/// get the same reasoning verdict, whatever their replies say.
pub proof fn law_reasoning_ignores_reply(a: JsonValue, b: JsonValue)
    requires
        spec_get(a, "error"@) is None,
        spec_get(b, "error"@) is None,
        text_member(answer_message(a), "reasoning_content"@) == text_member(answer_message(b), "reasoning_content"@),
        text_member(answer_message(a), "reasoning"@) == text_member(answer_message(b), "reasoning"@),
    ensures
        spec_judge(Feature::Reasoning, ChatReply::Answered(a)).ok == spec_judge(Feature::Reasoning, ChatReply::Answered(b)).ok,
        spec_judge(Feature::Reasoning, ChatReply::Answered(a)).detail == spec_judge(Feature::Reasoning, ChatReply::Answered(b)).detail,
{
    law_reasoning_criterion(a);
    law_reasoning_criterion(b);
}

/// The tool call check passes exactly when the first choice's message holds
/// a non-empty `tool_calls` array, and then shows no hint.
pub proof fn law_tool_call_criterion(body: JsonValue)
    requires
        spec_get(body, "error"@) is None,
    ensures
        spec_judge(Feature::ToolCall, ChatReply::Answered(body)).ok <==> (match answer_message(body) {
            Some(m) => match spec_get(m, "tool_calls"@) {
                Some(JsonValue::Array(calls)) => calls@.len() > 0,
                _ => false,
            },
            None => false,
        }),
        spec_judge(Feature::ToolCall, ChatReply::Answered(body)).detail == if spec_judge(
            Feature::ToolCall,
            ChatReply::Answered(body),
        ).ok {
            None
        } else {
            Some("模型未返回 tool_calls，可能未配置 tool-call-parser"@)
        },
        spec_judge(Feature::ToolCall, ChatReply::Answered(body)).reply is None,
{
    lemma_navigation(body);
}

/// The vision check passes exactly when the first choice's message holds a
/// non-empty string `content`, and then shows that text as the reply.
pub proof fn law_vision_criterion(body: JsonValue)
    requires
        spec_get(body, "error"@) is None,
    ensures
        spec_judge(Feature::Vision, ChatReply::Answered(body)).ok <==> (text_member(answer_message(body), "content"@) matches Some(c)
            && c.len() > 0),
        spec_judge(Feature::Vision, ChatReply::Answered(body)).reply == if spec_judge(
            Feature::Vision,
            ChatReply::Answered(body),
        ).ok {
            text_member(answer_message(body), "content"@)
        } else {
            None
        },
        spec_judge(Feature::Vision, ChatReply::Answered(body)).detail == if spec_judge(
            Feature::Vision,
            ChatReply::Answered(body),
        ).ok {
            None
        } else {
            Some("模型返回了空响应，可能不支持视觉输入"@)
        },
{
    lemma_navigation(body);
}

/// An answer without an `error` member reports exactly the token counts of
/// its `usage` member, if it has one.
pub proof fn law_usage_counts(feature: Feature, body: JsonValue)
    requires
        spec_get(body, "error"@) is None,
    ensures
        spec_judge(feature, ChatReply::Answered(body)).usage == match spec_get(body, "usage"@) {
            Some(u) => Some(
                UsageCounts {
                    prompt_tokens: usage_number(u, "prompt_tokens"@),
                    completion_tokens: usage_number(u, "completion_tokens"@),
                    total_tokens: usage_number(u, "total_tokens"@),
                },
            ),
            None => None,
        },
{
}

/// An answer with an `error` member fails whatever the capability, with the
/// error's message as its hint (or a generic one when the message is not a
/// string), and shows neither reply nor token counts.
pub proof fn law_error_answer(feature: Feature, body: JsonValue, error: JsonValue)
    requires
        spec_get(body, "error"@) == Some(error),
    ensures
        !spec_judge(feature, ChatReply::Answered(body)).ok,
        spec_judge(feature, ChatReply::Answered(body)).detail == Some(
            match text_member(Some(error), "message"@) {
                Some(m) => m,
                None => "未知错误"@,
            },
        ),
        spec_judge(feature, ChatReply::Answered(body)).usage is None,
        spec_judge(feature, ChatReply::Answered(body)).reply is None,
{
}

/// A request that failed, or an answer that could not be read, fails the
/// check with the error's text behind a fixed prefix.
pub proof fn law_transport_failures(feature: Feature, e: String)
    ensures
        !spec_judge(feature, ChatReply::SendFailed(e)).ok,
        spec_judge(feature, ChatReply::SendFailed(e)).detail == Some("请求失败: "@ + e@),
        !spec_judge(feature, ChatReply::Unreadable(e)).ok,
        spec_judge(feature, ChatReply::Unreadable(e)).detail == Some("响应解析失败: "@ + e@),
        spec_judge(feature, ChatReply::SendFailed(e)).usage is None,
        spec_judge(feature, ChatReply::Unreadable(e)).usage is None,
{
}

/// The server check on a success answer: it passes exactly when the body's
/// `data` member (found by key, wherever it stands) is an array, and names
/// the `id` of that array's first element when it is a string.
pub proof fn law_server_check(body: JsonValue)
    ensures
        spec_server_status(ModelsReply::Answered(Some(body))).1 <==> (spec_get(body, "data"@) matches Some(
            JsonValue::Array(_),
        )),
        spec_server_status(ModelsReply::Answered(Some(body))).0 == match spec_get(body, "data"@) {
            Some(JsonValue::Array(items)) => if items@.len() > 0 {
                text_member(Some(items@[0]), "id"@)
            } else {
                None
            },
            _ => None,
        },
{
}

/// A server that cannot be reached, refuses, or answers with a body that is
/// not JSON fails the check and names no model.
pub proof fn law_server_check_failures()
    ensures
        spec_server_status(ModelsReply::Unreachable) == (None::<Seq<char>>, false),
        spec_server_status(ModelsReply::Refused) == (None::<Seq<char>>, false),
        spec_server_status(ModelsReply::Answered(None)) == (None::<Seq<char>>, false),
{
}

/// Other members of a model list body do not change the server check: a
/// member with another key put in front of the others gives the same result.
pub proof fn law_server_check_ignores_other_members(
    rest: Vec<(String, JsonValue)>,
    more: Vec<(String, JsonValue)>,
    key: String,
    value: JsonValue,
)
    requires
        more@ == seq![(key, value)] + rest@,
        key@ != "data"@,
    ensures
        spec_server_status(ModelsReply::Answered(Some(JsonValue::Object(more)))) == spec_server_status(
            ModelsReply::Answered(Some(JsonValue::Object(rest))),
        ),
{
    assert(more@.drop_first() =~= rest@);
    law_server_check(JsonValue::Object(more));
    law_server_check(JsonValue::Object(rest));
}

} // verus!
