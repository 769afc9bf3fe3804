//! The request bodies that the prober sends.
use vstd::prelude::*;
use crate::json::{JsonNumber, JsonValue, JsonView};
use crate::probe::Feature;
use crate::endpoint::{chat_completions_url, model_name_or_default, spec_endpoint, spec_model_name};

verus! {

/// The views of a list of values.
pub open spec fn views(items: Seq<JsonValue>) -> Seq<JsonView> {
    items.map_values(|x: JsonValue| x.view_json())
}

/// The views of a list of members.
pub open spec fn member_views(entries: Seq<(String, JsonValue)>) -> Seq<(Seq<char>, JsonView)> {
    entries.map_values(|e: (String, JsonValue)| (e.0@, e.1.view_json()))
}

fn json_text(s: &str) -> (res: JsonValue)
    ensures
        res.view_json() == JsonView::Str(s@),
{
    JsonValue::String(s.to_owned())
}

fn json_array(items: Vec<JsonValue>) -> (res: JsonValue)
    ensures
        res.view_json() == JsonView::Array(views(items@)),
{
    let ghost v = items@;
    let res = JsonValue::Array(items);
    proof {
        match res.view_json() {
            JsonView::Array(s) => {
                assert(s =~= views(v));
            },
            _ => {},
        }
    }
    res
}

fn json_object(entries: Vec<(String, JsonValue)>) -> (res: JsonValue)
    ensures
        res.view_json() == JsonView::Object(member_views(entries@)),
{
    let ghost v = entries@;
    let res = JsonValue::Object(entries);
    proof {
        match res.view_json() {
            JsonView::Object(s) => {
                assert(s =~= member_views(v));
            },
            _ => {},
        }
    }
    res
}

fn json_object1(k0: &str, v0: JsonValue) -> (res: JsonValue)
    ensures
        res.view_json() == JsonView::Object(seq![(k0@, v0.view_json())]),
{
    let ghost g0 = v0.view_json();
    let mut entries: Vec<(String, JsonValue)> = Vec::new();
    entries.push((k0.to_owned(), v0));
    proof {
        assert(member_views(entries@) =~= seq![(k0@, g0)]);
    }
    json_object(entries)
}

fn json_object2(k0: &str, v0: JsonValue, k1: &str, v1: JsonValue) -> (res: JsonValue)
    ensures
        res.view_json() == JsonView::Object(seq![(k0@, v0.view_json()), (k1@, v1.view_json())]),
{
    let ghost g0 = v0.view_json();
    let ghost g1 = v1.view_json();
    let mut entries: Vec<(String, JsonValue)> = Vec::new();
    entries.push((k0.to_owned(), v0));
    entries.push((k1.to_owned(), v1));
    proof {
        assert(member_views(entries@) =~= seq![(k0@, g0), (k1@, g1)]);
    }
    json_object(entries)
}

fn json_object3(k0: &str, v0: JsonValue, k1: &str, v1: JsonValue, k2: &str, v2: JsonValue) -> (res: JsonValue)
    ensures
        res.view_json() == JsonView::Object(
            seq![(k0@, v0.view_json()), (k1@, v1.view_json()), (k2@, v2.view_json())],
        ),
{
    let ghost g0 = v0.view_json();
    let ghost g1 = v1.view_json();
    let ghost g2 = v2.view_json();
    let mut entries: Vec<(String, JsonValue)> = Vec::new();
    entries.push((k0.to_owned(), v0));
    entries.push((k1.to_owned(), v1));
    entries.push((k2.to_owned(), v2));
    proof {
        assert(member_views(entries@) =~= seq![(k0@, g0), (k1@, g1), (k2@, g2)]);
    }
    json_object(entries)
}

fn json_array1(v0: JsonValue) -> (res: JsonValue)
    ensures
        res.view_json() == JsonView::Array(seq![v0.view_json()]),
{
    let ghost g0 = v0.view_json();
    let mut items: Vec<JsonValue> = Vec::new();
    items.push(v0);
    proof {
        assert(views(items@) =~= seq![g0]);
    }
    json_array(items)
}

fn json_array2(v0: JsonValue, v1: JsonValue) -> (res: JsonValue)
    ensures
        res.view_json() == JsonView::Array(seq![v0.view_json(), v1.view_json()]),
{
    let ghost g0 = v0.view_json();
    let ghost g1 = v1.view_json();
    let mut items: Vec<JsonValue> = Vec::new();
    items.push(v0);
    items.push(v1);
    proof {
        assert(views(items@) =~= seq![g0, g1]);
    }
    json_array(items)
}

/// A chat message from the user with the given content.
pub open spec fn spec_user_message(content: JsonView) -> JsonView {
    JsonView::Object(seq![("role"@, JsonView::Str("user"@)), ("content"@, content)])
}

fn user_message(content: JsonValue) -> (res: JsonValue)
    ensures
        res.view_json() == spec_user_message(content.view_json()),
{
    json_object2("role", json_text("user"), "content", content)
}

/// The `get_weather` tool offered in the tool call check.
pub open spec fn spec_weather_tools() -> JsonView {
    JsonView::Array(
        seq![
            JsonView::Object(
                seq![
                    ("type"@, JsonView::Str("function"@)),
                    (
                        "function"@,
                        JsonView::Object(
                            seq![
                                ("name"@, JsonView::Str("get_weather"@)),
                                ("description"@, JsonView::Str("获取指定城市的天气信息"@)),
                                (
                                    "parameters"@,
                                    JsonView::Object(
                                        seq![
                                            ("type"@, JsonView::Str("object"@)),
                                            (
                                                "properties"@,
                                                JsonView::Object(
                                                    seq![
                                                        (
                                                            "location"@,
                                                            JsonView::Object(
                                                                seq![
                                                                    ("type"@, JsonView::Str("string"@)),
                                                                    ("description"@, JsonView::Str("城市名"@)),
                                                                ],
                                                            ),
                                                        ),
                                                    ],
                                                ),
                                            ),
                                            ("required"@, JsonView::Array(seq![JsonView::Str("location"@)])),
                                        ],
                                    ),
                                ),
                            ],
                        ),
                    ),
                ],
            ),
        ],
    )
}

fn weather_tools() -> (res: JsonValue)
    ensures
        res.view_json() == spec_weather_tools(),
{
    let location = json_object2("type", json_text("string"), "description", json_text("城市名"));
    let properties = json_object1("location", location);
    let required = json_array1(json_text("location"));
    let parameters = json_object3("type", json_text("object"), "properties", properties, "required", required);
    let function = json_object3(
        "name",
        json_text("get_weather"),
        "description",
        json_text("获取指定城市的天气信息"),
        "parameters",
        parameters,
    );
    let tool = json_object2("type", json_text("function"), "function", function);
    json_array1(tool)
}

/// The body of the tool call check: a weather question with the weather
/// tool offered and the choice of tool left to the model.
pub open spec fn spec_tool_call_body(model: Seq<char>) -> JsonView {
    JsonView::Object(
        seq![
            ("model"@, JsonView::Str(model)),
            ("messages"@, JsonView::Array(seq![spec_user_message(JsonView::Str("北京现在的天气怎么样?"@))])),
            ("tools"@, spec_weather_tools()),
            ("tool_choice"@, JsonView::Str("auto"@)),
        ],
    )
}

/// The request body of the tool call check for `model`.
pub fn tool_call_body(model: &str) -> (res: JsonValue)
    ensures
        res.view_json() == spec_tool_call_body(model@),
{
    let ghost m = model@;
    let messages = json_array1(user_message(json_text("北京现在的天气怎么样?")));
    let mut entries: Vec<(String, JsonValue)> = Vec::new();
    let e0 = ("model".to_owned(), json_text(model));
    let e1 = ("messages".to_owned(), messages);
    let e2 = ("tools".to_owned(), weather_tools());
    let e3 = ("tool_choice".to_owned(), json_text("auto"));
    let ghost gs = seq![e0, e1, e2, e3];
    entries.push(e0);
    entries.push(e1);
    entries.push(e2);
    entries.push(e3);
    proof {
        assert(entries@ =~= gs);
        assert(member_views(entries@) =~= seq![
            ("model"@, JsonView::Str(m)),
            ("messages"@, JsonView::Array(seq![spec_user_message(JsonView::Str("北京现在的天气怎么样?"@))])),
            ("tools"@, spec_weather_tools()),
            ("tool_choice"@, JsonView::Str("auto"@)),
        ]);
    }
    json_object(entries)
}

/// The body of the reasoning check: a question that invites step-by-step
/// reasoning.
pub open spec fn spec_reasoning_body(model: Seq<char>) -> JsonView {
    JsonView::Object(
        seq![
            ("model"@, JsonView::Str(model)),
            (
                "messages"@,
                JsonView::Array(
                    seq![spec_user_message(JsonView::Str("What is 9.11 and 9.9 which is bigger? Let's think step by step."@))],
                ),
            ),
        ],
    )
}

/// The request body of the reasoning check for `model`.
pub fn reasoning_body(model: &str) -> (res: JsonValue)
    ensures
        res.view_json() == spec_reasoning_body(model@),
{
    let question = json_text("What is 9.11 and 9.9 which is bigger? Let's think step by step.");
    let messages = json_array1(user_message(question));
    json_object2("model", json_text(model), "messages", messages)
}

/// The body of the vision check: a request to describe the image at
/// `image_url` in one sentence, with at most 128 tokens of answer.
pub open spec fn spec_vision_body(model: Seq<char>, image_url: Seq<char>) -> JsonView {
    JsonView::Object(
        seq![
            ("model"@, JsonView::Str(model)),
            (
                "messages"@,
                JsonView::Array(
                    seq![
                        spec_user_message(
                            JsonView::Array(
                                seq![
                                    JsonView::Object(
                                        seq![
                                            ("type"@, JsonView::Str("text"@)),
                                            ("text"@, JsonView::Str("What do you see in this image? Reply in one short sentence."@)),
                                        ],
                                    ),
                                    JsonView::Object(
                                        seq![
                                            ("type"@, JsonView::Str("image_url"@)),
                                            ("image_url"@, JsonView::Object(seq![("url"@, JsonView::Str(image_url))])),
                                        ],
                                    ),
                                ],
                            ),
                        ),
                    ],
                ),
            ),
            ("max_tokens"@, JsonView::Number(JsonNumber::PosInt(128))),
        ],
    )
}

/// The request body of the vision check for `model`, with the image given
/// as a URL (a `data:` URL for an inline image).
pub fn vision_body(model: &str, image_url: &str) -> (res: JsonValue)
    ensures
        res.view_json() == spec_vision_body(model@, image_url@),
{
    let text_part = json_object2(
        "type",
        json_text("text"),
        "text",
        json_text("What do you see in this image? Reply in one short sentence."),
    );
    let url = json_object1("url", json_text(image_url));
    let image_part = json_object2("type", json_text("image_url"), "image_url", url);
    let content = json_array2(text_part, image_part);
    let messages = json_array1(user_message(content));
    json_object3("model", json_text(model), "messages", messages, "max_tokens", JsonValue::Number(JsonNumber::PosInt(128)))
}

/// A chat completion request: where it goes and what it carries.
#[derive(Debug)]
pub struct ChatRequest {
    pub url: String,
    pub body: JsonValue,
}

/// The body of a capability's check.
pub open spec fn spec_check_body(feature: Feature, model: Seq<char>, image_url: Seq<char>) -> JsonView {
    match feature {
        Feature::ToolCall => spec_tool_call_body(model),
        Feature::Reasoning => spec_reasoning_body(model),
        Feature::Vision => spec_vision_body(model, image_url),
    }
}

/// The request of a capability's check against the server at `base_url`:
/// the chat completion endpoint, and the check's body naming `model` (or
/// `default` when no model is known). `image_url` is the image that the
/// vision check shows; the other checks ignore it.
pub fn check_request(feature: Feature, base_url: &str, model: Option<&str>, image_url: &str) -> (res: ChatRequest)
    ensures
        res.url@ == spec_endpoint(base_url@, "/chat/completions"@),
        res.body.view_json() == spec_check_body(
            feature,
            spec_model_name(match model {
                Some(m) => Some(m@),
                None => None,
            }),
            image_url@,
        ),
{
    let url = chat_completions_url(base_url);
    let name = model_name_or_default(model);
    let body = match feature {
        Feature::ToolCall => tool_call_body(name),
        Feature::Reasoning => reasoning_body(name),
        Feature::Vision => vision_body(name, image_url),
    };
    ChatRequest { url, body }
}

/// Every check's request body is an object whose first member names the
/// model being probed.
pub proof fn lemma_check_body_names_model(feature: Feature, model: Seq<char>, image_url: Seq<char>)
    ensures
        spec_check_body(feature, model, image_url) matches JsonView::Object(members) && members.len() > 0
            && members[0] == ("model"@, JsonView::Str(model)),
{
}

/// Only the vision check carries the image, and only the tool call check
/// offers tools: the members of each body, as the library builds it, are
/// these names in this order (the document sent is a JSON object, whose
/// members carry no order once serialised).
pub proof fn lemma_check_body_members(feature: Feature, model: Seq<char>, image_url: Seq<char>)
    ensures
        spec_check_body(feature, model, image_url) matches JsonView::Object(members) && members.map_values(
            |m: (Seq<char>, JsonView)| m.0,
        ) == match feature {
            Feature::ToolCall => seq!["model"@, "messages"@, "tools"@, "tool_choice"@],
            Feature::Reasoning => seq!["model"@, "messages"@],
            Feature::Vision => seq!["model"@, "messages"@, "max_tokens"@],
        },
{
    match spec_check_body(feature, model, image_url) {
        JsonView::Object(members) => {
            assert(members.map_values(|m: (Seq<char>, JsonView)| m.0) =~= match feature {
                Feature::ToolCall => seq!["model"@, "messages"@, "tools"@, "tool_choice"@],
                Feature::Reasoning => seq!["model"@, "messages"@],
                Feature::Vision => seq!["model"@, "messages"@, "max_tokens"@],
            });
        },
        _ => {},
    }
}

/// The member `key` of an object view (first occurrence).
pub open spec fn view_lookup(members: Seq<(Seq<char>, JsonView)>, key: Seq<char>) -> Option<JsonView>
    decreases members.len(),
{
    if members.len() == 0 {
        None
    } else if members[0].0 == key {
        Some(members[0].1)
    } else {
        view_lookup(members.drop_first(), key)
    }
}

/// The member `key` of a possibly absent view, absent unless it is an object
/// holding that key.
pub open spec fn view_member(v: Option<JsonView>, key: Seq<char>) -> Option<JsonView> {
    match v {
        Some(JsonView::Object(members)) => view_lookup(members, key),
        _ => None,
    }
}

/// The element `i` of a possibly absent view, absent unless it is an array
/// that long.
pub open spec fn view_element(v: Option<JsonView>, i: int) -> Option<JsonView> {
    match v {
        Some(JsonView::Array(items)) => if 0 <= i < items.len() {
            Some(items[i])
        } else {
            None
        },
        _ => None,
    }
}

/// The content of the first message of a request body.
pub open spec fn first_message_content(body: JsonView) -> Option<JsonView> {
    view_member(view_element(view_member(Some(body), "messages"@), 0), "content"@)
}

proof fn lemma_keys_differ()
    ensures
        "model"@ != "messages"@,
        "model"@ != "tools"@,
        "model"@ != "tool_choice"@,
        "model"@ != "max_tokens"@,
        "messages"@ != "tools"@,
        "messages"@ != "tool_choice"@,
        "messages"@ != "max_tokens"@,
        "tools"@ != "tool_choice"@,
        "max_tokens"@ != "tools"@,
        "role"@ != "content"@,
        "type"@ != "function"@,
        "type"@ != "text"@,
        "type"@ != "image_url"@,
        "name"@ != "description"@,
        "name"@ != "parameters"@,
        "description"@ != "parameters"@,
{
    reveal_strlit("model");
    reveal_strlit("messages");
    reveal_strlit("tools");
    reveal_strlit("tool_choice");
    reveal_strlit("max_tokens");
    reveal_strlit("role");
    reveal_strlit("content");
    reveal_strlit("type");
    reveal_strlit("function");
    reveal_strlit("text");
    reveal_strlit("image_url");
    reveal_strlit("name");
    reveal_strlit("description");
    reveal_strlit("parameters");
    assert("model"@.len() != "messages"@.len());
    assert("model"@[0] != "tools"@[0]);
    assert("model"@.len() != "tool_choice"@.len());
    assert("model"@.len() != "max_tokens"@.len());
    assert("messages"@.len() != "tools"@.len());
    assert("messages"@.len() != "tool_choice"@.len());
    assert("messages"@.len() != "max_tokens"@.len());
    assert("tools"@.len() != "tool_choice"@.len());
    assert("max_tokens"@.len() != "tools"@.len());
    assert("role"@.len() != "content"@.len());
    assert("type"@.len() != "function"@.len());
    assert("type"@[1] != "text"@[1]);
    assert("type"@.len() != "image_url"@.len());
    assert("name"@.len() != "description"@.len());
    assert("name"@.len() != "parameters"@.len());
    assert("description"@.len() != "parameters"@.len());
}

/// Every check's request names the model it was given, unchanged, and asks
/// as the user; a known model is named as it is, an unknown one `default`.
pub proof fn law_request_names_model(feature: Feature, model: Seq<char>, image_url: Seq<char>)
    ensures
        view_member(Some(spec_check_body(feature, model, image_url)), "model"@) == Some(JsonView::Str(model)),
        view_member(view_element(view_member(Some(spec_check_body(feature, model, image_url)), "messages"@), 0), "role"@)
            == Some(JsonView::Str("user"@)),
        view_member(Some(spec_check_body(feature, spec_model_name(Some(model)), image_url)), "model"@) == Some(
            JsonView::Str(model),
        ),
        view_member(Some(spec_check_body(feature, spec_model_name(None), image_url)), "model"@) == Some(
            JsonView::Str("default"@),
        ),
{
    lemma_keys_differ();
    reveal_with_fuel(view_lookup, 3);
}

/// The vision request sends, in its first message, the question as an
/// OpenAI text part and then the image as an OpenAI `image_url` part with
/// the given URL, and asks for at most 128 tokens.
pub proof fn law_vision_request(model: Seq<char>, image_url: Seq<char>)
    ensures
        view_element(first_message_content(spec_check_body(Feature::Vision, model, image_url)), 0) == Some(
            JsonView::Object(
                seq![
                    ("type"@, JsonView::Str("text"@)),
                    ("text"@, JsonView::Str("What do you see in this image? Reply in one short sentence."@)),
                ],
            ),
        ),
        view_element(first_message_content(spec_check_body(Feature::Vision, model, image_url)), 1) == Some(
            JsonView::Object(
                seq![
                    ("type"@, JsonView::Str("image_url"@)),
                    ("image_url"@, JsonView::Object(seq![("url"@, JsonView::Str(image_url))])),
                ],
            ),
        ),
        view_member(Some(spec_check_body(Feature::Vision, model, image_url)), "max_tokens"@) == Some(
            JsonView::Number(JsonNumber::PosInt(128)),
        ),
        view_member(Some(spec_check_body(Feature::Vision, model, image_url)), "tools"@) is None,
{
    lemma_keys_differ();
    reveal_with_fuel(view_lookup, 4);
}

/// The tool call request asks the weather question and offers one function
/// tool, `get_weather`, taking a required string `location`, leaving the
/// choice of tool to the model.
pub proof fn law_tool_call_request(model: Seq<char>, image_url: Seq<char>)
    ensures
        first_message_content(spec_check_body(Feature::ToolCall, model, image_url)) == Some(
            JsonView::Str("北京现在的天气怎么样?"@),
        ),
        view_member(Some(spec_check_body(Feature::ToolCall, model, image_url)), "tool_choice"@) == Some(
            JsonView::Str("auto"@),
        ),
        view_member(view_element(view_member(Some(spec_check_body(Feature::ToolCall, model, image_url)), "tools"@), 0), "type"@)
            == Some(JsonView::Str("function"@)),
        view_member(
            view_member(view_element(view_member(Some(spec_check_body(Feature::ToolCall, model, image_url)), "tools"@), 0), "function"@),
            "name"@,
        ) == Some(JsonView::Str("get_weather"@)),
        view_member(
            view_member(
                view_member(view_element(view_member(Some(spec_check_body(Feature::ToolCall, model, image_url)), "tools"@), 0), "function"@),
                "parameters"@,
            ),
            "required"@,
        ) == Some(JsonView::Array(seq![JsonView::Str("location"@)])),
{
    lemma_keys_differ();
    reveal_strlit("required");
    reveal_strlit("properties");
    reveal_strlit("type");
    assert("type"@.len() != "required"@.len());
    assert("properties"@.len() != "required"@.len());
    reveal_with_fuel(view_lookup, 4);
}

/// The reasoning request asks the step-by-step question and offers no tools.
pub proof fn law_reasoning_request(model: Seq<char>, image_url: Seq<char>)
    ensures
        first_message_content(spec_check_body(Feature::Reasoning, model, image_url)) == Some(
            JsonView::Str("What is 9.11 and 9.9 which is bigger? Let's think step by step."@),
        ),
        view_member(Some(spec_check_body(Feature::Reasoning, model, image_url)), "tools"@) is None,
{
    lemma_keys_differ();
    reveal_with_fuel(view_lookup, 3);
}

} // verus!
