use base64::Engine;
use tellme::image::{png_data_url, test_image_base64};
use tellme::json::{JsonNumber, JsonValue};
use tellme::probe::Feature;
use tellme::request::{check_request, reasoning_body, tool_call_body, vision_body};

fn text_at<'a>(v: &'a JsonValue, path: &[&str]) -> Option<&'a str> {
    let mut cur = v;
    for key in path {
        cur = match key.parse::<usize>() {
            Ok(i) => match cur {
                JsonValue::Array(items) => items.get(i)?,
                _ => return None,
            },
            Err(_) => cur.get(key)?,
        };
    }
    cur.as_str()
}

#[test]
fn tool_call_request_body() {
    let body = tool_call_body("Qwen3.6-27B");
    assert_eq!(text_at(&body, &["model"]), Some("Qwen3.6-27B"));
    assert_eq!(text_at(&body, &["messages", "0", "role"]), Some("user"));
    assert_eq!(text_at(&body, &["messages", "0", "content"]), Some("北京现在的天气怎么样?"));
    assert_eq!(text_at(&body, &["tools", "0", "type"]), Some("function"));
    assert_eq!(text_at(&body, &["tools", "0", "function", "name"]), Some("get_weather"));
    assert_eq!(
        text_at(&body, &["tools", "0", "function", "parameters", "properties", "location", "type"]),
        Some("string")
    );
    assert_eq!(text_at(&body, &["tools", "0", "function", "parameters", "required", "0"]), Some("location"));
    assert_eq!(text_at(&body, &["tool_choice"]), Some("auto"));
}

#[test]
fn reasoning_request_body() {
    let body = reasoning_body("default");
    assert_eq!(text_at(&body, &["model"]), Some("default"));
    assert_eq!(
        text_at(&body, &["messages", "0", "content"]),
        Some("What is 9.11 and 9.9 which is bigger? Let's think step by step.")
    );
    assert!(body.get("tools").is_none());
}

#[test]
fn vision_request_body() {
    let body = vision_body("vl", "data:image/png;base64,AAAA");
    assert_eq!(text_at(&body, &["messages", "0", "content", "0", "type"]), Some("text"));
    assert_eq!(text_at(&body, &["messages", "0", "content", "1", "image_url", "url"]), Some("data:image/png;base64,AAAA"));
    match body.get("max_tokens") {
        Some(JsonValue::Number(JsonNumber::PosInt(n))) => assert_eq!(*n, 128),
        _ => panic!("max_tokens missing"),
    }
}

#[test]
fn check_request_routes() {
    let r = check_request(Feature::Reasoning, "http://localhost:8008/v1/", None, "");
    assert_eq!(r.url, "http://localhost:8008/v1/chat/completions");
    assert_eq!(text_at(&r.body, &["model"]), Some("default"));
    let v = check_request(Feature::Vision, "http://h/v1", Some("vl"), "data:x");
    assert_eq!(text_at(&v.body, &["messages", "0", "content", "1", "image_url", "url"]), Some("data:x"));
    let t = check_request(Feature::ToolCall, "http://h/v1", Some("m"), "data:x");
    assert_eq!(text_at(&t.body, &["tool_choice"]), Some("auto"));
}

#[test]
fn base64_of_image_decodes_back() {
    let bytes: Vec<u8> = (0u8..=255).chain([7u8, 0, 255, 128]).collect();
    for n in [0usize, 1, 2, 3, 4, 5, 259, 260] {
        let text = test_image_base64(&bytes[..n]);
        assert_eq!(text.len(), 4 * ((n + 2) / 3));
        assert!(text.chars().all(|c| c.is_ascii_alphanumeric() || c == '+' || c == '/' || c == '='));
        assert_eq!(base64::engine::general_purpose::STANDARD.decode(&text).unwrap(), bytes[..n].to_vec());
    }
}

#[test]
fn base64_of_image() {
    assert_eq!(test_image_base64(b"hello"), "aGVsbG8=");
    assert_eq!(test_image_base64(b""), "");
    assert_eq!(test_image_base64(&[0xff, 0xfe, 0xfd]), "//79");
    assert_eq!(png_data_url(b"hi"), "data:image/png;base64,aGk=");
}
