use tellme::endpoint::{
    chat_completions_url, model_name_or_default, models_url, select_model, trim_trailing_slashes,
};

#[test]
fn trims_every_trailing_slash() {
    assert_eq!(trim_trailing_slashes("http://localhost:8008/v1///"), "http://localhost:8008/v1");
    assert_eq!(trim_trailing_slashes("http://localhost:8008/v1"), "http://localhost:8008/v1");
    assert_eq!(trim_trailing_slashes("///"), "");
    assert_eq!(trim_trailing_slashes(""), "");
    assert_eq!(trim_trailing_slashes("a/b/"), "a/b");
}

#[test]
fn trims_after_non_ascii_text() {
    assert_eq!(trim_trailing_slashes("http://例子.cn/v1/"), "http://例子.cn/v1");
}

#[test]
fn builds_endpoints() {
    assert_eq!(models_url("http://localhost:8008/v1"), "http://localhost:8008/v1/models");
    assert_eq!(models_url("https://openrouter.ai/api/v1/"), "https://openrouter.ai/api/v1/models");
    assert_eq!(
        chat_completions_url("http://localhost:8008/v1/"),
        "http://localhost:8008/v1/chat/completions"
    );
}

#[test]
fn endpoint_ignores_trailing_slash() {
    assert_eq!(chat_completions_url("http://h/v1"), chat_completions_url("http://h/v1/"));
    assert_eq!(models_url("http://h/v1"), models_url("http://h/v1//"));
}

#[test]
fn override_model_wins() {
    assert_eq!(
        select_model(Some("mine".to_string()), Some("listed".to_string())),
        Some("mine".to_string())
    );
    assert_eq!(select_model(None, Some("listed".to_string())), Some("listed".to_string()));
    assert_eq!(select_model(Some("mine".to_string()), None), Some("mine".to_string()));
    assert_eq!(select_model(None, None), None);
}

#[test]
fn model_name_defaults() {
    assert_eq!(model_name_or_default(Some("Qwen3.6-27B")), "Qwen3.6-27B");
    assert_eq!(model_name_or_default(None), "default");
}
