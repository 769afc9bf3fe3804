use tellme::dashboard::{
    banner, banner_text, feature_panel, no_checks_hint, no_checks_hint_text, report_panel, section_header,
    section_header_text, server_panel, Panel, Timing, ValueStyle,
};
use tellme::decimal::decimal;
use tellme::probe::{judge_reply, ChatReply, Feature, UsageCounts};
use tellme::terminal::render_panel;

fn rows(p: &Panel) -> Vec<(String, String, ValueStyle)> {
    p.rows.iter().map(|r| (r.label.clone(), r.value.clone(), r.style)).collect()
}

fn strip_ansi(s: &str) -> String {
    let mut out = String::new();
    let mut chars = s.chars();
    while let Some(c) = chars.next() {
        if c == '\x1b' {
            for d in chars.by_ref() {
                if d == 'm' {
                    break;
                }
            }
        } else {
            out.push(c);
        }
    }
    out
}

#[test]
fn banner_frame_matches_title() {
    let b = banner_text("LLM");
    assert_eq!(b.title, " tellme · LLM ");
    assert_eq!(b.middle, "│ tellme · LLM │");
    assert_eq!(b.top, format!("╭{}╮", "─".repeat(14)));
    assert_eq!(b.bottom, format!("╰{}╯", "─".repeat(14)));
}

#[test]
fn banner_printed_text() {
    let text = strip_ansi(&banner("VLM"));
    let bar = "─".repeat(14);
    assert_eq!(text, format!("\n╭{}╮\n│ tellme · VLM │\n╰{}╯\n\n", bar, bar));
}

#[test]
fn section_header_and_hint_text() {
    assert_eq!(section_header_text("Feature Checks"), "▸ Feature Checks");
    assert_eq!(strip_ansi(&section_header("Feature Checks")), "▸ Feature Checks\n\n");
    assert_eq!(no_checks_hint_text(), "▸ Use --tool-call and/or --reasoning to specify checks.\n");
    assert_eq!(strip_ansi(&no_checks_hint()), "▸ Use --tool-call and/or --reasoning to specify checks.\n\n");
}

#[test]
fn server_panel_rows() {
    let p = server_panel("https://openrouter.ai/api/v1/", Some("qwen/qwen3.6-27b"), true);
    assert_eq!(p.title, " Server ");
    assert_eq!(
        rows(&p),
        vec![
            ("Address".to_string(), "https://openrouter.ai/api/v1/".to_string(), ValueStyle::Plain),
            ("Model".to_string(), "qwen/qwen3.6-27b".to_string(), ValueStyle::Plain),
            ("Status".to_string(), "✓ Connected".to_string(), ValueStyle::Good),
        ]
    );
    let down = server_panel("http://localhost:8008/v1", None, false);
    assert_eq!(
        rows(&down),
        vec![
            ("Address".to_string(), "http://localhost:8008/v1".to_string(), ValueStyle::Plain),
            ("Status".to_string(), "✗ Connection Failed".to_string(), ValueStyle::Bad),
        ]
    );
}

#[test]
fn feature_panel_with_usage() {
    let timing = Timing { seconds: "1.11".to_string(), tokens_per_second: "53.9".to_string() };
    let counts = UsageCounts { prompt_tokens: 279, completion_tokens: 60, total_tokens: 339 };
    let p = feature_panel("Tool Call", true, None, Some((counts, &timing)), None);
    assert_eq!(p.title, " Tool Call ");
    assert_eq!(
        rows(&p),
        vec![
            ("Status".to_string(), "✓ Enabled".to_string(), ValueStyle::Good),
            ("Latency".to_string(), "1.11s".to_string(), ValueStyle::Plain),
            ("Throughput".to_string(), "53.9 tok/s".to_string(), ValueStyle::Good),
            ("Tokens".to_string(), "Prompt: 279  Completion: 60\nTotal: 339".to_string(), ValueStyle::Plain),
        ]
    );
}

#[test]
fn feature_panel_reply_and_hint_order() {
    let p = feature_panel("Vision", false, Some("hint"), None, Some("reply"));
    assert_eq!(
        rows(&p),
        vec![
            ("Status".to_string(), "✗ Not Detected".to_string(), ValueStyle::Bad),
            ("Reply".to_string(), "reply".to_string(), ValueStyle::Plain),
            ("Hint".to_string(), "hint".to_string(), ValueStyle::Warn),
        ]
    );
}

#[test]
fn report_panel_from_failure() {
    let report = judge_reply(Feature::Reasoning, &ChatReply::SendFailed("timeout".to_string()));
    let p = report_panel(Feature::Reasoning, &report, None);
    assert_eq!(p.title, " Reasoning ");
    assert_eq!(
        rows(&p),
        vec![
            ("Status".to_string(), "✗ Not Detected".to_string(), ValueStyle::Bad),
            ("Hint".to_string(), "请求失败: timeout".to_string(), ValueStyle::Warn),
        ]
    );
}

#[test]
fn rendered_server_panel_exact() {
    let p = server_panel("http://localhost:8008/v1", Some("m1"), true);
    let text = strip_ansi(&render_panel(&p));
    let a = "─".repeat(10);
    let b = "─".repeat(26);
    let expected = [
        format!("╭{}┬{}╮", a, b),
        format!("│  Server  ┆{}│", " ".repeat(26)),
        format!("╞{}╪{}╡", "═".repeat(10), "═".repeat(26)),
        "│ Address  ┆ http://localhost:8008/v1 │".to_string(),
        format!("│ Model    ┆ m1{}│", " ".repeat(23)),
        format!("│ Status   ┆ ✓ Connected{}│", " ".repeat(14)),
        format!("╰{}┴{}╯", a, b),
    ]
    .join("\n");
    assert_eq!(text, expected);
}

#[test]
fn rendered_tokens_on_two_lines() {
    let timing = Timing { seconds: "1.11".to_string(), tokens_per_second: "53.9".to_string() };
    let counts = UsageCounts { prompt_tokens: 279, completion_tokens: 60, total_tokens: 339 };
    let text = strip_ansi(&render_panel(&feature_panel("Tool Call", true, None, Some((counts, &timing)), None)));
    let lines: Vec<&str> = text.lines().collect();
    let at = lines.iter().position(|l| l.contains("Prompt: 279  Completion: 60")).unwrap();
    assert!(lines[at].starts_with("│ Tokens"));
    assert!(lines[at + 1].contains("┆ Total: 339"));
    assert!(!text.contains('╌'));
}

#[test]
fn rendered_panel_holds_rows() {
    let p = server_panel("http://localhost:8008/v1", Some("m1"), true);
    let text = strip_ansi(&render_panel(&p));
    assert!(text.contains(" Server "));
    assert!(text.contains("Address"));
    assert!(text.contains("http://localhost:8008/v1"));
    assert!(text.contains("✓ Connected"));
    assert!(text.starts_with('╭'));
    assert!(text.trim_end().ends_with('╯'));
}

#[test]
fn decimal_text() {
    assert_eq!(decimal(0), "0");
    assert_eq!(decimal(7), "7");
    assert_eq!(decimal(1205), "1205");
    assert_eq!(decimal(u64::MAX), u64::MAX.to_string());
}
