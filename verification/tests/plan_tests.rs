use tellme::plan::{feature_checks_title, llm_checks, steps_after_server, vlm_checks, Step};
use tellme::probe::Feature;

#[test]
fn unreachable_server_runs_nothing() {
    assert!(steps_after_server(false, &llm_checks(true, true)).is_empty());
    assert!(steps_after_server(false, &vlm_checks()).is_empty());
}

#[test]
fn no_checks_gives_hint() {
    assert_eq!(steps_after_server(true, &llm_checks(false, false)), vec![Step::NoChecksHint]);
}

#[test]
fn llm_checks_in_order() {
    assert_eq!(
        steps_after_server(true, &llm_checks(true, true)),
        vec![Step::SectionHeader, Step::Check(Feature::ToolCall), Step::Check(Feature::Reasoning)]
    );
    assert_eq!(
        steps_after_server(true, &llm_checks(false, true)),
        vec![Step::SectionHeader, Step::Check(Feature::Reasoning)]
    );
    assert_eq!(
        steps_after_server(true, &llm_checks(true, false)),
        vec![Step::SectionHeader, Step::Check(Feature::ToolCall)]
    );
}

#[test]
fn vlm_runs_vision() {
    assert_eq!(steps_after_server(true, &vlm_checks()), vec![Step::SectionHeader, Step::Check(Feature::Vision)]);
    assert_eq!(feature_checks_title(), "Feature Checks");
}
