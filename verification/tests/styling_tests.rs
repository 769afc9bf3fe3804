use tellme::dashboard::{banner, no_checks_hint, section_header};

#[test]
fn forced_colours_wrap_each_line() {
    colored::control::set_override(true);
    let bar = "─".repeat(14);
    assert_eq!(
        banner("LLM"),
        format!(
            "\n\x1b[90m╭{}╮\x1b[0m\n\x1b[90m│\x1b[0m\x1b[1;37m tellme · LLM \x1b[0m\x1b[90m│\x1b[0m\n\x1b[90m╰{}╯\x1b[0m\n\n",
            bar, bar
        )
    );
    assert_eq!(section_header("Feature Checks"), "\x1b[1;36m▸ Feature Checks\x1b[0m\n\n");
    assert_eq!(
        no_checks_hint(),
        "\x1b[33m▸ Use --tool-call and/or --reasoning to specify checks.\n\x1b[0m\n"
    );
    colored::control::set_override(false);
    assert_eq!(section_header("Feature Checks"), "▸ Feature Checks\n\n");
    colored::control::unset_override();
}
