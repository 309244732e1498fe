use mg::utils::{error_message, info_message, success_message, warning_message};

// Colours are switched on for the whole process, so that the escape
// sequences are written whatever the terminal is.

#[test]
fn success_is_green_after_a_check_mark() {
    colored::control::set_override(true);
    assert_eq!(success_message("done"), "✅ \u{1b}[32mdone\u{1b}[0m");
}

#[test]
fn error_is_red_after_a_cross() {
    colored::control::set_override(true);
    assert_eq!(error_message("failed"), "❌ \u{1b}[31mfailed\u{1b}[0m ");
}

#[test]
fn warning_is_yellow_after_a_warning_sign() {
    colored::control::set_override(true);
    assert_eq!(warning_message("careful"), "⚠\u{fe0f}  \u{1b}[33mcareful\u{1b}[0m ");
}

#[test]
fn info_is_blue_after_an_information_sign() {
    colored::control::set_override(true);
    assert_eq!(info_message("note"), "ℹ\u{fe0f}  \u{1b}[34mnote\u{1b}[0m ");
}

#[test]
fn empty_message_is_still_framed() {
    colored::control::set_override(true);
    assert_eq!(success_message(""), "✅ \u{1b}[32m\u{1b}[0m");
    assert_eq!(status("a", "b", "c"), "abc");

}

fn status(lead: &str, painted: &str, trail: &str) -> String {
    mg::utils::status_line(lead, painted, trail)
}
