use wox_ui_shell::logging::{format_ui_log, log_file_path};

#[test]
fn a_ui_message_logs_behind_the_prefix() {
    let line = format_ui_log("hello");
    assert_eq!(line, "UI: hello");
    assert!(line.ends_with("UI: hello"));
}

#[test]
fn an_empty_ui_message_logs_the_bare_prefix() {
    assert_eq!(format_ui_log(""), "UI: ");
}

#[test]
fn the_log_file_sits_under_the_home_directory() {
    assert_eq!(log_file_path("/home/someone"), "/home/someone/.wox/log/ui.log");
}
