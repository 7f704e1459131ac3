use wox_ui_shell::launch::{
    get_server_port, parse_launch, parse_pid, parse_port, server_port, LaunchError,
};

fn args(xs: &[&str]) -> Vec<String> {
    xs.iter().map(|s| s.to_string()).collect()
}

#[test]
fn server_port_defaults_without_arguments() {
    assert_eq!(get_server_port(&args(&[])), "34987");
    assert_eq!(get_server_port(&args(&["prog"])), "34987");
}

#[test]
fn server_port_takes_the_second_argument() {
    assert_eq!(get_server_port(&args(&["prog", "40000"])), "40000");
    assert_eq!(server_port(&args(&["prog", "40000", "12345"])), 40000);
}

#[test]
fn server_port_defaults_on_non_numeric_argument() {
    assert_eq!(get_server_port(&args(&["prog", "abc"])), "34987");
    assert_eq!(get_server_port(&args(&["prog", ""])), "34987");
    assert_eq!(get_server_port(&args(&["prog", "40 0"])), "34987");
}

#[test]
fn server_port_defaults_on_oversized_argument() {
    assert_eq!(get_server_port(&args(&["prog", "65536"])), "34987");
    assert_eq!(get_server_port(&args(&["prog", "99999999999999999999"])), "34987");
}

#[test]
fn parse_port_exact_values() {
    assert_eq!(parse_port("0"), Some(0));
    assert_eq!(parse_port("34987"), Some(34987));
    assert_eq!(parse_port("65535"), Some(65535));
    assert_eq!(parse_port("65536"), None);
    assert_eq!(parse_port(""), None);
    assert_eq!(parse_port("-1"), None);
    assert_eq!(parse_port("12a"), None);
}

#[test]
fn parse_port_accepts_leading_zeros() {
    assert_eq!(parse_port("00080"), Some(80));
}

#[test]
fn parse_pid_exact_values() {
    assert_eq!(parse_pid("12345"), Some(12345));
    assert_eq!(parse_pid("2147483647"), Some(2147483647));
    assert_eq!(parse_pid("2147483648"), None);
    assert_eq!(parse_pid("wox"), None);
    assert_eq!(parse_pid(""), None);
}

#[test]
fn launch_with_port_and_live_pid() {
    let cfg = parse_launch(&args(&["prog", "40000", "12345"])).unwrap();
    assert_eq!(cfg.port, 40000);
    assert_eq!(cfg.watched_pid, Some(12345));
}

#[test]
fn launch_without_pid_disables_watching() {
    let cfg = parse_launch(&args(&["prog", "40000"])).unwrap();
    assert_eq!(cfg.port, 40000);
    assert_eq!(cfg.watched_pid, None);
    let cfg = parse_launch(&args(&["prog"])).unwrap();
    assert_eq!(cfg.port, 34987);
    assert_eq!(cfg.watched_pid, None);
}

#[test]
fn launch_with_malformed_pid_is_refused() {
    let r = parse_launch(&args(&["prog", "40000", "not-a-pid"]));
    assert_eq!(r, Err(LaunchError::MalformedProcessId));
}
