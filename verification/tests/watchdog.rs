use sysinfo::PidExt;
use wox_ui_shell::watchdog::{watchdog_message, Watchdog, WatchdogAction, WatchdogState};

#[test]
fn a_live_backend_means_sleep_one_interval() {
    let mut w = Watchdog::new(Some(12345));
    assert_eq!(w.step(true), WatchdogAction::Sleep(3));
    assert_eq!(w.state, WatchdogState::Monitoring);
}

#[test]
fn a_dead_backend_means_exit_zero_at_once() {
    let mut w = Watchdog::new(Some(12345));
    assert_eq!(w.step(false), WatchdogAction::Exit(0));
    assert_eq!(w.state, WatchdogState::Terminated);
}

#[test]
fn a_backend_alive_through_many_polls_never_exits() {
    let mut w = Watchdog::new(Some(12345));
    let exited = w.run(&vec![true; 50]);
    assert!(!exited);
    assert_eq!(w.state, WatchdogState::Monitoring);
}

#[test]
fn a_backend_dying_mid_run_exits() {
    let mut w = Watchdog::new(Some(12345));
    let exited = w.run(&vec![true, true, false, true]);
    assert!(exited);
    assert_eq!(w.state, WatchdogState::Terminated);
}

#[test]
fn no_identifier_disables_the_watchdog() {
    let w = Watchdog::new(None);
    assert!(!w.enabled());
    let w = Watchdog::new(Some(1));
    assert!(w.enabled());
}

#[test]
fn polling_the_current_process_sees_it_alive() {
    let pid = sysinfo::get_current_pid().expect("current pid").as_u32();
    let mut w = Watchdog::new(Some(pid));
    assert_eq!(w.poll(), WatchdogAction::Sleep(3));
    assert_eq!(w.state, WatchdogState::Monitoring);
}

#[test]
fn polling_an_absent_identifier_exits_zero() {
    // Far above any identifier the OS hands out.
    let mut w = Watchdog::new(Some(4_000_000_000));
    assert_eq!(w.poll(), WatchdogAction::Exit(0));
    assert_eq!(w.state, WatchdogState::Terminated);
}

#[test]
fn the_observation_log_lines() {
    assert_eq!(watchdog_message(true), "wox process is alive");
    assert_eq!(watchdog_message(false), "wox process is not alive, exit ui process");
}
