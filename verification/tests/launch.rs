use no_sleep_till_brooklyn::cli::{parse_launch_request, requested, LaunchRequest, MONITOR_OFF_FLAG, QUIT_FLAG};
use no_sleep_till_brooklyn::launch::{plan_launch, LaunchStep};

fn args(list: &[&str]) -> Vec<String> {
    list.iter().map(|s| s.to_string()).collect()
}

#[test]
fn flags_have_their_documented_spelling() {
    assert_eq!(QUIT_FLAG, "--quit");
    assert_eq!(MONITOR_OFF_FLAG, "--monitor-off");
}

#[test]
fn no_arguments_request_nothing() {
    let req = parse_launch_request(&args(&["NoSleepTillBrooklyn.exe"]));
    assert_eq!(req, LaunchRequest { quit: false, monitor_off: false });
}

#[test]
fn empty_argument_list_requests_nothing() {
    let req = parse_launch_request(&Vec::new());
    assert_eq!(req, LaunchRequest { quit: false, monitor_off: false });
}

#[test]
fn quit_flag_is_found_anywhere_after_program_name() {
    assert!(requested(&args(&["app", "--quit"]), "--quit"));
    assert!(requested(&args(&["app", "x", "y", "--quit"]), "--quit"));
    let req = parse_launch_request(&args(&["app", "--verbose", "--quit"]));
    assert_eq!(req, LaunchRequest { quit: true, monitor_off: false });
}

#[test]
fn program_name_is_not_a_flag() {
    assert!(!requested(&args(&["--quit"]), "--quit"));
    let req = parse_launch_request(&args(&["--monitor-off", "other"]));
    assert_eq!(req, LaunchRequest { quit: false, monitor_off: false });
}

#[test]
fn flags_must_match_exactly() {
    assert!(!requested(&args(&["app", "--QUIT"]), "--quit"));
    assert!(!requested(&args(&["app", "--quit=1"]), "--quit"));
    assert!(!requested(&args(&["app", "-quit"]), "--quit"));
}

#[test]
fn both_flags_together() {
    let req = parse_launch_request(&args(&["app", "--monitor-off", "--quit"]));
    assert_eq!(req, LaunchRequest { quit: true, monitor_off: true });
}

const NONE: LaunchRequest = LaunchRequest { quit: false, monitor_off: false };
const QUIT: LaunchRequest = LaunchRequest { quit: true, monitor_off: false };
const OFF: LaunchRequest = LaunchRequest { quit: false, monitor_off: true };

#[test]
fn first_plain_launch_starts_the_app() {
    assert_eq!(plan_launch(NONE, true, false), vec![LaunchStep::StartApp]);
}

#[test]
fn second_plain_launch_pokes_running_copy_and_exits() {
    assert_eq!(plan_launch(NONE, true, true), vec![LaunchStep::SignalBanner]);
    assert_eq!(plan_launch(NONE, false, true), vec![LaunchStep::SignalBanner]);
}

#[test]
fn quit_with_nothing_running_does_nothing() {
    assert_eq!(plan_launch(QUIT, true, false), Vec::<LaunchStep>::new());
    assert_eq!(plan_launch(QUIT, false, false), Vec::<LaunchStep>::new());
}

#[test]
fn quit_stops_running_copy_without_waiting() {
    assert_eq!(plan_launch(QUIT, true, true), vec![LaunchStep::SignalQuit]);
}

#[test]
fn monitor_off_with_nothing_running_only_switches_display_off() {
    assert_eq!(plan_launch(OFF, true, false), vec![LaunchStep::MonitorOff]);
}

#[test]
fn monitor_off_stops_copy_closes_own_handle_waits_then_switches_display_off() {
    assert_eq!(
        plan_launch(OFF, true, true),
        vec![LaunchStep::SignalQuit, LaunchStep::CloseOwnMutex, LaunchStep::WaitForExit, LaunchStep::MonitorOff]
    );
}

#[test]
fn monitor_off_without_own_mutex_handle_does_not_wait() {
    assert_eq!(plan_launch(OFF, false, true), vec![LaunchStep::SignalQuit, LaunchStep::MonitorOff]);
}

#[test]
fn both_flags_act_as_monitor_off() {
    let both = LaunchRequest { quit: true, monitor_off: true };
    assert_eq!(
        plan_launch(both, true, true),
        vec![LaunchStep::SignalQuit, LaunchStep::CloseOwnMutex, LaunchStep::WaitForExit, LaunchStep::MonitorOff]
    );
    assert_eq!(plan_launch(both, true, false), vec![LaunchStep::MonitorOff]);
}

#[test]
fn stop_flags_never_start_the_app() {
    for req in [QUIT, OFF, LaunchRequest { quit: true, monitor_off: true }] {
        for created in [false, true] {
            for running in [false, true] {
                assert!(!plan_launch(req, created, running).contains(&LaunchStep::StartApp));
            }
        }
    }
}
