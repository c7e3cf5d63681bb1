use no_sleep_till_brooklyn::exit_wait::{ExitWait, MutexProbe, WaitStep, EXIT_WAIT_MAX_PROBES, EXIT_WAIT_POLL_MS};

/// Drives a wait with the given probe outcomes; returns (probes made, ms slept).
fn drive(outcomes: &[MutexProbe]) -> (usize, u64) {
    let mut wait = ExitWait::new();
    let mut probes = 0;
    let mut slept = 0;
    let mut next = outcomes.iter();
    while wait.wants_probe() {
        let Some(&probe) = next.next() else { break };
        probes += 1;
        match wait.on_probe(probe) {
            WaitStep::Sleep(ms) => slept += ms,
            WaitStep::Done => break,
        }
    }
    (probes, slept)
}

#[test]
fn wait_parameters_give_two_seconds() {
    assert_eq!(EXIT_WAIT_MAX_PROBES, 100);
    assert_eq!(EXIT_WAIT_POLL_MS, 20);
    assert_eq!(EXIT_WAIT_MAX_PROBES as u64 * EXIT_WAIT_POLL_MS, 2000);
}

#[test]
fn copy_already_gone_ends_wait_at_first_probe() {
    assert_eq!(drive(&[MutexProbe::Gone]), (1, 0));
}

#[test]
fn wait_ends_when_copy_exits() {
    let mut outcomes = vec![MutexProbe::StillOpen; 7];
    outcomes.push(MutexProbe::Gone);
    outcomes.extend(vec![MutexProbe::StillOpen; 10]);
    assert_eq!(drive(&outcomes), (8, 7 * 20));
}

#[test]
fn wedged_copy_gives_up_after_two_seconds() {
    let outcomes = vec![MutexProbe::StillOpen; 500];
    assert_eq!(drive(&outcomes), (100, 2000));
}

#[test]
fn gone_on_last_allowed_probe() {
    let mut outcomes = vec![MutexProbe::StillOpen; 99];
    outcomes.push(MutexProbe::Gone);
    assert_eq!(drive(&outcomes), (100, 99 * 20));
}

#[test]
fn new_wait_wants_a_probe_and_done_wait_does_not() {
    let mut wait = ExitWait::new();
    assert!(wait.wants_probe());
    assert_eq!(wait.on_probe(MutexProbe::StillOpen), WaitStep::Sleep(20));
    assert!(wait.wants_probe());
    assert_eq!(wait.on_probe(MutexProbe::Gone), WaitStep::Done);
    assert!(!wait.wants_probe());
}
