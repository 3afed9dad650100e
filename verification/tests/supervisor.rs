use plc_backend::plc::{
    LaunchOutcome, LaunchRequest, Platform, PlcError, PlcEvent, PlcState, PlcStateMachine,
};
use plc_backend::supervisor::{
    backoff, deadline_after, Verdict, POLL_INTERVAL_MS, RECONCILE_PERIOD_MS,
};

fn machine_in(state: PlcState) -> PlcStateMachine {
    let mut machine = PlcStateMachine::new();
    machine.state = state;
    machine
}

#[test]
fn periods() {
    assert_eq!(POLL_INTERVAL_MS, 100);
    assert_eq!(RECONCILE_PERIOD_MS, 5000);
}

#[test]
fn deadline_is_start_plus_timeout() {
    assert_eq!(deadline_after(0, 2000), 2000);
    assert_eq!(deadline_after(1500, 2000), 3500);
    assert_eq!(deadline_after(7, 0), 7);
}

#[test]
fn deadline_saturates() {
    assert_eq!(deadline_after(u64::MAX, 1), u64::MAX);
    assert_eq!(deadline_after(u64::MAX - 5, 5), u64::MAX);
    assert_eq!(deadline_after(u64::MAX - 5, 6), u64::MAX);
}

#[test]
fn backoff_sleeps_the_interval_or_the_rest() {
    assert_eq!(backoff(0, 2000), Verdict::Retry(100));
    assert_eq!(backoff(1900, 2000), Verdict::Retry(100));
    assert_eq!(backoff(1901, 2000), Verdict::Retry(99));
    assert_eq!(backoff(1999, 2000), Verdict::Retry(1));
    assert_eq!(backoff(0, 30), Verdict::Retry(30));
}

#[test]
fn backoff_gives_up_from_the_deadline_on() {
    assert_eq!(backoff(2000, 2000), Verdict::GiveUp(PlcError::StopTimeout));
    assert_eq!(backoff(5100, 2000), Verdict::GiveUp(PlcError::StopTimeout));
    assert_eq!(backoff(0, 0), Verdict::GiveUp(PlcError::StopTimeout));
}

#[test]
fn attempt_on_stopped_machine_applies() {
    let mut machine = machine_in(PlcState::Stopped);
    let verdict = machine.attempt(&PlcEvent::Stop, 0, 2000);
    assert_eq!(verdict, Verdict::Apply(None));
    assert_eq!(machine.run(PlcEvent::Stop, None), Ok(PlcState::Stopped));
}

#[test]
fn attempt_names_the_command_to_run() {
    let mut machine = machine_in(PlcState::Stopped);
    let event = PlcEvent::SetHardware("neuron".to_string());
    let verdict = machine.attempt(&event, 10, 2010);
    assert_eq!(
        verdict,
        Verdict::Apply(Some(LaunchRequest {
            program: "change_hardware_layer.sh".to_string(),
            args: vec!["neuron".to_string()],
            working_dir: Some("/bin".to_string()),
        }))
    );
    let applied = machine.run(event, Some(LaunchOutcome::Exited(Some(0))));
    assert_eq!(applied, Ok(PlcState::Stopped));
}

#[test]
fn attempt_applies_even_after_the_deadline() {
    let mut machine = machine_in(PlcState::Stopped);
    let verdict = machine.attempt(&PlcEvent::Run("prog.st".to_string()), 9000, 2000);
    assert_eq!(
        verdict,
        Verdict::Apply(Some(LaunchRequest {
            program: "openplc".to_string(),
            args: vec![],
            working_dir: None,
        }))
    );
}

#[test]
fn attempt_on_running_machine_records_stopping_and_retries() {
    let mut machine = machine_in(PlcState::Running(4242));
    let verdict = machine.attempt(&PlcEvent::Compile("prog.st".to_string()), 0, 2000);
    assert_eq!(verdict, Verdict::Retry(100));
    assert_eq!(machine.state, PlcState::Stopping(4242));
    let verdict = machine.attempt(&PlcEvent::Compile("prog.st".to_string()), 1950, 2000);
    assert_eq!(verdict, Verdict::Retry(50));
    assert_eq!(machine.state, PlcState::Stopping(4242));
}

#[test]
fn transition_behind_a_long_script_times_out() {
    let mut machine = machine_in(PlcState::Running(4242));
    let event = PlcEvent::Compile("prog.st".to_string());
    let deadline = deadline_after(0, 2000);
    assert_eq!(machine.attempt(&event, 0, deadline), Verdict::Retry(100));
    assert_eq!(machine.attempt(&event, 5100, deadline), Verdict::GiveUp(PlcError::StopTimeout));
    assert_eq!(machine.state, PlcState::Stopping(4242));
}

#[test]
fn stop_succeeds_once_the_exit_is_recorded() {
    let mut machine = machine_in(PlcState::Running(u32::MAX));
    let deadline = deadline_after(0, 2000);
    assert_eq!(machine.attempt(&PlcEvent::Stop, 0, deadline), Verdict::Retry(100));
    assert_eq!(machine.state, PlcState::Stopping(u32::MAX));
    assert_eq!(machine.reconcile(), PlcState::Stopped);
    assert_eq!(machine.attempt(&PlcEvent::Stop, 100, deadline), Verdict::Apply(None));
    assert_eq!(machine.run(PlcEvent::Stop, None), Ok(PlcState::Stopped));
}

#[test]
fn stop_times_out_while_the_process_lives() {
    let mut machine = machine_in(PlcState::Running(1));
    let deadline = deadline_after(0, 300);
    let mut now = 0;
    let mut rounds = 0;
    let verdict = loop {
        rounds += 1;
        match machine.attempt(&PlcEvent::Stop, now, deadline) {
            Verdict::Retry(millis) => {
                assert_eq!(machine.reconcile(), PlcState::Stopping(1));
                now += millis;
            }
            other => break other,
        }
    };
    assert_eq!(verdict, Verdict::GiveUp(PlcError::StopTimeout));
    assert_eq!(rounds, 4);
    assert_eq!(now, 300);
}

#[test]
fn first_attempt_discovers() {
    let mut machine = PlcStateMachine::on_platform(Platform::Unix);
    let verdict = machine.attempt(&PlcEvent::NoOp, 0, 2000);
    assert_eq!(verdict, Verdict::Apply(None));
    assert_eq!(machine.state, PlcState::Stopped);
}
