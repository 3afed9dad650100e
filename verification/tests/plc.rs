use plc_backend::plc::{
    discovered, hardware_changed, observe, plc_change_hardware_command, plc_compile_command,
    plc_process_name, plc_start_command, reconfirmed, relocated, stop_proc, LaunchOutcome,
    LaunchRequest, Platform, PlcError, PlcEvent, PlcState, PlcStateMachine, Probe, Sighting,
};

fn exited() -> Option<LaunchOutcome> {
    Some(LaunchOutcome::Exited(Some(0)))
}

#[test]
fn test_initial_state_initialize() {
    let sm = PlcStateMachine::new();
    assert!(matches!(sm.state, PlcState::Initialize));
}

#[test]
fn test_initial_state_noop_then_stopped() {
    let mut sm = PlcStateMachine::new();
    sm.run(PlcEvent::NoOp, None).expect("success changing state");
    assert!(matches!(sm.state, PlcState::Stopped));
}

#[test]
fn test_initial_state_stop_then_stopped() {
    let mut sm = PlcStateMachine::new();
    sm.run(PlcEvent::Stop, None).expect("success changing state");
    assert!(matches!(sm.state, PlcState::Stopped));
}

#[test]
fn command_names_by_platform() {
    assert_eq!(plc_start_command(Platform::Unix), "openplc");
    assert_eq!(plc_start_command(Platform::Windows), "startplc.bat");
    assert_eq!(plc_start_command(Platform::Unknown), "unknown");
    assert_eq!(plc_process_name(Platform::Unix), "openplc");
    assert_eq!(plc_process_name(Platform::Windows), "openplc.exe");
    assert_eq!(plc_process_name(Platform::Unknown), "unknown");
    assert_eq!(plc_compile_command(Platform::Unix), "compile");
    assert_eq!(plc_compile_command(Platform::Windows), "compile.bat");
    assert_eq!(plc_compile_command(Platform::Unknown), "unknown");
    assert_eq!(plc_change_hardware_command(Platform::Unix), "change_hardware_layer.sh");
    assert_eq!(plc_change_hardware_command(Platform::Windows), "change_hardware_layer.bat");
    assert_eq!(plc_change_hardware_command(Platform::Unknown), "unknown");
}

#[test]
fn initialize_without_runtime_resolves_to_stopped() {
    let next = PlcState::Initialize.resolve(PlcEvent::NoOp, None, None, false);
    assert_eq!(next, Ok(PlcState::Stopped));
    let next = PlcState::Initialize.resolve(PlcEvent::Stop, None, None, false);
    assert_eq!(next, Ok(PlcState::Stopped));
}

#[test]
fn initialize_with_runtime_resolves_to_running() {
    let next = PlcState::Initialize.resolve(PlcEvent::NoOp, None, Some(77), false);
    assert_eq!(next, Ok(PlcState::Running(77)));
    let next = PlcState::Initialize.resolve(PlcEvent::Stop, None, Some(77), true);
    assert_eq!(next, Ok(PlcState::Running(77)));
}

#[test]
fn stopped_is_idempotent_under_noop_and_stop() {
    let mut state = PlcState::Stopped;
    for round in 0..6 {
        let event = if round % 2 == 0 { PlcEvent::NoOp } else { PlcEvent::Stop };
        state = state.resolve(event, None, Some(9), true).expect("valid in Stopped");
        assert_eq!(state, PlcState::Stopped);
    }
    let mut sm = PlcStateMachine::new();
    sm.state = PlcState::Stopped;
    assert_eq!(sm.run(PlcEvent::NoOp, None), Ok(PlcState::Stopped));
    assert_eq!(sm.run(PlcEvent::Stop, None), Ok(PlcState::Stopped));
    assert_eq!(sm.reconcile(), PlcState::Stopped);
    assert_eq!(sm.query(), PlcState::Stopped);
}

#[test]
fn run_after_start_script_finds_runtime() {
    let next = PlcState::Stopped.resolve(
        PlcEvent::Run("prog.st".to_string()),
        exited(),
        Some(4242),
        false,
    );
    assert_eq!(next, Ok(PlcState::Running(4242)));
}

#[test]
fn compile_is_recorded_as_running() {
    let next = PlcState::Stopped.resolve(
        PlcEvent::Compile("prog.st".to_string()),
        Some(LaunchOutcome::Exited(None)),
        Some(31),
        false,
    );
    assert_eq!(next, Ok(PlcState::Running(31)));
}

#[test]
fn zero_exit_without_runtime_is_launch_failed() {
    let next =
        PlcState::Stopped.resolve(PlcEvent::Run("prog.st".to_string()), exited(), None, false);
    assert_eq!(next, Err(PlcError::LaunchFailed("no such process".to_string())));
    let next =
        PlcState::Stopped.resolve(PlcEvent::Compile("prog.st".to_string()), exited(), None, true);
    assert_eq!(next, Err(PlcError::LaunchFailed("no such process".to_string())));
}

#[test]
fn nonzero_exit_is_not_examined() {
    let next = PlcState::Stopped.resolve(
        PlcEvent::Run("prog.st".to_string()),
        Some(LaunchOutcome::Exited(Some(3))),
        Some(12),
        false,
    );
    assert_eq!(next, Ok(PlcState::Running(12)));
    assert_eq!(
        hardware_changed(Some(LaunchOutcome::Exited(Some(1)))),
        Ok(PlcState::Stopped)
    );
}

#[test]
fn spawn_failure_is_launch_failed() {
    let failed = Some(LaunchOutcome::Failed("No such file or directory".to_string()));
    let next =
        PlcState::Stopped.resolve(PlcEvent::Run("p".to_string()), failed.clone(), Some(5), false);
    assert_eq!(next, Err(PlcError::LaunchFailed("No such file or directory".to_string())));
    let next = PlcState::Stopped.resolve(
        PlcEvent::SetHardware("rpi".to_string()),
        failed.clone(),
        None,
        false,
    );
    assert_eq!(next, Err(PlcError::LaunchFailed("No such file or directory".to_string())));
    assert_eq!(
        relocated(failed, None),
        Err(PlcError::LaunchFailed("No such file or directory".to_string()))
    );
}

#[test]
fn missing_launch_report_is_launch_failed() {
    for event in [
        PlcEvent::Run("p".to_string()),
        PlcEvent::Compile("p".to_string()),
        PlcEvent::SetHardware("rpi".to_string()),
    ] {
        let next = PlcState::Stopped.resolve(event, None, Some(5), false);
        assert_eq!(next, Err(PlcError::LaunchFailed("command was not run".to_string())));
    }
    let mut sm = PlcStateMachine::new();
    sm.state = PlcState::Stopped;
    let result = sm.run(PlcEvent::Run("p".to_string()), None);
    assert_eq!(result, Err(PlcError::LaunchFailed("command was not run".to_string())));
    assert_eq!(sm.state, PlcState::Stopped);
}

#[test]
fn set_hardware_stays_stopped() {
    let next =
        PlcState::Stopped.resolve(PlcEvent::SetHardware("rpi".to_string()), exited(), Some(8), true);
    assert_eq!(next, Ok(PlcState::Stopped));
}

#[test]
fn noop_on_dead_pid_yields_stopped() {
    assert_eq!(
        PlcState::Running(4242).resolve(PlcEvent::NoOp, None, None, false),
        Ok(PlcState::Stopped)
    );
    assert_eq!(
        PlcState::Compiling(4242).resolve(PlcEvent::NoOp, None, None, false),
        Ok(PlcState::Stopped)
    );
    assert_eq!(
        PlcState::Stopping(4242).resolve(PlcEvent::NoOp, None, None, false),
        Ok(PlcState::Stopped)
    );
}

#[test]
fn noop_on_live_pid_keeps_the_state() {
    assert_eq!(
        PlcState::Running(4242).resolve(PlcEvent::NoOp, None, None, true),
        Ok(PlcState::Running(4242))
    );
    assert_eq!(
        PlcState::Compiling(4242).resolve(PlcEvent::NoOp, None, None, true),
        Ok(PlcState::Compiling(4242))
    );
    assert_eq!(
        PlcState::Stopping(4242).resolve(PlcEvent::NoOp, None, None, true),
        Ok(PlcState::Stopping(4242))
    );
}

#[test]
fn stop_is_advisory() {
    let stopping = PlcState::Running(4242)
        .resolve(PlcEvent::Stop, None, None, false)
        .expect("stop is valid while running");
    assert_eq!(stopping, PlcState::Stopping(4242));
    let after = stopping.resolve(PlcEvent::NoOp, None, None, true).expect("noop is valid");
    assert_eq!(after, PlcState::Stopping(4242));
    assert_eq!(
        PlcState::Compiling(7).resolve(PlcEvent::Stop, None, None, true),
        Ok(PlcState::Stopping(7))
    );
    assert_eq!(
        PlcState::Stopping(7).resolve(PlcEvent::Stop, None, None, true),
        Ok(PlcState::Stopping(7))
    );
    assert_eq!(stop_proc(19), PlcState::Stopping(19));
}

#[test]
fn unlisted_pairs_are_invalid_and_keep_the_state() {
    let states = [
        PlcState::Initialize,
        PlcState::Stopping(3),
        PlcState::Running(3),
        PlcState::Compiling(3),
    ];
    for state in states {
        for event in [
            PlcEvent::Compile("a.st".to_string()),
            PlcEvent::SetHardware("rpi".to_string()),
            PlcEvent::Run("a.st".to_string()),
        ] {
            let result = state.resolve(event.clone(), exited(), Some(1), true);
            assert_eq!(result, Err(PlcError::InvalidTransition(state, event.clone())));
            let through_table = state.next(event.clone(), Platform::Unix, exited());
            assert_eq!(through_table, Err(PlcError::InvalidTransition(state, event.clone())));
            let mut sm = PlcStateMachine::new();
            sm.state = state;
            assert!(sm.run(event, exited()).is_err());
            assert_eq!(sm.state, state);
        }
    }
}

#[test]
fn no_transition_returns_to_initialize() {
    let states = [
        PlcState::Initialize,
        PlcState::Stopped,
        PlcState::Stopping(3),
        PlcState::Running(3),
        PlcState::Compiling(3),
    ];
    let events = [
        PlcEvent::NoOp,
        PlcEvent::Stop,
        PlcEvent::Compile("a".to_string()),
        PlcEvent::Run("a".to_string()),
        PlcEvent::SetHardware("a".to_string()),
    ];
    for state in states {
        for event in events.iter() {
            for found in [None, Some(5)] {
                for alive in [false, true] {
                    if let Ok(next) = state.resolve(event.clone(), exited(), found, alive) {
                        assert_ne!(next, PlcState::Initialize);
                    }
                }
            }
        }
    }
}

#[test]
fn launch_requests_name_the_scripts() {
    let stopped = PlcState::Stopped;
    assert_eq!(
        stopped.launch_request(&PlcEvent::Run("prog.st".to_string()), Platform::Unix),
        Some(LaunchRequest { program: "openplc".to_string(), args: vec![], working_dir: None })
    );
    assert_eq!(
        stopped.launch_request(&PlcEvent::Compile("prog.st".to_string()), Platform::Windows),
        Some(LaunchRequest { program: "compile.bat".to_string(), args: vec![], working_dir: None })
    );
    assert_eq!(
        stopped.launch_request(&PlcEvent::SetHardware("rpi".to_string()), Platform::Unix),
        Some(LaunchRequest {
            program: "change_hardware_layer.sh".to_string(),
            args: vec!["rpi".to_string()],
            working_dir: Some("/bin".to_string()),
        })
    );
    assert_eq!(stopped.launch_request(&PlcEvent::NoOp, Platform::Unix), None);
    assert_eq!(stopped.launch_request(&PlcEvent::Stop, Platform::Unix), None);
    assert_eq!(
        PlcState::Running(1).launch_request(&PlcEvent::Run("p".to_string()), Platform::Unix),
        None
    );
    assert_eq!(
        PlcState::Initialize.launch_request(&PlcEvent::Compile("p".to_string()), Platform::Unix),
        None
    );
    let mut sm = PlcStateMachine::on_platform(Platform::Windows);
    assert_eq!(sm.platform, Platform::Windows);
    assert_eq!(sm.state, PlcState::Initialize);
    sm.state = PlcState::Stopped;
    assert_eq!(
        sm.launch_request(&PlcEvent::Run("p".to_string())),
        Some(LaunchRequest { program: "startplc.bat".to_string(), args: vec![], working_dir: None })
    );
}

#[test]
fn probes_follow_the_table() {
    let none: Option<LaunchOutcome> = None;
    assert!(matches!(
        PlcState::Initialize.probe(&PlcEvent::NoOp, &none, Platform::Unix),
        Probe::ByName("openplc")
    ));
    assert!(matches!(
        PlcState::Initialize.probe(&PlcEvent::Stop, &none, Platform::Windows),
        Probe::ByName("openplc.exe")
    ));
    assert!(matches!(
        PlcState::Stopped.probe(&PlcEvent::Run("p".to_string()), &exited(), Platform::Unix),
        Probe::ByName("openplc")
    ));
    assert!(matches!(
        PlcState::Stopped.probe(&PlcEvent::Run("p".to_string()), &none, Platform::Unix),
        Probe::Nothing
    ));
    assert!(matches!(
        PlcState::Stopped.probe(&PlcEvent::SetHardware("p".to_string()), &exited(), Platform::Unix),
        Probe::Nothing
    ));
    assert!(matches!(
        PlcState::Running(9).probe(&PlcEvent::NoOp, &none, Platform::Unix),
        Probe::ByPid(9)
    ));
    assert!(matches!(
        PlcState::Running(9).probe(&PlcEvent::Stop, &none, Platform::Unix),
        Probe::Nothing
    ));
}

#[test]
fn decisions_on_given_observations() {
    assert_eq!(discovered(Some(4242)), PlcState::Running(4242));
    assert_eq!(discovered(None), PlcState::Stopped);
    assert_eq!(reconfirmed(PlcState::Compiling(2), true), PlcState::Compiling(2));
    assert_eq!(reconfirmed(PlcState::Compiling(2), false), PlcState::Stopped);
    assert_eq!(relocated(exited(), Some(6)), Ok(PlcState::Running(6)));
    assert_eq!(hardware_changed(exited()), Ok(PlcState::Stopped));
}

#[test]
fn observing_nothing_asks_nothing() {
    assert_eq!(observe(Probe::Nothing), Sighting { found: None, alive: false });
}

#[test]
fn first_process_is_alive() {
    let sighting = observe(Probe::ByPid(1));
    assert_eq!(sighting, Sighting { found: None, alive: true });
    assert_eq!(
        PlcState::Running(1).next(PlcEvent::NoOp, Platform::Unix, None),
        Ok(PlcState::Running(1))
    );
}

#[test]
fn unused_pid_is_not_alive() {
    let sighting = observe(Probe::ByPid(u32::MAX));
    assert_eq!(sighting, Sighting { found: None, alive: false });
    assert_eq!(
        PlcState::Running(u32::MAX).next(PlcEvent::NoOp, Platform::Unix, None),
        Ok(PlcState::Stopped)
    );
}

#[test]
fn unknown_name_is_not_found() {
    let sighting = observe(Probe::ByName("no-such-runtime-anywhere"));
    assert_eq!(sighting, Sighting { found: None, alive: false });
}

#[test]
fn run_without_runtime_fails_after_a_clean_exit() {
    let mut sm = PlcStateMachine::new();
    sm.state = PlcState::Stopped;
    let result = sm.run(PlcEvent::Run("prog.st".to_string()), exited());
    assert_eq!(result, Err(PlcError::LaunchFailed("no such process".to_string())));
    assert_eq!(sm.state, PlcState::Stopped);
}
