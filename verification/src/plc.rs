//! The state machine that supervises the runtime process.
//!
//! ```text
//! +-----------+          +-----------+          +-----------+
//! |           |<---------|           |--------->|           |
//! | Compiling |          | Stopped   |          | Running   |
//! |           |--------->|           |<---------|           |
//! +-----------+          +-----------+          +-----------+
//!       |                      ^                      |
//!       |                +-----------+                |
//!       +--------------->| Stopping  |<---------------+
//!                        +-----------+
//! ```
//!
//! A transition is decided from three things the operating system may have
//! to tell: how a launched command ended, whether a process with the
//! runtime's name exists, and whether a given pid is still in the process
//! table. [`spec_next`] is the table over those three; [`PlcState::resolve`]
//! computes it, and [`PlcState::next`] asks the process table what the table
//! needs and then resolves.
use vstd::prelude::*;

use crate::discovery::{find_process_pid, process_exists};

verus! {

/// Identifier of an operating-system process. It is a back-reference, not
/// ownership: the supervisor never terminates the process it names.
pub type Pid = u32;

/// The family of operating system the supervisor runs on; it decides the
/// names of the scripts and of the runtime process.
#[derive(Debug, Copy, Clone, PartialEq, Eq, Structural)]
pub enum Platform {
    Unix,
    Windows,
    Unknown,
}

/// What the supervisor believes about the runtime process.
#[derive(Debug, Copy, Clone, PartialEq, Eq, Structural)]
pub enum PlcState {
    /// Nothing has been observed yet; left on the first event and never
    /// entered again.
    Initialize,
    Stopped,
    Stopping(Pid),
    Running(Pid),
    Compiling(Pid),
}

/// The events that drive the state machine.
#[derive(Debug, Clone, PartialEq, Eq)]
pub enum PlcEvent {
    /// Changes nothing on purpose, but re-validates the recorded state
    /// against the process table.
    NoOp,
    Compile(String),
    SetHardware(String),
    Run(String),
    Stop,
}

/// The mathematical value of a [`PlcEvent`].
pub enum PlcEventView {
    NoOp,
    Compile(Seq<char>),
    SetHardware(Seq<char>),
    Run(Seq<char>),
    Stop,
}

impl View for PlcEvent {
    type V = PlcEventView;

    open spec fn view(&self) -> PlcEventView {
        match *self {
            PlcEvent::NoOp => PlcEventView::NoOp,
            PlcEvent::Compile(file) => PlcEventView::Compile(file@),
            PlcEvent::SetHardware(name) => PlcEventView::SetHardware(name@),
            PlcEvent::Run(file) => PlcEventView::Run(file@),
            PlcEvent::Stop => PlcEventView::Stop,
        }
    }
}

/// A command for the launcher to run to completion.
#[derive(Debug, Clone, PartialEq, Eq)]
pub struct LaunchRequest {
    pub program: String,
    pub args: Vec<String>,
    pub working_dir: Option<String>,
}

/// The mathematical value of a [`LaunchRequest`].
pub struct LaunchRequestView {
    pub program: Seq<char>,
    pub args: Seq<Seq<char>>,
    pub working_dir: Option<Seq<char>>,
}

impl View for LaunchRequest {
    type V = LaunchRequestView;

    open spec fn view(&self) -> LaunchRequestView {
        LaunchRequestView {
            program: self.program@,
            args: self.args@.map_values(|a: String| a@),
            working_dir: match self.working_dir {
                Some(dir) => Some(dir@),
                None => None,
            },
        }
    }
}

/// How a launched command ended.
#[derive(Debug, Clone, PartialEq, Eq)]
pub enum LaunchOutcome {
    /// The command ran to completion, with this exit code where it has one.
    Exited(Option<i32>),
    /// The command could not be started or awaited; the text says why.
    Failed(String),
}

/// The mathematical value of a [`LaunchOutcome`].
pub enum LaunchOutcomeView {
    Exited(Option<i32>),
    Failed(Seq<char>),
}

impl View for LaunchOutcome {
    type V = LaunchOutcomeView;

    open spec fn view(&self) -> LaunchOutcomeView {
        match *self {
            LaunchOutcome::Exited(code) => LaunchOutcomeView::Exited(code),
            LaunchOutcome::Failed(reason) => LaunchOutcomeView::Failed(reason@),
        }
    }
}

/// Why a transition did not happen.
#[derive(Debug, Clone, PartialEq, Eq)]
pub enum PlcError {
    /// The event is not valid in the state; the state is unchanged.
    InvalidTransition(PlcState, PlcEvent),
    /// A command could not be run, or the runtime was not found after it.
    LaunchFailed(String),
    /// The runtime did not come to rest before the deadline.
    StopTimeout,
}

/// The mathematical value of a [`PlcError`].
pub enum PlcErrorView {
    InvalidTransition(PlcState, PlcEventView),
    LaunchFailed(Seq<char>),
    StopTimeout,
}

impl View for PlcError {
    type V = PlcErrorView;

    open spec fn view(&self) -> PlcErrorView {
        match *self {
            PlcError::InvalidTransition(state, event) => PlcErrorView::InvalidTransition(
                state,
                event@,
            ),
            PlcError::LaunchFailed(reason) => PlcErrorView::LaunchFailed(reason@),
            PlcError::StopTimeout => PlcErrorView::StopTimeout,
        }
    }
}

/// The value of a transition's result.
pub open spec fn result_view(result: Result<PlcState, PlcError>) -> Result<
    PlcState,
    PlcErrorView,
> {
    match result {
        Ok(state) => Ok(state),
        Err(error) => Err(error@),
    }
}

/// The value of a launch report, where there is one.
pub open spec fn launch_view(launch: Option<LaunchOutcome>) -> Option<LaunchOutcomeView> {
    match launch {
        Some(outcome) => Some(outcome@),
        None => None,
    }
}

/// The value of a launch request, where there is one.
pub open spec fn request_view(request: Option<LaunchRequest>) -> Option<LaunchRequestView> {
    match request {
        Some(r) => Some(r@),
        None => None,
    }
}

/// The name of the script that starts the runtime.
pub open spec fn spec_start_command(platform: Platform) -> Seq<char> {
    match platform {
        Platform::Unix => "openplc"@,
        Platform::Windows => "startplc.bat"@,
        Platform::Unknown => "unknown"@,
    }
}

/// The name under which the runtime appears in the process table.
pub open spec fn spec_process_name(platform: Platform) -> Seq<char> {
    match platform {
        Platform::Unix => "openplc"@,
        Platform::Windows => "openplc.exe"@,
        Platform::Unknown => "unknown"@,
    }
}

/// The name of the script that compiles a program.
pub open spec fn spec_compile_command(platform: Platform) -> Seq<char> {
    match platform {
        Platform::Unix => "compile"@,
        Platform::Windows => "compile.bat"@,
        Platform::Unknown => "unknown"@,
    }
}

/// The name of the script that switches the hardware layer.
pub open spec fn spec_change_hardware_command(platform: Platform) -> Seq<char> {
    match platform {
        Platform::Unix => "change_hardware_layer.sh"@,
        Platform::Windows => "change_hardware_layer.bat"@,
        Platform::Unknown => "unknown"@,
    }
}

/// The directory in which the hardware layer is switched.
pub open spec fn spec_hardware_dir() -> Seq<char> {
    "/bin"@
}

/// Returns the command that starts the runtime.
pub fn plc_start_command(platform: Platform) -> (command: &'static str)
    ensures
        command@ == spec_start_command(platform),
{
    match platform {
        Platform::Unix => "openplc",
        Platform::Windows => "startplc.bat",
        Platform::Unknown => "unknown",
    }
}

/// Returns the name of the runtime process.
pub fn plc_process_name(platform: Platform) -> (process: &'static str)
    ensures
        process@ == spec_process_name(platform),
{
    match platform {
        Platform::Unix => "openplc",
        Platform::Windows => "openplc.exe",
        Platform::Unknown => "unknown",
    }
}

/// Returns the command that compiles a program.
pub fn plc_compile_command(platform: Platform) -> (command: &'static str)
    ensures
        command@ == spec_compile_command(platform),
{
    match platform {
        Platform::Unix => "compile",
        Platform::Windows => "compile.bat",
        Platform::Unknown => "unknown",
    }
}

/// Returns the command that switches the hardware layer.
pub fn plc_change_hardware_command(platform: Platform) -> (command: &'static str)
    ensures
        command@ == spec_change_hardware_command(platform),
{
    match platform {
        Platform::Unix => "change_hardware_layer.sh",
        Platform::Windows => "change_hardware_layer.bat",
        Platform::Unknown => "unknown",
    }
}

/// The reason given when the runtime is not in the process table after its
/// script has run.
pub open spec fn spec_no_such_process() -> Seq<char> {
    "no such process"@
}

/// The reason given when a transition needs a command and no report of its
/// run was handed in.
pub open spec fn spec_not_launched() -> Seq<char> {
    "command was not run"@
}

/// The command that must have run to completion before `event` can be
/// applied in `state`: the compile script for `Compile`, the start script
/// for `Run`, and the hardware script with the profile's name for
/// `SetHardware`, each only while stopped.
pub open spec fn spec_launch_request(
    state: PlcState,
    event: PlcEventView,
    platform: Platform,
) -> Option<LaunchRequestView> {
    if state != PlcState::Stopped {
        None
    } else {
        match event {
            PlcEventView::Compile(_) => Some(
                LaunchRequestView {
                    program: spec_compile_command(platform),
                    args: Seq::empty(),
                    working_dir: None,
                },
            ),
            PlcEventView::Run(_) => Some(
                LaunchRequestView {
                    program: spec_start_command(platform),
                    args: Seq::empty(),
                    working_dir: None,
                },
            ),
            PlcEventView::SetHardware(name) => Some(
                LaunchRequestView {
                    program: spec_change_hardware_command(platform),
                    args: seq![name],
                    working_dir: Some(spec_hardware_dir()),
                },
            ),
            _ => None,
        }
    }
}

/// The state that a search of the process table by name stands for.
pub open spec fn spec_discovered(found: Option<Pid>) -> PlcState {
    match found {
        Some(pid) => PlcState::Running(pid),
        None => PlcState::Stopped,
    }
}

/// The state after a liveness check of the pid that `state` carries: the
/// state itself while the pid is present, `Stopped` once it is gone.
pub open spec fn spec_reconfirmed(state: PlcState, alive: bool) -> PlcState {
    if alive {
        state
    } else {
        PlcState::Stopped
    }
}

/// The result of a script after which the runtime is looked up by name. How
/// the script exited is not examined: the runtime counts as running exactly
/// when it is found.
pub open spec fn spec_relocated(launch: Option<LaunchOutcomeView>, found: Option<Pid>) -> Result<
    PlcState,
    PlcErrorView,
> {
    match launch {
        Some(LaunchOutcomeView::Exited(_)) => match found {
            Some(pid) => Ok(PlcState::Running(pid)),
            None => Err(PlcErrorView::LaunchFailed(spec_no_such_process())),
        },
        Some(LaunchOutcomeView::Failed(reason)) => Err(PlcErrorView::LaunchFailed(reason)),
        None => Err(PlcErrorView::LaunchFailed(spec_not_launched())),
    }
}

/// The result of the hardware script.
pub open spec fn spec_hardware_changed(launch: Option<LaunchOutcomeView>) -> Result<
    PlcState,
    PlcErrorView,
> {
    match launch {
        Some(LaunchOutcomeView::Exited(_)) => Ok(PlcState::Stopped),
        Some(LaunchOutcomeView::Failed(reason)) => Err(PlcErrorView::LaunchFailed(reason)),
        None => Err(PlcErrorView::LaunchFailed(spec_not_launched())),
    }
}

/// The transition table.
///
/// `launch` is the report of the command named by [`spec_launch_request`],
/// `found` what a search of the process table for the runtime's name gave,
/// and `alive` whether the pid carried by `state` is in the process table.
/// Each row reads only the observations it names.
pub open spec fn spec_next(
    state: PlcState,
    event: PlcEventView,
    launch: Option<LaunchOutcomeView>,
    found: Option<Pid>,
    alive: bool,
) -> Result<PlcState, PlcErrorView> {
    match state {
        PlcState::Initialize => match event {
            PlcEventView::NoOp | PlcEventView::Stop => Ok(spec_discovered(found)),
            _ => Err(PlcErrorView::InvalidTransition(state, event)),
        },
        PlcState::Stopped => match event {
            PlcEventView::NoOp | PlcEventView::Stop => Ok(PlcState::Stopped),
            PlcEventView::Compile(_) | PlcEventView::Run(_) => spec_relocated(launch, found),
            PlcEventView::SetHardware(_) => spec_hardware_changed(launch),
        },
        PlcState::Stopping(pid) | PlcState::Running(pid) | PlcState::Compiling(pid) => match event {
            PlcEventView::NoOp => Ok(spec_reconfirmed(state, alive)),
            PlcEventView::Stop => Ok(PlcState::Stopping(pid)),
            _ => Err(PlcErrorView::InvalidTransition(state, event)),
        },
    }
}

/// What a transition has to learn from the process table.
#[derive(Debug, Copy, Clone)]
pub enum Probe {
    /// The transition is decided without the process table.
    Nothing,
    /// Whether a process with exactly this name exists, and its pid.
    ByName(&'static str),
    /// Whether this pid is still in the table.
    ByPid(Pid),
}

/// The mathematical value of a [`Probe`].
pub enum ProbeView {
    Nothing,
    ByName(Seq<char>),
    ByPid(Pid),
}

impl View for Probe {
    type V = ProbeView;

    open spec fn view(&self) -> ProbeView {
        match *self {
            Probe::Nothing => ProbeView::Nothing,
            Probe::ByName(name) => ProbeView::ByName(name@),
            Probe::ByPid(pid) => ProbeView::ByPid(pid),
        }
    }
}

/// The query that [`spec_next`] reads for these inputs: a search for the
/// runtime's name on the first event and after a script that ran, a
/// liveness check of the recorded pid on `NoOp`.
pub open spec fn spec_probe(
    state: PlcState,
    event: PlcEventView,
    launch: Option<LaunchOutcomeView>,
    platform: Platform,
) -> ProbeView {
    match state {
        PlcState::Initialize => match event {
            PlcEventView::NoOp | PlcEventView::Stop => ProbeView::ByName(
                spec_process_name(platform),
            ),
            _ => ProbeView::Nothing,
        },
        PlcState::Stopped => match event {
            PlcEventView::Compile(_) | PlcEventView::Run(_) => match launch {
                Some(LaunchOutcomeView::Exited(_)) => ProbeView::ByName(
                    spec_process_name(platform),
                ),
                _ => ProbeView::Nothing,
            },
            _ => ProbeView::Nothing,
        },
        PlcState::Stopping(pid) | PlcState::Running(pid) | PlcState::Compiling(pid) => match event {
            PlcEventView::NoOp => ProbeView::ByPid(pid),
            _ => ProbeView::Nothing,
        },
    }
}

/// Records the intent to stop the process `pid`. No signal is delivered:
/// the state is advisory until a later `NoOp` finds the process gone.
pub fn stop_proc(pid: Pid) -> (next: PlcState)
    ensures
        next == PlcState::Stopping(pid),
{
    PlcState::Stopping(pid)
}

/// The state that a search of the process table by name stands for.
pub fn discovered(found: Option<Pid>) -> (next: PlcState)
    ensures
        next == spec_discovered(found),
{
    match found {
        Some(pid) => PlcState::Running(pid),
        None => PlcState::Stopped,
    }
}

/// The state after a liveness check of the pid that `state` carries.
pub fn reconfirmed(state: PlcState, alive: bool) -> (next: PlcState)
    ensures
        next == spec_reconfirmed(state, alive),
{
    if alive {
        state
    } else {
        PlcState::Stopped
    }
}

/// The result of a script after which the runtime is looked up by name.
pub fn relocated(
    launch: Option<LaunchOutcome>,
    found: Option<Pid>,
) -> (result: Result<PlcState, PlcError>)
    ensures
        result_view(result) == spec_relocated(launch_view(launch), found),
{
    match launch {
        Some(LaunchOutcome::Exited(_)) => match found {
            Some(pid) => Ok(PlcState::Running(pid)),
            None => Err(PlcError::LaunchFailed("no such process".to_owned())),
        },
        Some(LaunchOutcome::Failed(reason)) => Err(PlcError::LaunchFailed(reason)),
        None => Err(PlcError::LaunchFailed("command was not run".to_owned())),
    }
}

/// The result of the hardware script.
pub fn hardware_changed(launch: Option<LaunchOutcome>) -> (result: Result<PlcState, PlcError>)
    ensures
        result_view(result) == spec_hardware_changed(launch_view(launch)),
{
    match launch {
        Some(LaunchOutcome::Exited(_)) => Ok(PlcState::Stopped),
        Some(LaunchOutcome::Failed(reason)) => Err(PlcError::LaunchFailed(reason)),
        None => Err(PlcError::LaunchFailed("command was not run".to_owned())),
    }
}

impl PlcState {
    /// Whether the state is one that a reconciled machine can be in.
    pub open spec fn is_settled(self) -> bool {
        self != PlcState::Initialize
    }

    /// The transition table, computed from observations already made.
    pub fn resolve(
        self,
        event: PlcEvent,
        launch: Option<LaunchOutcome>,
        found: Option<Pid>,
        alive: bool,
    ) -> (result: Result<PlcState, PlcError>)
        ensures
            result_view(result) == spec_next(self, event@, launch_view(launch), found, alive),
    {
        match self {
            PlcState::Initialize => match event {
                PlcEvent::NoOp | PlcEvent::Stop => Ok(discovered(found)),
                other => Err(PlcError::InvalidTransition(self, other)),
            },
            PlcState::Stopped => match event {
                PlcEvent::NoOp | PlcEvent::Stop => Ok(PlcState::Stopped),
                PlcEvent::Compile(_) | PlcEvent::Run(_) => relocated(launch, found),
                PlcEvent::SetHardware(_) => hardware_changed(launch),
            },
            PlcState::Stopping(pid) | PlcState::Running(pid) | PlcState::Compiling(pid) => {
                match event {
                    PlcEvent::NoOp => Ok(reconfirmed(self, alive)),
                    PlcEvent::Stop => Ok(stop_proc(pid)),
                    other => Err(PlcError::InvalidTransition(self, other)),
                }
            },
        }
    }

    /// The command that the launcher has to run to completion before `event`
    /// is applied in this state, if the transition needs one.
    pub fn launch_request(
        self,
        event: &PlcEvent,
        platform: Platform,
    ) -> (request: Option<LaunchRequest>)
        ensures
            request_view(request) == spec_launch_request(self, event@, platform),
    {
        match self {
            PlcState::Stopped => match event {
                PlcEvent::Compile(_) => {
                    let request = LaunchRequest {
                        program: plc_compile_command(platform).to_owned(),
                        args: Vec::new(),
                        working_dir: None,
                    };
                    assert(request@.args =~= Seq::empty());
                    Some(request)
                },
                PlcEvent::Run(_) => {
                    let request = LaunchRequest {
                        program: plc_start_command(platform).to_owned(),
                        args: Vec::new(),
                        working_dir: None,
                    };
                    assert(request@.args =~= Seq::empty());
                    Some(request)
                },
                PlcEvent::SetHardware(name) => {
                    let mut args: Vec<String> = Vec::new();
                    args.push(name.clone());
                    let request = LaunchRequest {
                        program: plc_change_hardware_command(platform).to_owned(),
                        args,
                        working_dir: Some("/bin".to_owned()),
                    };
                    assert(request@.args =~= seq![name@]);
                    Some(request)
                },
                _ => None,
            },
            _ => None,
        }
    }

    /// The query of the process table that a transition needs.
    pub fn probe(
        self,
        event: &PlcEvent,
        launch: &Option<LaunchOutcome>,
        platform: Platform,
    ) -> (probe: Probe)
        ensures
            probe@ == spec_probe(self, event@, launch_view(*launch), platform),
    {
        match self {
            PlcState::Initialize => match event {
                PlcEvent::NoOp | PlcEvent::Stop => Probe::ByName(plc_process_name(platform)),
                _ => Probe::Nothing,
            },
            PlcState::Stopped => match event {
                PlcEvent::Compile(_) | PlcEvent::Run(_) => match launch {
                    Some(LaunchOutcome::Exited(_)) => Probe::ByName(plc_process_name(platform)),
                    _ => Probe::Nothing,
                },
                _ => Probe::Nothing,
            },
            PlcState::Stopping(pid) | PlcState::Running(pid) | PlcState::Compiling(pid) => {
                match event {
                    PlcEvent::NoOp => Probe::ByPid(pid),
                    _ => Probe::Nothing,
                }
            },
        }
    }

    /// Applies `event` to the state.
    ///
    /// `launch` reports the run of the command that [`PlcState::launch_request`]
    /// names for this state and event; it is not read where none is named.
    /// What the transition needs from the process table is asked of it here.
    /// The result is a row of [`spec_next`] for whatever the table answered,
    /// and is fixed by the arguments alone where the row asks nothing.
    pub fn next(
        self,
        event: PlcEvent,
        platform: Platform,
        launch: Option<LaunchOutcome>,
    ) -> (result: Result<PlcState, PlcError>)
        ensures
            exists|found: Option<Pid>, alive: bool|
                result_view(result) == spec_next(self, event@, launch_view(launch), found, alive),
            spec_probe(self, event@, launch_view(launch), platform) is Nothing ==> result_view(
                result,
            ) == spec_next(self, event@, launch_view(launch), None, false),
    {
        let probe = self.probe(&event, &launch, platform);
        let sighting = observe(probe);
        self.resolve(event, launch, sighting.found, sighting.alive)
    }
}

/// What the process table showed.
#[derive(Debug, Copy, Clone, PartialEq, Eq, Structural)]
pub struct Sighting {
    /// The pid found by name; `None` where none was found or none was
    /// searched for.
    pub found: Option<Pid>,
    /// Whether the pid asked about is in the table; `false` where none was
    /// asked about.
    pub alive: bool,
}

/// Puts `probe` to the process table. A search by name hands exactly the
/// probe's name to the table, and a liveness check exactly its pid; what
/// the table answers is not known before it is asked, and may differ from
/// one call to the next.
pub fn observe(probe: Probe) -> (sighting: Sighting)
    ensures
        probe@ is Nothing ==> sighting == (Sighting { found: None, alive: false }),
        probe@ is ByName ==> !sighting.alive,
        probe@ is ByPid ==> sighting.found is None,
{
    match probe {
        Probe::Nothing => Sighting { found: None, alive: false },
        Probe::ByName(name) => Sighting { found: find_process_pid(name), alive: false },
        Probe::ByPid(pid) => Sighting { found: None, alive: process_exists(pid) },
    }
}

/// Everything one application of an event reads.
pub struct Step {
    pub event: PlcEventView,
    pub launch: Option<LaunchOutcomeView>,
    pub found: Option<Pid>,
    pub alive: bool,
}

/// The state of a machine after one application: the new state where the
/// transition succeeded, the old one where it did not.
pub open spec fn spec_run(state: PlcState, step: Step) -> PlcState {
    match spec_next(state, step.event, step.launch, step.found, step.alive) {
        Ok(next) => next,
        Err(_) => state,
    }
}

/// The state of a machine after a series of applications, earliest first.
pub open spec fn spec_run_all(state: PlcState, steps: Seq<Step>) -> PlcState
    decreases steps.len(),
{
    if steps.len() == 0 {
        state
    } else {
        spec_run(spec_run_all(state, steps.drop_last()), steps.last())
    }
}

/// The state machine itself: the one state that all callers share.
#[derive(Debug)]
pub struct PlcStateMachine {
    pub state: PlcState,
    pub platform: Platform,
}

impl PlcStateMachine {
    /// A machine for a Unix host. It begins in `Initialize`: the runtime can
    /// run without the supervisor, so nothing is known until the process
    /// table has been read.
    pub fn new() -> (machine: Self)
        ensures
            machine.state == PlcState::Initialize,
            machine.platform == Platform::Unix,
    {
        PlcStateMachine { state: PlcState::Initialize, platform: Platform::Unix }
    }

    /// A machine for a host of the given family, in `Initialize`.
    pub fn on_platform(platform: Platform) -> (machine: Self)
        ensures
            machine.state == PlcState::Initialize,
            machine.platform == platform,
    {
        PlcStateMachine { state: PlcState::Initialize, platform }
    }

    /// The recorded state.
    pub fn query(&self) -> (state: PlcState)
        ensures
            state == self.state,
    {
        self.state
    }

    /// The command that has to run before `event` is handed to
    /// [`PlcStateMachine::run`], if the transition needs one.
    pub fn launch_request(&self, event: &PlcEvent) -> (request: Option<LaunchRequest>)
        ensures
            request_view(request) == spec_launch_request(self.state, event@, self.platform),
    {
        self.state.launch_request(event, self.platform)
    }

    /// Applies `event` and records the state it leads to. On an error the
    /// recorded state stays as it was.
    pub fn run(
        &mut self,
        event: PlcEvent,
        launch: Option<LaunchOutcome>,
    ) -> (result: Result<PlcState, PlcError>)
        ensures
            final(self).platform == old(self).platform,
            exists|found: Option<Pid>, alive: bool|
                result_view(result) == spec_next(
                    old(self).state,
                    event@,
                    launch_view(launch),
                    found,
                    alive,
                ),
            exists|found: Option<Pid>, alive: bool|
                final(self).state == #[trigger] spec_run(
                    old(self).state,
                    (Step { event: event@, launch: launch_view(launch), found, alive }),
                ),
            spec_probe(old(self).state, event@, launch_view(launch), old(self).platform) is Nothing
                ==> result_view(result) == spec_next(
                old(self).state,
                event@,
                launch_view(launch),
                None,
                false,
            ),
            match result {
                Ok(state) => final(self).state == state,
                Err(_) => final(self).state == old(self).state,
            },
    {
        let ghost before = self.state;
        let ghost applied = event@;
        let ghost report = launch_view(launch);
        let result = self.state.next(event, self.platform, launch);
        if let Ok(state) = result {
            self.state = state;
        }
        proof {
            let (found, alive) = choose|found: Option<Pid>, alive: bool|
                result_view(result) == spec_next(before, applied, report, found, alive);
            assert(self.state == spec_run(
                before,
                (Step { event: applied, launch: report, found, alive }),
            ));
        }
        result
    }

    /// Re-validates the recorded state against the process table by applying
    /// `NoOp`, which is valid in every state.
    pub fn reconcile(&mut self) -> (state: PlcState)
        ensures
            final(self).platform == old(self).platform,
            final(self).state == state,
            exists|found: Option<Pid>, alive: bool|
                Ok::<PlcState, PlcErrorView>(state) == spec_next(
                    old(self).state,
                    PlcEventView::NoOp,
                    None,
                    found,
                    alive,
                ),
    {
        match self.run(PlcEvent::NoOp, None) {
            Ok(state) => state,
            Err(_) => self.state,
        }
    }
}

} // verus!
