//! What the service tells of the runtime, and what it is asked to make of
//! it. The service can ask for a state; it does not own the state.
use vstd::prelude::*;

use crate::plc::PlcState;
use crate::response::{Error, ErrorResponse, IM_A_TEAPOT};

verus! {

/// The state of the runtime as clients name it.
#[allow(non_camel_case_types)]
#[derive(Debug, Copy, Clone, PartialEq, Eq, Structural)]
pub enum AppState {
    RUNNING,
    COMPILING,
    STOPPED,
}

/// What is reported of the selected program and the runtime.
#[derive(Debug, Clone, PartialEq, Eq)]
pub struct StateInfo {
    /// The name of the selected program.
    pub name: String,
    pub description: String,
    pub path: String,
    pub hostname: String,
    pub uptime: String,
    pub state: AppState,
}

/// The mathematical value of a [`StateInfo`].
pub struct StateInfoView {
    pub name: Seq<char>,
    pub description: Seq<char>,
    pub path: Seq<char>,
    pub hostname: Seq<char>,
    pub uptime: Seq<char>,
    pub state: AppState,
}

impl View for StateInfo {
    type V = StateInfoView;

    open spec fn view(&self) -> StateInfoView {
        StateInfoView {
            name: self.name@,
            description: self.description@,
            path: self.path@,
            hostname: self.hostname@,
            uptime: self.uptime@,
            state: self.state,
        }
    }
}

/// A request to bring the runtime into a state.
#[derive(Debug, Clone, PartialEq, Eq)]
pub struct StateRequest {
    pub message: String,
    pub state: AppState,
}

/// The text of a log.
#[derive(Debug, Clone, PartialEq, Eq)]
pub struct Logs {
    pub data: String,
}

/// The report that names `state`; all else in it is fixed.
pub open spec fn spec_state_info(state: AppState) -> StateInfoView {
    StateInfoView {
        name: "world"@,
        description: "hello"@,
        path: "file_name"@,
        hostname: "localhost"@,
        uptime: "f"@,
        state,
    }
}

/// The text that both logs hold.
pub open spec fn spec_logs() -> Seq<char> {
    "logs content"@
}

fn state_info(state: AppState) -> (info: StateInfo)
    ensures
        info@ == spec_state_info(state),
{
    StateInfo {
        name: "world".to_owned(),
        description: "hello".to_owned(),
        path: "file_name".to_owned(),
        hostname: "localhost".to_owned(),
        uptime: "f".to_owned(),
        state,
    }
}

/// The report of the runtime's state, from a reading of the machine;
/// `None` says that the machine could not be read. Whatever was read, the
/// report names the runtime as stopped; a machine that could not be read
/// is answered with a refusal.
pub fn state(snapshot: Option<PlcState>) -> (answer: Result<StateInfo, ErrorResponse>)
    ensures
        snapshot is Some ==> answer is Ok && answer->Ok_0@ == spec_state_info(AppState::STOPPED),
        snapshot is None ==> answer is Err && {
            &&& answer->Err_0.status == IM_A_TEAPOT
            &&& answer->Err_0.error.code@ == ""@
            &&& answer->Err_0.error.title@ == ""@
        },
{
    match snapshot {
        Some(_) => Ok(state_info(AppState::STOPPED)),
        None => Err(Error::response(IM_A_TEAPOT, "", "")),
    }
}

/// The answer to a request for a state: the report that names the state
/// asked for. The runtime itself is not touched.
pub fn set_state(message: StateRequest) -> (answer: Result<StateInfo, ErrorResponse>)
    ensures
        answer is Ok,
        answer->Ok_0@ == spec_state_info(message.state),
{
    Ok(state_info(message.state))
}

/// The runtime's log.
pub fn logs() -> (log: Logs)
    ensures
        log.data@ == spec_logs(),
{
    Logs { data: "logs content".to_owned() }
}

/// The compiler's log.
pub fn compile_logs() -> (log: Logs)
    ensures
        log.data@ == spec_logs(),
{
    Logs { data: "logs content".to_owned() }
}

} // verus!
