//! How states, events and errors read in a log or a message.
use vstd::prelude::*;
use vstd::string::StringExecFns;

use crate::plc::{PlcError, PlcErrorView, PlcEvent, PlcEventView, PlcState};

verus! {

/// The character of a decimal digit.
pub open spec fn spec_digit(digit: nat) -> char {
    if digit == 0 {
        '0'
    } else if digit == 1 {
        '1'
    } else if digit == 2 {
        '2'
    } else if digit == 3 {
        '3'
    } else if digit == 4 {
        '4'
    } else if digit == 5 {
        '5'
    } else if digit == 6 {
        '6'
    } else if digit == 7 {
        '7'
    } else if digit == 8 {
        '8'
    } else {
        '9'
    }
}

/// A number in decimal, without sign or leading zeros.
pub open spec fn spec_decimal(n: nat) -> Seq<char>
    decreases n,
{
    if n < 10 {
        seq![spec_digit(n)]
    } else {
        spec_decimal(n / 10).push(spec_digit(n % 10))
    }
}

fn digit_text(digit: u32) -> (text: &'static str)
    requires
        digit < 10,
    ensures
        text@ == seq![spec_digit(digit as nat)],
{
    proof {
        reveal_strlit("0");
        reveal_strlit("1");
        reveal_strlit("2");
        reveal_strlit("3");
        reveal_strlit("4");
        reveal_strlit("5");
        reveal_strlit("6");
        reveal_strlit("7");
        reveal_strlit("8");
        reveal_strlit("9");
    }
    let text = if digit == 0 {
        "0"
    } else if digit == 1 {
        "1"
    } else if digit == 2 {
        "2"
    } else if digit == 3 {
        "3"
    } else if digit == 4 {
        "4"
    } else if digit == 5 {
        "5"
    } else if digit == 6 {
        "6"
    } else if digit == 7 {
        "7"
    } else if digit == 8 {
        "8"
    } else {
        "9"
    };
    assert(text@ =~= seq![spec_digit(digit as nat)]);
    text
}

/// Writes a number in decimal.
pub fn decimal(n: u32) -> (text: String)
    ensures
        text@ == spec_decimal(n as nat),
    decreases n,
{
    if n < 10 {
        digit_text(n).to_owned()
    } else {
        let mut text = decimal(n / 10);
        text.append(digit_text(n % 10));
        assert(text@ =~= spec_decimal(n as nat));
        text
    }
}

/// How a state reads.
pub open spec fn spec_state_text(state: PlcState) -> Seq<char> {
    match state {
        PlcState::Initialize => "State: Initialize"@,
        PlcState::Stopped => "State: Stopped"@,
        PlcState::Stopping(pid) => "State: Stopping "@ + spec_decimal(pid as nat),
        PlcState::Running(pid) => "State: Running "@ + spec_decimal(pid as nat),
        PlcState::Compiling(pid) => "State: Compiling "@ + spec_decimal(pid as nat),
    }
}

/// How an event reads.
pub open spec fn spec_event_text(event: PlcEventView) -> Seq<char> {
    match event {
        PlcEventView::NoOp => "Event: NoOp"@,
        PlcEventView::Compile(file) => "Event: Compile "@ + file,
        PlcEventView::SetHardware(name) => "Event: Set Hardware "@ + name,
        PlcEventView::Run(file) => "Event: Run "@ + file,
        PlcEventView::Stop => "Event: Stop"@,
    }
}

/// How an error reads.
pub open spec fn spec_error_text(error: PlcErrorView) -> Seq<char> {
    match error {
        PlcErrorView::InvalidTransition(state, event) => "Invalid transition: event "@
            + spec_event_text(event) + " not valid in "@ + spec_state_text(state),
        PlcErrorView::LaunchFailed(reason) => reason,
        PlcErrorView::StopTimeout => "Timed out waiting to stop"@,
    }
}

impl PlcState {
    /// The state as text: its name and, where it carries one, the pid.
    pub fn to_string(&self) -> (text: String)
        ensures
            text@ == spec_state_text(*self),
    {
        match self {
            PlcState::Initialize => "State: Initialize".to_owned(),
            PlcState::Stopped => "State: Stopped".to_owned(),
            PlcState::Stopping(pid) => "State: Stopping ".to_owned().concat(
                decimal(*pid).as_str(),
            ),
            PlcState::Running(pid) => "State: Running ".to_owned().concat(decimal(*pid).as_str()),
            PlcState::Compiling(pid) => "State: Compiling ".to_owned().concat(
                decimal(*pid).as_str(),
            ),
        }
    }
}

impl PlcEvent {
    /// The event as text: its name and, where it carries one, the file or
    /// the hardware layer.
    pub fn to_string(&self) -> (text: String)
        ensures
            text@ == spec_event_text(self@),
    {
        match self {
            PlcEvent::NoOp => "Event: NoOp".to_owned(),
            PlcEvent::Compile(file) => "Event: Compile ".to_owned().concat(file.as_str()),
            PlcEvent::SetHardware(name) => "Event: Set Hardware ".to_owned().concat(name.as_str()),
            PlcEvent::Run(file) => "Event: Run ".to_owned().concat(file.as_str()),
            PlcEvent::Stop => "Event: Stop".to_owned(),
        }
    }
}

impl PlcError {
    /// The error as a message.
    pub fn to_string(&self) -> (text: String)
        ensures
            text@ == spec_error_text(self@),
    {
        match self {
            PlcError::InvalidTransition(state, event) => {
                let mut text = "Invalid transition: event ".to_owned();
                text.append(event.to_string().as_str());
                text.append(" not valid in ");
                text.append(state.to_string().as_str());
                text
            },
            PlcError::LaunchFailed(reason) => reason.clone(),
            PlcError::StopTimeout => "Timed out waiting to stop".to_owned(),
        }
    }
}

} // verus!
