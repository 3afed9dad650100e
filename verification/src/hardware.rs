//! The hardware layers that the runtime can be built for.
//!
//! The layers are a list of which one can be selected; selecting one is a
//! transition of the supervisor.
use vstd::prelude::*;

use crate::plc::{PlcEvent, PlcEventView};
use crate::response::{TransitionRequest, TRANSITION_TIMEOUT_MS};

verus! {

/// The number of hardware layers that are built in.
pub const NUM_DRIVERS: usize = 12;

/// A hardware layer: the id it is selected by and the name it is shown
/// under.
#[derive(Debug, Clone, Copy, PartialEq, Eq)]
pub struct Driver {
    pub id: &'static str,
    pub name: &'static str,
}

/// The hardware layers and the id of the selected one.
#[derive(Debug, Clone, PartialEq, Eq)]
pub struct Drivers {
    pub items: [Driver; NUM_DRIVERS],
    /// The value of the id field of the selected item.
    pub selected: String,
}

/// The source of a custom hardware layer.
#[derive(Debug, Clone, PartialEq, Eq)]
pub struct Code {
    pub data: String,
}

/// The id of the built-in hardware layer at `index`.
pub open spec fn spec_driver_id(index: int) -> Seq<char> {
    if index == 0 {
        "blank"@
    } else if index == 1 {
        "blank_linux"@
    } else if index == 2 {
        "fischertechnik"@
    } else if index == 3 {
        "neuron"@
    } else if index == 4 {
        "pixtend"@
    } else if index == 5 {
        "pixtend_2s"@
    } else if index == 6 {
        "pixtend_2l"@
    } else if index == 7 {
        "rpi"@
    } else if index == 8 {
        "rpi_old"@
    } else if index == 9 {
        "simulink"@
    } else if index == 10 {
        "simulink_linux"@
    } else {
        "unipi"@
    }
}

/// The name of the built-in hardware layer at `index`.
pub open spec fn spec_driver_name(index: int) -> Seq<char> {
    if index == 0 {
        "Blank"@
    } else if index == 1 {
        "Blank with DNP3 (Linux only)"@
    } else if index == 2 {
        "Fischertechnik"@
    } else if index == 3 {
        "Neuron"@
    } else if index == 4 {
        "PiXtend"@
    } else if index == 5 {
        "PiXtend 2s"@
    } else if index == 6 {
        "PiXtend 2l"@
    } else if index == 7 {
        "Raspberry Pi"@
    } else if index == 8 {
        "Raspberry Pi - Old Model (2011 model B)"@
    } else if index == 9 {
        "Simulink"@
    } else if index == 10 {
        "Simulink with DNP3 (Linux only)"@
    } else {
        "UniPi v1.1"@
    }
}

/// The built-in hardware layers, with none of them selected.
pub fn drivers() -> (list: Drivers)
    ensures
        list.selected@ == "none"@,
        forall|i: int|
            0 <= i < NUM_DRIVERS ==> {
                &&& (#[trigger] list.items@[i]).id@ == spec_driver_id(i)
                &&& list.items@[i].name@ == spec_driver_name(i)
            },
{
    let items = [
        Driver { id: "blank", name: "Blank" },
        Driver { id: "blank_linux", name: "Blank with DNP3 (Linux only)" },
        Driver { id: "fischertechnik", name: "Fischertechnik" },
        Driver { id: "neuron", name: "Neuron" },
        Driver { id: "pixtend", name: "PiXtend" },
        Driver { id: "pixtend_2s", name: "PiXtend 2s" },
        Driver { id: "pixtend_2l", name: "PiXtend 2l" },
        Driver { id: "rpi", name: "Raspberry Pi" },
        Driver { id: "rpi_old", name: "Raspberry Pi - Old Model (2011 model B)" },
        Driver { id: "simulink", name: "Simulink" },
        Driver { id: "simulink_linux", name: "Simulink with DNP3 (Linux only)" },
        Driver { id: "unipi", name: "UniPi v1.1" },
    ];
    Drivers { items, selected: "none".to_owned() }
}

/// What selecting the hardware layer `selected` asks of the supervisor:
/// `SetHardware` with that id, within the bound that requests are given.
/// The id is passed on as it came; it need not be one of the built-in
/// layers.
pub fn select_driver(selected: String) -> (request: TransitionRequest)
    ensures
        request.event@ == PlcEventView::SetHardware(selected@),
        request.timeout_ms == TRANSITION_TIMEOUT_MS,
{
    TransitionRequest { event: PlcEvent::SetHardware(selected), timeout_ms: TRANSITION_TIMEOUT_MS }
}

/// The source of the custom hardware layer.
pub fn custom_driver() -> (code: Code)
    ensures
        code.data@ == "ok"@,
{
    Code { data: "ok".to_owned() }
}

/// The answer to a new source for the custom hardware layer; the source
/// that was sent is not kept.
pub fn set_custom_driver(message: Code) -> (code: Code)
    ensures
        code.data@ == "ok"@,
{
    Code { data: "ok".to_owned() }
}

/// The answer to a reset of the custom hardware layer.
pub fn reset_custom_driver() -> (code: Code)
    ensures
        code.data@ == "ok"@,
{
    Code { data: "ok".to_owned() }
}

} // verus!
