//! The Modbus devices that the runtime talks to.
use vstd::prelude::*;

use crate::response::removed;

verus! {

/// A range of registers: where it starts and how many it holds.
#[derive(Debug, Clone, Copy, PartialEq, Eq, Structural)]
pub struct ModbusRegisterDefinition {
    pub start: u8,
    pub size: u8,
}

/// A Modbus device. The id may be left empty when a device is created.
#[derive(Debug, Clone, PartialEq, Eq)]
pub struct ModbusDevice {
    pub id: String,
    pub name: String,
    pub di: ModbusRegisterDefinition,
    pub ai: ModbusRegisterDefinition,
    pub ao: ModbusRegisterDefinition,
}

/// The mathematical value of a [`ModbusDevice`].
pub struct ModbusDeviceView {
    pub id: Seq<char>,
    pub name: Seq<char>,
    pub di: ModbusRegisterDefinition,
    pub ai: ModbusRegisterDefinition,
    pub ao: ModbusRegisterDefinition,
}

impl View for ModbusDevice {
    type V = ModbusDeviceView;

    open spec fn view(&self) -> ModbusDeviceView {
        ModbusDeviceView { id: self.id@, name: self.name@, di: self.di, ai: self.ai, ao: self.ao }
    }
}

/// The one device that is listed: all its ranges empty.
pub open spec fn spec_device() -> ModbusDeviceView {
    let empty = ModbusRegisterDefinition { start: 0, size: 0 };
    ModbusDeviceView { id: "id"@, name: "world"@, di: empty, ai: empty, ao: empty }
}

/// The devices to list. What is stored does not enter the list.
pub fn devices() -> (list: Vec<ModbusDevice>)
    ensures
        list@.len() == 1,
        list@[0]@ == spec_device(),
{
    let device = ModbusDevice {
        id: "id".to_owned(),
        name: "world".to_owned(),
        di: ModbusRegisterDefinition { start: 0, size: 0 },
        ai: ModbusRegisterDefinition { start: 0, size: 0 },
        ao: ModbusRegisterDefinition { start: 0, size: 0 },
    };
    let mut list: Vec<ModbusDevice> = Vec::new();
    list.push(device);
    list
}

/// The answer to a new device: the device as it was sent.
pub fn add_device(message: ModbusDevice) -> (answer: ModbusDevice)
    ensures
        answer == message,
{
    message
}

/// The answer to the removal of a device, from the number of rows that
/// went: done where it was exactly one, nothing otherwise.
pub fn delete_device(affected: usize) -> (done: Option<()>)
    ensures
        done is Some <==> affected == 1,
{
    if removed(affected) {
        Some(())
    } else {
        None
    }
}

/// The names of the serial ports, from a listing of them; `None` says that
/// they could not be listed, which is answered with an empty message.
pub fn ports(listing: Option<Vec<String>>) -> (answer: Result<Vec<String>, String>)
    ensures
        match listing {
            Some(names) => answer == Ok::<Vec<String>, String>(names),
            None => answer is Err && answer->Err_0@ == ""@,
        },
{
    match listing {
        Some(names) => Ok(names),
        None => Err("".to_owned()),
    }
}

} // verus!
