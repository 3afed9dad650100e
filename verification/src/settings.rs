//! The settings of the runtime's protocol servers.
use vstd::prelude::*;

verus! {

/// Which protocol servers the runtime offers, and where.
#[derive(Debug, Clone, Copy, PartialEq, Eq, Structural)]
pub struct Settings {
    pub modbus_enabled: bool,
    pub modbus_port: u32,
    pub dnp3_enabled: bool,
    pub dnp3_port: u32,
    pub enip_enabled: bool,
    pub enip_port: u32,
    pub persistent_storage_enabled: bool,
    pub start_in_run: bool,
}

/// The settings in force: every protocol server on its standard port,
/// nothing persisted, and no start on boot.
pub open spec fn spec_settings() -> Settings {
    Settings {
        modbus_enabled: true,
        modbus_port: 502,
        dnp3_enabled: true,
        dnp3_port: 20000,
        enip_enabled: true,
        enip_port: 44818,
        persistent_storage_enabled: false,
        start_in_run: false,
    }
}

/// The settings in force.
pub fn settings() -> (current: Settings)
    ensures
        current == spec_settings(),
{
    Settings {
        modbus_enabled: true,
        modbus_port: 502,
        dnp3_enabled: true,
        dnp3_port: 20000,
        enip_enabled: true,
        enip_port: 44818,
        persistent_storage_enabled: false,
        start_in_run: false,
    }
}

} // verus!
