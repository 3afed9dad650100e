//! Queries of the operating system's process table.
//!
//! Both functions here take a fresh snapshot of the table on every call, so
//! what they return holds at the moment of the call and no longer: a process
//! may exit, and its pid may be given to another process, right after.
use sysinfo::{PidExt, ProcessExt, System, SystemExt};
use vstd::prelude::*;

verus! {

/// The pid of a process whose name is exactly `name`, if the process table
/// holds one.
///
/// Calls `sysinfo::System::new_all` and takes the first item of
/// `SystemExt::processes_by_exact_name`. Nothing is claimed of the result:
/// it depends on the machine at the moment of the call, and where several
/// processes carry the name, which of them comes first is left open by the
/// table the snapshot is held in.
#[verifier::external_body]
pub(crate) fn find_process_pid(name: &str) -> (found: Option<u32>) {
    let system = System::new_all();
    let found = system.processes_by_exact_name(name).next().map(|process| process.pid().as_u32());
    found
}

/// Whether the process table holds an entry for `pid`.
///
/// Calls `sysinfo::System::new_all` and `SystemExt::process`. Nothing is
/// claimed of the result: it depends on the machine at the moment of the
/// call, and an entry may belong to a later process that was given the same
/// pid.
#[verifier::external_body]
pub(crate) fn process_exists(pid: u32) -> (alive: bool) {
    let system = System::new_all();
    system.process(sysinfo::Pid::from_u32(pid)).is_some()
}

} // verus!
