//! Supervision of a long-running control-program process, and the plain
//! values that the service around it exchanges with its clients.
//!
//! [`plc`] holds the state machine and its transition table, [`discovery`]
//! the queries of the process table that the table reads, [`supervisor`]
//! the bounded stop-then-apply protocol, and [`text`] how states, events
//! and errors read; [`theorems`] states what holds of the table for all
//! inputs. The other modules hold what the service answers with.
pub mod cors;
pub mod devices;
pub mod discovery;
pub mod hardware;
pub mod plc;
pub mod programs;
pub mod response;
pub mod settings;
pub mod state;
pub mod supervisor;
pub mod text;
pub mod theorems;
pub mod users;
pub mod variables;
