//! The programs that the runtime can be given.
use vstd::prelude::*;

use crate::plc::{PlcEvent, PlcEventView};
use crate::response::{removed, TransitionRequest, TRANSITION_TIMEOUT_MS};

verus! {

/// A program as a client hands it in.
#[derive(Debug, Clone, PartialEq, Eq)]
pub struct InsertableProgram {
    pub name: String,
    pub description: String,
    /// The name of the file on disk.
    pub file: String,
    pub data: String,
}

/// A program as it is stored; `prog_id` is absent until it has been.
#[derive(Debug, Clone, PartialEq, Eq)]
pub struct Program {
    pub prog_id: Option<i32>,
    pub name: String,
    pub description: String,
    pub file: String,
    pub date_upload: i32,
}

impl Program {
    /// The program to store for what a client handed in: without an id,
    /// with the time of upload left at zero, and without the data.
    pub fn from_insertable(program: InsertableProgram) -> (stored: Program)
        ensures
            stored.prog_id is None,
            stored.name == program.name,
            stored.description == program.description,
            stored.file == program.file,
            stored.date_upload == 0,
    {
        Program {
            prog_id: None,
            name: program.name,
            description: program.description,
            file: program.file,
            date_upload: 0,
        }
    }

    /// The result of removing the program `id`, from the number of rows
    /// that went: the id where it was exactly one, and nothing otherwise,
    /// which says that no such program was found.
    pub fn delete(affected: usize, id: i32) -> (gone: Option<i32>)
        ensures
            gone == (if affected == 1 {
                Some(id)
            } else {
                None
            }),
    {
        if removed(affected) {
            Some(id)
        } else {
            None
        }
    }
}

/// What compiling a stored program asks of the supervisor: `Compile` with
/// the program's file, within the bound that requests are given.
pub fn compile_program(program: Program) -> (request: TransitionRequest)
    ensures
        request.event@ == PlcEventView::Compile(program.file@),
        request.timeout_ms == TRANSITION_TIMEOUT_MS,
{
    TransitionRequest { event: PlcEvent::Compile(program.file), timeout_ms: TRANSITION_TIMEOUT_MS }
}

} // verus!
