//! The variables of the running program.
use vstd::prelude::*;

verus! {

/// A variable of the running program.
#[derive(Debug, Clone, PartialEq, Eq)]
pub struct Variable {
    pub name: String,
    pub location: String,
    pub forced: bool,
    pub value: String,
    pub data_type: String,
}

/// The mathematical value of a [`Variable`].
pub struct VariableView {
    pub name: Seq<char>,
    pub location: Seq<char>,
    pub forced: bool,
    pub value: Seq<char>,
    pub data_type: Seq<char>,
}

impl View for Variable {
    type V = VariableView;

    open spec fn view(&self) -> VariableView {
        VariableView {
            name: self.name@,
            location: self.location@,
            forced: self.forced,
            value: self.value@,
            data_type: self.data_type@,
        }
    }
}

/// A new value for a variable.
#[derive(Debug, Clone, PartialEq, Eq)]
pub struct PatchVariable {
    pub value: String,
}

/// The one variable that is listed.
pub open spec fn spec_variable() -> VariableView {
    VariableView {
        name: "world"@,
        location: "loc"@,
        forced: false,
        value: "TRUE"@,
        data_type: "BOOL"@,
    }
}

/// The variables of the running program.
pub fn variables() -> (list: Vec<Variable>)
    ensures
        list@.len() == 1,
        list@[0]@ == spec_variable(),
{
    let variable = Variable {
        name: "world".to_owned(),
        location: "loc".to_owned(),
        forced: false,
        value: "TRUE".to_owned(),
        data_type: "BOOL".to_owned(),
    };
    let mut list: Vec<Variable> = Vec::new();
    list.push(variable);
    list
}

/// The answer to a new value for the variable `id`: an empty object,
/// whatever was sent.
pub fn patch_variable(id: String, variable: PatchVariable) -> (answer: String)
    ensures
        answer@ == "{}"@,
{
    "{}".to_owned()
}

} // verus!
