//! The headers that open the service to pages of any origin.
use vstd::prelude::*;

verus! {

/// The status that every answer is given once the headers are attached.
pub const OK: u16 = 200;

/// Attaches the cross-origin headers to answers.
#[derive(Debug, Clone, Copy)]
pub struct CORS;

/// The name of the cross-origin header at `index`.
pub open spec fn spec_header_name(index: int) -> Seq<char> {
    if index == 0 {
        "Access-Control-Allow-Origin"@
    } else if index == 1 {
        "Access-Control-Allow-Methods"@
    } else if index == 2 {
        "Access-Control-Allow-Headers"@
    } else {
        "Access-Control-Allow-Credentials"@
    }
}

/// The value of the cross-origin header at `index`.
pub open spec fn spec_header_value(index: int) -> Seq<char> {
    if index == 0 {
        "*"@
    } else if index == 1 {
        "POST, PUT, GET, PATCH, DELETE, OPTIONS"@
    } else if index == 2 {
        "*"@
    } else {
        "true"@
    }
}

impl CORS {
    /// What the attachment is listed as.
    pub fn info(&self) -> (name: &'static str)
        ensures
            name@ == "Attaching CORS headers to responses"@,
    {
        "Attaching CORS headers to responses"
    }

    /// The status to set on every answer.
    pub fn status(&self) -> (status: u16)
        ensures
            status == OK,
    {
        OK
    }

    /// The headers to set on every answer, as name and value, in the order
    /// in which they are set.
    pub fn headers(&self) -> (list: Vec<(&'static str, &'static str)>)
        ensures
            list@.len() == 4,
            forall|i: int|
                0 <= i < 4 ==> {
                    &&& (#[trigger] list@[i]).0@ == spec_header_name(i)
                    &&& list@[i].1@ == spec_header_value(i)
                },
    {
        let mut list: Vec<(&'static str, &'static str)> = Vec::new();
        list.push(("Access-Control-Allow-Origin", "*"));
        list.push(("Access-Control-Allow-Methods", "POST, PUT, GET, PATCH, DELETE, OPTIONS"));
        list.push(("Access-Control-Allow-Headers", "*"));
        list.push(("Access-Control-Allow-Credentials", "true"));
        list
    }
}

} // verus!
