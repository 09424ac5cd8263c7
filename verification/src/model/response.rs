//! The status of an answer to the caller.

use vstd::prelude::*;

verus! {

/// How a request ended.
#[derive(Copy, Clone, Debug, PartialEq, Eq, Structural)]
pub enum Status {
    Success,
    Created,
    Found,
    NotFound,
    Conflict,
    Error,
}

impl Status {
    /// The number that goes out for each status.
    pub open spec fn spec_code(self) -> u16 {
        match self {
            Status::Success => 200,
            Status::Created => 201,
            Status::Found => 302,
            Status::NotFound => 404,
            Status::Conflict => 409,
            Status::Error => 500,
        }
    }

    /// The number that goes out for this status.
    pub fn code(&self) -> (r: u16)
        ensures
            r == self.spec_code(),
    {
        match self {
            Status::Success => 200,
            Status::Created => 201,
            Status::Found => 302,
            Status::NotFound => 404,
            Status::Conflict => 409,
            Status::Error => 500,
        }
    }

    /// The status is one of success: its number lies below 400.
    pub fn is_success(&self) -> (r: bool)
        ensures
            r == (self.spec_code() < 400),
    {
        self.code() < 400
    }
}

} // verus!
