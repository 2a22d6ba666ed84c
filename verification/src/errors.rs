//! Errors the query surface reports to callers. No error is fatal: each
//! request fails on its own.

use vstd::prelude::*;
use vstd::string::StringExecFns;

verus! {

/// What can go wrong answering a direct robot query.
#[derive(Clone, Debug)]
pub enum ServerError {
    /// The request carried no usable robot identifier.
    RobotIdInvalid,
    /// No robot with this identifier has ever been created and none is
    /// configured.
    RobotNotFound(String),
    /// An unexpected internal failure, with its description.
    SystemFailure(String),
}

impl ServerError {
    /// The HTTP status code this error surfaces as: 400 for an invalid
    /// identifier, 404 for an unknown robot, 500 for an internal failure.
    pub fn status_code(&self) -> (code: u16)
        ensures
            code == match self {
                ServerError::RobotIdInvalid => 400int,
                ServerError::RobotNotFound(id) => 404int,
                ServerError::SystemFailure(m) => 500int,
            },
    {
        match self {
            ServerError::RobotIdInvalid => 400,
            ServerError::RobotNotFound(_) => 404,
            ServerError::SystemFailure(_) => 500,
        }
    }

    /// A human-readable description of the error.
    pub fn message(&self) -> (res: String)
        ensures
            self is RobotIdInvalid ==> res@ == "the provided id is not a valid robot id"@,
    {
        match self {
            ServerError::RobotIdInvalid => "the provided id is not a valid robot id".to_owned(),
            ServerError::RobotNotFound(id) => {
                let mut text = String::from_str("the robot with id `");
                text = text.concat(id.as_str());
                text = text.concat("` was not found");
                text
            }
            ServerError::SystemFailure(detail) => {
                let mut text = String::from_str("the server encountered an unexpected error: `");
                text = text.concat(detail.as_str());
                text = text.concat("`");
                text
            }
        }
    }
}

} // verus!
