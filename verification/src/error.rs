//! Errors of deployment operations.
use vstd::prelude::*;

verus! {

/// Errors that can occur during deployment operations.
#[derive(Debug, Clone, PartialEq, Eq)]
pub enum DeployError {
    /// The requested room was not found.
    RoomNotFound(String),
    /// The configuration provided was invalid.
    InvalidConfig(String),
    /// The deployment operation failed.
    DeploymentFailed(String),
    /// The resource already exists.
    AlreadyExists(String),
}

impl DeployError {
    /// The human-readable message of the error.
    pub open spec fn message(&self) -> Seq<char> {
        match self {
            DeployError::RoomNotFound(id) => "Room not found: "@ + id@,
            DeployError::InvalidConfig(msg) => "Invalid config: "@ + msg@,
            DeployError::DeploymentFailed(msg) => "Deployment failed: "@ + msg@,
            DeployError::AlreadyExists(id) => "Already exists: "@ + id@,
        }
    }

    /// Writes the human-readable message of the error.
    pub fn to_string(&self) -> (r: String)
        ensures
            r@ == self.message(),
    {
        let (prefix, detail) = match self {
            DeployError::RoomNotFound(id) => ("Room not found: ", id),
            DeployError::InvalidConfig(msg) => ("Invalid config: ", msg),
            DeployError::DeploymentFailed(msg) => ("Deployment failed: ", msg),
            DeployError::AlreadyExists(id) => ("Already exists: ", id),
        };
        let mut out = String::from_str(prefix);
        out.append(detail.as_str());
        out
    }
}

} // verus!
