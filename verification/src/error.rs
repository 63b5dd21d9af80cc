//! The errors of the identifier service and of its neighbours.

use crate::text::{decimal, decimal_string, join2, join3};
use vstd::prelude::*;

verus! {

/// What can go wrong when an identifier is asked for.
#[derive(Clone, Debug)]
pub enum TinyIdError {
    IdGenerationFailed(String),
    UserServiceError(String),
    InternalError(String),
    ClockMovedBackwards(u64),
    InvalidRequest(String),
    InvalidWorkerId(u32),
    InvalidDatacenterId(u32),
    ConfigError(String),
    ServerError(String),
}

impl TinyIdError {
    /// The text of the error.
    pub open spec fn message_spec(self) -> Seq<char> {
        match self {
            TinyIdError::IdGenerationFailed(m) => "ID generation failed: "@ + m@,
            TinyIdError::UserServiceError(m) => "User service error: "@ + m@,
            TinyIdError::InternalError(m) => "Internal error: "@ + m@,
            TinyIdError::ClockMovedBackwards(delta) => "Clock moved backwards by "@ + decimal(
                delta as nat,
            ) + "ms"@,
            TinyIdError::InvalidRequest(m) => "Invalid request: "@ + m@,
            TinyIdError::InvalidWorkerId(id) => "Invalid worker ID: "@ + decimal(id as nat),
            TinyIdError::InvalidDatacenterId(id) => "Invalid datacenter ID: "@ + decimal(
                id as nat,
            ),
            TinyIdError::ConfigError(m) => "configuration error:"@ + m@,
            TinyIdError::ServerError(m) => "Server error: "@ + m@,
        }
    }

    /// The text of the error, as it is shown to a person.
    pub fn to_string(&self) -> (s: String)
        ensures
            s@ == self.message_spec(),
    {
        match self {
            TinyIdError::IdGenerationFailed(m) => join2("ID generation failed: ", m.as_str()),
            TinyIdError::UserServiceError(m) => join2("User service error: ", m.as_str()),
            TinyIdError::InternalError(m) => join2("Internal error: ", m.as_str()),
            TinyIdError::ClockMovedBackwards(delta) => join3(
                "Clock moved backwards by ",
                decimal_string(*delta).as_str(),
                "ms",
            ),
            TinyIdError::InvalidRequest(m) => join2("Invalid request: ", m.as_str()),
            TinyIdError::InvalidWorkerId(id) => join2(
                "Invalid worker ID: ",
                decimal_string(*id as u64).as_str(),
            ),
            TinyIdError::InvalidDatacenterId(id) => join2(
                "Invalid datacenter ID: ",
                decimal_string(*id as u64).as_str(),
            ),
            TinyIdError::ConfigError(m) => join2("configuration error:", m.as_str()),
            TinyIdError::ServerError(m) => join2("Server error: ", m.as_str()),
        }
    }
}

/// What can go wrong in what the services share.
#[derive(Clone, Debug)]
pub enum SharedError {
    InternalError(String),
    ConfigurationError(String),
    NetworkError(String),
    NotFound(String),
    ValidationError(String),
    ServiceUnavailable(String),
}

impl SharedError {
    /// The text of the error.
    pub open spec fn message_spec(self) -> Seq<char> {
        match self {
            SharedError::InternalError(m) => "Internal error: "@ + m@,
            SharedError::ConfigurationError(m) => "Configuration error: "@ + m@,
            SharedError::NetworkError(m) => "Network error: "@ + m@,
            SharedError::NotFound(m) => "Not found: "@ + m@,
            SharedError::ValidationError(m) => "Validation error: "@ + m@,
            SharedError::ServiceUnavailable(m) => "Service unavailable: "@ + m@,
        }
    }

    /// The text of the error, as it is shown to a person.
    pub fn to_string(&self) -> (s: String)
        ensures
            s@ == self.message_spec(),
    {
        match self {
            SharedError::InternalError(m) => join2("Internal error: ", m.as_str()),
            SharedError::ConfigurationError(m) => join2("Configuration error: ", m.as_str()),
            SharedError::NetworkError(m) => join2("Network error: ", m.as_str()),
            SharedError::NotFound(m) => join2("Not found: ", m.as_str()),
            SharedError::ValidationError(m) => join2("Validation error: ", m.as_str()),
            SharedError::ServiceUnavailable(m) => join2("Service unavailable: ", m.as_str()),
        }
    }
}

/// How a remote call that failed is classed.
#[derive(Clone, Copy, Debug, PartialEq, Eq, Structural)]
pub enum StatusKind {
    NotFound,
    InvalidArgument,
    AlreadyExists,
    Internal,
}

/// What can go wrong in the user service.
#[derive(Clone, Debug)]
pub enum UserError {
    NotFound(u64),
    InvalidData(String),
    AlreadyExists(String),
    DatabaseError(String),
    InternalError(String),
}

impl UserError {
    /// The text of the error.
    pub open spec fn message_spec(self) -> Seq<char> {
        match self {
            UserError::NotFound(id) => "User not found: "@ + decimal(id as nat),
            UserError::InvalidData(m) => "Invalid user data: "@ + m@,
            UserError::AlreadyExists(m) => "User already exists: "@ + m@,
            UserError::DatabaseError(m) => "Database error: "@ + m@,
            UserError::InternalError(m) => "Internal error: "@ + m@,
        }
    }

    /// The text of the error, as it is shown to a person.
    pub fn to_string(&self) -> (s: String)
        ensures
            s@ == self.message_spec(),
    {
        match self {
            UserError::NotFound(id) => join2("User not found: ", decimal_string(*id).as_str()),
            UserError::InvalidData(m) => join2("Invalid user data: ", m.as_str()),
            UserError::AlreadyExists(m) => join2("User already exists: ", m.as_str()),
            UserError::DatabaseError(m) => join2("Database error: ", m.as_str()),
            UserError::InternalError(m) => join2("Internal error: ", m.as_str()),
        }
    }

    /// How the error is classed when it answers a remote call: failures of
    /// the database and of the service itself are both internal.
    pub fn status_kind(&self) -> (kind: StatusKind)
        ensures
            kind == match *self {
                UserError::NotFound(_) => StatusKind::NotFound,
                UserError::InvalidData(_) => StatusKind::InvalidArgument,
                UserError::AlreadyExists(_) => StatusKind::AlreadyExists,
                UserError::DatabaseError(_) => StatusKind::Internal,
                UserError::InternalError(_) => StatusKind::Internal,
            },
    {
        match self {
            UserError::NotFound(_) => StatusKind::NotFound,
            UserError::InvalidData(_) => StatusKind::InvalidArgument,
            UserError::AlreadyExists(_) => StatusKind::AlreadyExists,
            UserError::DatabaseError(_) => StatusKind::Internal,
            UserError::InternalError(_) => StatusKind::Internal,
        }
    }
}

} // verus!
