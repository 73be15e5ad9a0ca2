//! Unified error type of the library.

use vstd::prelude::*;
use crate::text::concat2;

verus! {

/// Unified error type.
#[derive(Debug)]
pub enum Error {
    DBus(String),
    NmUnavailable,
    DeviceNotFound(String),
    ConnectionNotFound(String),
    AccessPointNotFound(String),
    InvalidState(String),
    OperationFailed(String),
}

impl Error {
    /// The human-readable message of the error.
    pub open spec fn spec_message(&self) -> Seq<char> {
        match self {
            Error::DBus(s) => "D-Bus error: "@ + s@,
            Error::NmUnavailable => "NetworkManager is not running or not reachable"@,
            Error::DeviceNotFound(s) => "device not found: "@ + s@,
            Error::ConnectionNotFound(s) => "connection not found: "@ + s@,
            Error::AccessPointNotFound(s) => "access point not found: "@ + s@,
            Error::InvalidState(s) => "invalid state: "@ + s@,
            Error::OperationFailed(s) => "operation failed: "@ + s@,
        }
    }

    /// Renders the error as text.
    pub fn message(&self) -> (r: String)
        ensures
            r@ == self.spec_message(),
    {
        match self {
            Error::DBus(s) => concat2("D-Bus error: ", s.as_str()),
            Error::NmUnavailable => crate::text::own("NetworkManager is not running or not reachable"),
            Error::DeviceNotFound(s) => concat2("device not found: ", s.as_str()),
            Error::ConnectionNotFound(s) => concat2("connection not found: ", s.as_str()),
            Error::AccessPointNotFound(s) => concat2("access point not found: ", s.as_str()),
            Error::InvalidState(s) => concat2("invalid state: ", s.as_str()),
            Error::OperationFailed(s) => concat2("operation failed: ", s.as_str()),
        }
    }

    /// The text carried by an `OperationFailed` error.
    pub open spec fn failure_text(&self) -> Seq<char> {
        match self {
            Error::OperationFailed(s) => s@,
            _ => Seq::empty(),
        }
    }
}

} // verus!
