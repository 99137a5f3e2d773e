//! The errors a connector operation ends with.

use vstd::prelude::*;

verus! {

/// How a response broke the remote service's known contract.
#[derive(Clone, Copy, Debug, PartialEq, Eq, Structural)]
pub enum ProtocolFault {
    /// The body does not start with the guard prefix.
    MissingPrefix,
    /// The parsed document has no array at `table.rows`.
    MissingRecords,
}

/// An operation that this connector does not offer.
#[derive(Clone, Copy, Debug, PartialEq, Eq, Structural)]
pub enum Operation {
    ReScan,
    Modify,
}

/// Why an operation failed. Every failure ends the operation at once.
#[derive(Debug)]
pub enum FdwError {
    /// A required option is missing; holds its name.
    Config(String),
    /// The transport failed; holds its message.
    Transport(String),
    /// The response does not have the expected shape.
    Protocol(ProtocolFault),
    /// The response is not well-formed JSON; holds the parser's message.
    Parse(String),
    /// A requested column declares a type with no coercion rule; holds the column's name.
    UnsupportedType(String),
    /// The operation is not offered.
    NotSupported(Operation),
}

/// The message a failure shows to the user of the query engine.
pub open spec fn message_of(e: FdwError) -> Seq<char> {
    match e {
        FdwError::Config(key) => "required option `"@ + key@ + "` is not specified"@,
        FdwError::Transport(msg) => msg@,
        FdwError::Protocol(ProtocolFault::MissingPrefix) => "invalid response"@,
        FdwError::Protocol(ProtocolFault::MissingRecords) => "cannot get rows from response"@,
        FdwError::Parse(msg) => msg@,
        FdwError::UnsupportedType(column) => "column "@ + column@ + " data type is not supported"@,
        FdwError::NotSupported(Operation::ReScan) => "re_scan on foreign table is not supported"@,
        FdwError::NotSupported(Operation::Modify) => "modify on foreign table is not supported"@,
    }
}

impl FdwError {
    /// The message this failure shows to the user of the query engine.
    pub fn message(&self) -> (r: String)
        ensures
            r@ == message_of(*self),
    {
        match self {
            FdwError::Config(key) => {
                let mut m = String::from_str("required option `");
                m.append(key.as_str());
                m.append("` is not specified");
                m
            },
            FdwError::Transport(msg) => msg.clone(),
            FdwError::Protocol(ProtocolFault::MissingPrefix) => String::from_str("invalid response"),
            FdwError::Protocol(ProtocolFault::MissingRecords) => String::from_str(
                "cannot get rows from response",
            ),
            FdwError::Parse(msg) => msg.clone(),
            FdwError::UnsupportedType(column) => {
                let mut m = String::from_str("column ");
                m.append(column.as_str());
                m.append(" data type is not supported");
                m
            },
            FdwError::NotSupported(Operation::ReScan) => String::from_str(
                "re_scan on foreign table is not supported",
            ),
            FdwError::NotSupported(Operation::Modify) => String::from_str(
                "modify on foreign table is not supported",
            ),
        }
    }
}

} // verus!
