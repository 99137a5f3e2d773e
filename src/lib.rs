//! A read-only connector that exposes a spreadsheet published as JSON as rows of a
//! relational query engine: one fetch per scan, rows pulled one at a time.

pub mod cell;
pub mod error;
pub mod fetch;
pub mod json;
pub mod session;

pub use cell::{Cell, Column, Record, SourceValue, TargetType};
pub use json::Json;
pub use error::{FdwError, Operation, ProtocolFault};
pub use fetch::{locate_rows, normalize_record, scan_request, strip_envelope, Method, Request};
pub use session::{host_version_requirement, materialize, Session};
