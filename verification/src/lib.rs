//! Application-layer controller of an SSH deception service: it decides how
//! to answer authentication and channel-level requests on an established
//! session, records every notable interaction in an audit log, and guarantees
//! that each finished log is handed to the persistence pipeline exactly once,
//! with a lossless drain on graceful shutdown.

use vstd::prelude::*;
use vstd::string::StringExecFns;

pub mod audit;
pub mod pipeline;
pub mod policy;
pub mod session;
pub mod shutdown;

verus! {

/// The line logged when a connection's task ends with an error, built from
/// the error's rendered text.
pub fn log_err(e: &str) -> (message: String)
    ensures
        message@ == "Connection closed due to: "@ + e@,
{
    String::from_str("Connection closed due to: ").concat(e)
}

} // verus!
