//! The errors that supervisor and bridge operations report.
use vstd::prelude::*;
use vstd::string::*;

verus! {

/// Why an operation on the worker did not succeed.
#[derive(Debug, Clone, PartialEq, Eq)]
pub enum WorkerError {
    /// A start was asked for while a worker is running.
    AlreadyRunning,
    /// A stop or an invocation was asked for while no worker is running.
    NotRunning,
    /// The worker process could not be launched.
    LaunchFailed(String),
    /// The request to terminate the worker process failed.
    TerminationFailed(String),
    /// The worker answered with a failure status; the text is its reply body.
    RemoteError(String),
    /// The worker could not be reached, or the exchange broke off.
    TransportError(String),
    /// The worker answered with success, but its body is not JSON.
    ResponseDecodeError(String),
}

/// The text shown to a user for an error.
pub open spec fn error_message(e: WorkerError) -> Seq<char> {
    match e {
        WorkerError::AlreadyRunning => "API server is already running"@,
        WorkerError::NotRunning => "API server is not running"@,
        WorkerError::LaunchFailed(d) => "Failed to start API server: "@ + d@,
        WorkerError::TerminationFailed(d) => "Failed to stop API server: "@ + d@,
        WorkerError::RemoteError(d) => "API error: "@ + d@,
        WorkerError::TransportError(d) => "Failed to connect to API server: "@ + d@,
        WorkerError::ResponseDecodeError(d) => "Failed to parse response: "@ + d@,
    }
}

impl WorkerError {
    /// The text shown to a user for this error.
    pub fn message(&self) -> (r: String)
        ensures
            r@ == error_message(*self),
    {
        match self {
            WorkerError::AlreadyRunning => String::from_str("API server is already running"),
            WorkerError::NotRunning => String::from_str("API server is not running"),
            WorkerError::LaunchFailed(d) => String::from_str("Failed to start API server: ").concat(
                d.as_str(),
            ),
            WorkerError::TerminationFailed(d) => String::from_str(
                "Failed to stop API server: ",
            ).concat(d.as_str()),
            WorkerError::RemoteError(d) => String::from_str("API error: ").concat(d.as_str()),
            WorkerError::TransportError(d) => String::from_str(
                "Failed to connect to API server: ",
            ).concat(d.as_str()),
            WorkerError::ResponseDecodeError(d) => String::from_str(
                "Failed to parse response: ",
            ).concat(d.as_str()),
        }
    }
}

} // verus!
