//! Errors that end a start attempt, and the message shown for each.
use vstd::prelude::*;
use crate::text::{decimal, decimal_string, joined};

verus! {

/// The broad class of a start failure.
#[derive(PartialEq, Eq, Structural, Clone, Copy, Debug)]
pub enum ErrorCategory {
    /// Unsupported architecture or unresolvable bundle paths.
    Configuration,
    /// The log directory or file could not be created or opened.
    Resource,
    /// Something already listens on the server's port.
    PortConflict,
    /// The server executable could not be launched.
    Spawn,
    /// The server did not answer its health check in time.
    HealthTimeout,
}

/// Why a start attempt failed. `detail` fields carry the operating system's
/// or the shell's own description of the underlying failure.
#[derive(Debug)]
pub enum StartError {
    UnsupportedArchitecture { arch: String },
    ResourceDir { detail: String },
    AppDataDir { detail: String },
    LogDirectory { path: String, detail: String },
    LogFile { path: String, detail: String },
    LogHandle { detail: String },
    PortInUse { port: u16 },
    Spawn { path: String, detail: String },
    HealthClient { detail: String },
    HealthTimeout { deadline_secs: u64 },
}

pub open spec fn category_of(e: StartError) -> ErrorCategory {
    match e {
        StartError::UnsupportedArchitecture { .. } => ErrorCategory::Configuration,
        StartError::ResourceDir { .. } => ErrorCategory::Configuration,
        StartError::AppDataDir { .. } => ErrorCategory::Configuration,
        StartError::LogDirectory { .. } => ErrorCategory::Resource,
        StartError::LogFile { .. } => ErrorCategory::Resource,
        StartError::LogHandle { .. } => ErrorCategory::Resource,
        StartError::PortInUse { .. } => ErrorCategory::PortConflict,
        StartError::Spawn { .. } => ErrorCategory::Spawn,
        StartError::HealthClient { .. } => ErrorCategory::HealthTimeout,
        StartError::HealthTimeout { .. } => ErrorCategory::HealthTimeout,
    }
}

/// The text reported to the host for `e`.
pub open spec fn message_of(e: StartError) -> Seq<char> {
    match e {
        StartError::UnsupportedArchitecture { arch } => "Unsupported architecture: "@ + arch@,
        StartError::ResourceDir { detail } => "Failed to resolve resource directory: "@ + detail@,
        StartError::AppDataDir { detail } => "Failed to resolve app data directory: "@ + detail@,
        StartError::LogDirectory { path, detail } => "Failed to create logs directory at "@
            + path@ + ": "@ + detail@,
        StartError::LogFile { path, detail } => "Failed to open log file "@ + path@ + ": "@
            + detail@,
        StartError::LogHandle { detail } => "Failed to clone log file handle: "@ + detail@,
        StartError::PortInUse { port } => "Port "@ + decimal(port as nat)
            + " is already in use. Is another instance of VoxTube running?"@,
        StartError::Spawn { path, detail } => "Failed to spawn server binary "@ + path@ + ": "@
            + detail@,
        StartError::HealthClient { detail } => "Failed to build HTTP client: "@ + detail@,
        StartError::HealthTimeout { deadline_secs } => "Server did not become healthy within "@
            + decimal(deadline_secs as nat) + "s"@,
    }
}

fn with_detail(prefix: &str, middle: &String, detail: &String) -> (r: String)
    ensures
        r@ == prefix@ + middle@ + ": "@ + detail@,
{
    let mut r = joined(prefix, middle.as_str());
    r.append(": ");
    r.append(detail.as_str());
    r
}

impl StartError {
    pub fn category(&self) -> (r: ErrorCategory)
        ensures
            r == category_of(*self),
    {
        match self {
            StartError::UnsupportedArchitecture { .. } => ErrorCategory::Configuration,
            StartError::ResourceDir { .. } => ErrorCategory::Configuration,
            StartError::AppDataDir { .. } => ErrorCategory::Configuration,
            StartError::LogDirectory { .. } => ErrorCategory::Resource,
            StartError::LogFile { .. } => ErrorCategory::Resource,
            StartError::LogHandle { .. } => ErrorCategory::Resource,
            StartError::PortInUse { .. } => ErrorCategory::PortConflict,
            StartError::Spawn { .. } => ErrorCategory::Spawn,
            StartError::HealthClient { .. } => ErrorCategory::HealthTimeout,
            StartError::HealthTimeout { .. } => ErrorCategory::HealthTimeout,
        }
    }

    /// The descriptive message handed to the host for display.
    pub fn message(&self) -> (r: String)
        ensures
            r@ == message_of(*self),
    {
        match self {
            StartError::UnsupportedArchitecture { arch } => joined(
                "Unsupported architecture: ",
                arch.as_str(),
            ),
            StartError::ResourceDir { detail } => joined(
                "Failed to resolve resource directory: ",
                detail.as_str(),
            ),
            StartError::AppDataDir { detail } => joined(
                "Failed to resolve app data directory: ",
                detail.as_str(),
            ),
            StartError::LogDirectory { path, detail } => with_detail(
                "Failed to create logs directory at ",
                path,
                detail,
            ),
            StartError::LogFile { path, detail } => with_detail(
                "Failed to open log file ",
                path,
                detail,
            ),
            StartError::LogHandle { detail } => joined(
                "Failed to clone log file handle: ",
                detail.as_str(),
            ),
            StartError::PortInUse { port } => {
                let digits = decimal_string(*port as u64);
                let mut r = joined("Port ", digits.as_str());
                r.append(" is already in use. Is another instance of VoxTube running?");
                r
            },
            StartError::Spawn { path, detail } => with_detail(
                "Failed to spawn server binary ",
                path,
                detail,
            ),
            StartError::HealthClient { detail } => joined(
                "Failed to build HTTP client: ",
                detail.as_str(),
            ),
            StartError::HealthTimeout { deadline_secs } => {
                let digits = decimal_string(*deadline_secs);
                let mut r = joined("Server did not become healthy within ", digits.as_str());
                r.append("s");
                r
            },
        }
    }
}

} // verus!
