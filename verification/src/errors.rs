//! The launcher's error taxonomy and the message shown for each error.
//!
//! Every fatal error carries the offending path or program name, and its
//! message names it. Cleanup failure is not here: it is a warning only and
//! never alters the run's outcome.

use vstd::prelude::*;
use vstd::string::StringExecFns;

verus! {

#[derive(Debug, PartialEq, Eq)]
pub enum LaunchError {
    /// The settings file could not be read.
    ConfigReadError { path: String },
    /// The settings file does not match the configuration schema.
    ConfigParseError { path: String },
    /// The mod manifest could not be read while patch mode was on.
    ManifestReadError { path: String },
    /// The temporary patched manifest could not be written.
    TempWriteError { path: String },
    /// The external loader failed to start.
    SpawnError { program: String },
}

/// The message shown for an error; fatal errors name the offending path,
/// and a spawn failure carries the remediation hint.
pub open spec fn spec_error_message(e: LaunchError) -> Seq<char> {
    match e {
        LaunchError::ConfigReadError { path } => "failed to read settings file: "@ + path@,
        LaunchError::ConfigParseError { path } => "failed to parse settings file: "@ + path@,
        LaunchError::ManifestReadError { path } => "failed to read mod manifest: "@ + path@,
        LaunchError::TempWriteError { path } => "failed to write temporary manifest: "@
            + path@,
        LaunchError::SpawnError { program } => "failed to start "@ + program@
            + "; place it in the launcher's directory or on the search path"@,
    }
}

impl LaunchError {
    pub fn message(&self) -> (r: String)
        ensures
            r@ == spec_error_message(*self),
    {
        match self {
            LaunchError::ConfigReadError { path } => {
                let mut s = "failed to read settings file: ".to_owned();
                s.append(path.as_str());
                s
            },
            LaunchError::ConfigParseError { path } => {
                let mut s = "failed to parse settings file: ".to_owned();
                s.append(path.as_str());
                s
            },
            LaunchError::ManifestReadError { path } => {
                let mut s = "failed to read mod manifest: ".to_owned();
                s.append(path.as_str());
                s
            },
            LaunchError::TempWriteError { path } => {
                let mut s = "failed to write temporary manifest: ".to_owned();
                s.append(path.as_str());
                s
            },
            LaunchError::SpawnError { program } => {
                let mut s = "failed to start ".to_owned();
                s.append(program.as_str());
                s.append("; place it in the launcher's directory or on the search path");
                s
            },
        }
    }
}

} // verus!
