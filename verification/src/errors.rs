use vstd::prelude::*;
use vstd::string::StringExecFns;

verus! {

/// Every way a launch can fail. All variants are terminal: the caller
/// reports `message()` on standard error and terminates the process
/// with `exit_code()`.
#[derive(Debug)]
pub enum LaunchError {
    /// No configuration file exists at the resolved path.
    ConfigNotFound { path: String },
    /// The configuration text was rejected, by the TOML parser or by
    /// the schema checks; `detail` is the diagnostic.
    ConfigParseError { detail: String },
    /// The home directory could not be determined, so no default
    /// configuration path exists.
    PathResolutionError,
    /// The expanded kernel root does not name an existing path.
    PathValidationError { expanded: String, original: String },
    /// The guest binary could not be spawned; `detail` is the
    /// operating system's diagnostic.
    SpawnError { detail: String },
    /// The guest runtime terminated unsuccessfully; `code` is the exit
    /// code to relay.
    GuestFailure { code: i32 },
}

/// The message reported for each failure, as a sequence of characters.
pub open spec fn spec_message(e: LaunchError) -> Seq<char> {
    match e {
        LaunchError::ConfigNotFound { path } => "Error: Configuration file not found at "@ + path@,
        LaunchError::ConfigParseError { detail } => "Failed to parse config file: "@ + detail@,
        LaunchError::PathResolutionError => "Error: Could not find home directory"@,
        LaunchError::PathValidationError { expanded, original } => "Error: OS path '"@
            + expanded@ + "' does not exist (expanded from '"@ + original@ + "')"@,
        LaunchError::SpawnError { detail } => "Error: CozyOS failed to start: "@ + detail@,
        LaunchError::GuestFailure { .. } => "Error: CozyOS failed to start"@,
    }
}

/// The process exit code for each failure: a guest failure relays the
/// guest's own code, every other failure exits with 1.
pub open spec fn spec_exit_code(e: LaunchError) -> i32 {
    match e {
        LaunchError::GuestFailure { code } => code,
        _ => 1,
    }
}

impl LaunchError {
    /// The human-readable report for this failure.
    pub fn message(&self) -> (r: String)
        ensures
            r@ == spec_message(*self),
    {
        match self {
            LaunchError::ConfigNotFound { path } => {
                let mut m = "Error: Configuration file not found at ".to_owned();
                m.append(path.as_str());
                m
            },
            LaunchError::ConfigParseError { detail } => {
                let mut m = "Failed to parse config file: ".to_owned();
                m.append(detail.as_str());
                m
            },
            LaunchError::PathResolutionError => "Error: Could not find home directory".to_owned(),
            LaunchError::PathValidationError { expanded, original } => {
                let mut m = "Error: OS path '".to_owned();
                m.append(expanded.as_str());
                m.append("' does not exist (expanded from '");
                m.append(original.as_str());
                m.append("')");
                m
            },
            LaunchError::SpawnError { detail } => {
                let mut m = "Error: CozyOS failed to start: ".to_owned();
                m.append(detail.as_str());
                m
            },
            LaunchError::GuestFailure { .. } => "Error: CozyOS failed to start".to_owned(),
        }
    }

    /// The exit code for this failure.
    pub fn exit_code(&self) -> (r: i32)
        ensures
            r == spec_exit_code(*self),
    {
        match self {
            LaunchError::GuestFailure { code } => *code,
            _ => 1,
        }
    }
}

} // verus!
