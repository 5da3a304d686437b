use vstd::prelude::*;

verus! {

/// Every way in which a launch can fail. All of them are fatal.
#[derive(Debug, Clone, Copy, PartialEq, Eq, Structural)]
pub enum LaunchError {
    /// The configuration file does not exist.
    ConfigNotFound,
    /// The configuration file does not hold the expected three fields.
    ConfigParseError,
    /// The mode option is neither `cli` nor `gui`.
    InvalidMode,
    /// The external client could not be started.
    SpawnError,
}

/// The message shown to the user for each error.
pub open spec fn error_message(e: LaunchError) -> Seq<char> {
    match e {
        LaunchError::ConfigNotFound => "Config file not found"@,
        LaunchError::ConfigParseError => "Cannot deserialize config"@,
        LaunchError::InvalidMode => "Invalid mode parameter"@,
        LaunchError::SpawnError => "Cannot run RDP process"@,
    }
}

impl LaunchError {
    /// A human-readable description of the error.
    pub fn message(&self) -> (r: &'static str)
        ensures
            r@ == error_message(*self),
    {
        match self {
            LaunchError::ConfigNotFound => "Config file not found",
            LaunchError::ConfigParseError => "Cannot deserialize config",
            LaunchError::InvalidMode => "Invalid mode parameter",
            LaunchError::SpawnError => "Cannot run RDP process",
        }
    }
}

} // verus!
