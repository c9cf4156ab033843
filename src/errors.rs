//! The ways a run can fail.

use vstd::prelude::*;

verus! {

/// Why a run stopped with an error. An error raised by the revision-control
/// library, the file system, the configuration parser or the interrupt handler
/// carries that collaborator's message.
#[derive(Debug)]
pub enum RevwError {
    NotEnoughCommits,
    MissingConfigKey,
    InvalidPath,
    UnhandledIO(String),
    Git(String),
    Deserialization(String),
    CtrlCError(String),
}

/// The text shown for an error.
pub open spec fn error_text(e: RevwError) -> Seq<char> {
    match e {
        RevwError::NotEnoughCommits => "Not enough commits"@,
        RevwError::MissingConfigKey => "Missing config key"@,
        RevwError::InvalidPath => "Config value referenced invalid path"@,
        RevwError::UnhandledIO(m) => "Unhandled IO error: "@ + m@,
        RevwError::Git(m) => "Git error: "@ + m@,
        RevwError::Deserialization(m) => "Config error: "@ + m@,
        RevwError::CtrlCError(m) => "Ctrlc error: "@ + m@,
    }
}

impl RevwError {
    /// The message shown to the user for this error.
    pub fn message(&self) -> (r: String)
        ensures
            r@ == error_text(*self),
    {
        match self {
            RevwError::NotEnoughCommits => String::from_str("Not enough commits"),
            RevwError::MissingConfigKey => String::from_str("Missing config key"),
            RevwError::InvalidPath => String::from_str("Config value referenced invalid path"),
            RevwError::UnhandledIO(m) => String::from_str("Unhandled IO error: ").concat(m.as_str()),
            RevwError::Git(m) => String::from_str("Git error: ").concat(m.as_str()),
            RevwError::Deserialization(m) => String::from_str("Config error: ").concat(m.as_str()),
            RevwError::CtrlCError(m) => String::from_str("Ctrlc error: ").concat(m.as_str()),
        }
    }
}

/// The outcome of a fallible step of a run.
pub type RevwResult<T> = Result<T, RevwError>;

} // verus!
