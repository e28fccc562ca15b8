//! The ways an installation can fail.

use vstd::prelude::*;

verus! {

/// Why an installation was abandoned.
#[derive(Clone, Debug, PartialEq, Eq)]
pub enum InstallError {
    /// The command name does not have the accepted shape.
    InvalidName { name: String },
    /// No name was given and none could be inferred from the module.
    MissingName,
    /// The home directory variable is not set.
    HomeNotFound { var: String },
    /// The launcher directory exists and is not a directory.
    NotADirectory,
    /// A launcher of that name exists and overwriting was not asked for.
    AlreadyExists,
    /// A log level that has no launcher flag.
    InvalidLogLevel,
    /// A configuration or lock file could not be read.
    AuxiliaryFileRead { path: String },
    /// Any other file system failure.
    Io { detail: String },
    /// The module or import map reference is not a valid URL or path.
    UrlResolution { input: String },
}

/// The one-line description of a failure.
pub open spec fn message_of(e: InstallError) -> Seq<char> {
    match e {
        InstallError::InvalidName { name } => "Invalid executable name: "@ + name@,
        InstallError::MissingName => "An executable name was not provided. One could not be inferred from the URL. Aborting."@,
        InstallError::HomeNotFound { var } => "$"@ + var@ + " is not defined"@,
        InstallError::NotADirectory => "Installation path is not a directory"@,
        InstallError::AlreadyExists => "Existing installation found. Aborting (Use -f to overwrite)."@,
        InstallError::InvalidLogLevel => "invalid log level"@,
        InstallError::AuxiliaryFileRead { path } => "could not read "@ + path@,
        InstallError::Io { detail } => detail@,
        InstallError::UrlResolution { input } => "could not resolve "@ + input@,
    }
}

impl InstallError {
    /// A one-line description of the failure.
    pub fn message(&self) -> (r: String)
        ensures
            r@ == message_of(*self),
    {
        match self {
            InstallError::InvalidName { name } => {
                String::from_str("Invalid executable name: ").concat(name.as_str())
            },
            InstallError::MissingName => {
                String::from_str(
                    "An executable name was not provided. One could not be inferred from the URL. Aborting.",
                )
            },
            InstallError::HomeNotFound { var } => {
                String::from_str("$").concat(var.as_str()).concat(" is not defined")
            },
            InstallError::NotADirectory => String::from_str("Installation path is not a directory"),
            InstallError::AlreadyExists => {
                String::from_str("Existing installation found. Aborting (Use -f to overwrite).")
            },
            InstallError::InvalidLogLevel => String::from_str("invalid log level"),
            InstallError::AuxiliaryFileRead { path } => {
                String::from_str("could not read ").concat(path.as_str())
            },
            InstallError::Io { detail } => detail.clone(),
            InstallError::UrlResolution { input } => {
                String::from_str("could not resolve ").concat(input.as_str())
            },
        }
    }
}

} // verus!
