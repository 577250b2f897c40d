//! Error taxonomy for launcher operations.

use vstd::prelude::*;

verus! {

/// Error raised by launcher operations. Each variant carries a message;
/// variants that wrap an outside failure carry its rendered text.
#[derive(Debug, Clone, PartialEq, Eq)]
pub enum LauncherError {
    /// Authentication failure.
    Auth(String),
    /// The requested version id is not present in the manifest.
    VersionNotFound(String),
    /// Transport-level failure of a download.
    Download(String),
    /// Filesystem operation failure.
    File(String),
    /// Malformed JSON document.
    Json(String),
    /// Process spawn or supervision failure.
    Launch(String),
    /// Configuration or validation failure.
    Config(String),
    /// Archive failure.
    Zip(String),
    /// Java runtime failure.
    Java(String),
}

impl LauncherError {
    /// Create a new authentication error.
    pub fn auth(msg: String) -> (r: Self)
        ensures
            r == LauncherError::Auth(msg),
    {
        LauncherError::Auth(msg)
    }

    /// Create a new version-not-found error.
    pub fn version_not_found(version: String) -> (r: Self)
        ensures
            r == LauncherError::VersionNotFound(version),
    {
        LauncherError::VersionNotFound(version)
    }

    /// Create a new download error.
    pub fn download(msg: String) -> (r: Self)
        ensures
            r == LauncherError::Download(msg),
    {
        LauncherError::Download(msg)
    }

    /// Create a new file error.
    pub fn file(msg: String) -> (r: Self)
        ensures
            r == LauncherError::File(msg),
    {
        LauncherError::File(msg)
    }

    /// Create a new launch error.
    pub fn launch(msg: String) -> (r: Self)
        ensures
            r == LauncherError::Launch(msg),
    {
        LauncherError::Launch(msg)
    }

    /// Create a new configuration error.
    pub fn config(msg: String) -> (r: Self)
        ensures
            r == LauncherError::Config(msg),
    {
        LauncherError::Config(msg)
    }

    /// Create a new network error; transport failures surface as download errors.
    pub fn network(msg: String) -> (r: Self)
        ensures
            r == LauncherError::Download(msg),
    {
        LauncherError::Download(msg)
    }

    /// Create a new JSON parse error.
    pub fn json(msg: String) -> (r: Self)
        ensures
            r == LauncherError::Json(msg),
    {
        LauncherError::Json(msg)
    }

    /// Create a new process error; process failures surface as launch errors.
    pub fn process(msg: String) -> (r: Self)
        ensures
            r == LauncherError::Launch(msg),
    {
        LauncherError::Launch(msg)
    }

    /// Create a new mod loader error; these surface as configuration errors.
    pub fn mod_loader(msg: String) -> (r: Self)
        ensures
            r == LauncherError::Config(msg),
    {
        LauncherError::Config(msg)
    }

    /// Create a new validation error (a content hash did not match).
    pub fn validation(msg: String) -> (r: Self)
        ensures
            r == LauncherError::Config(msg),
    {
        LauncherError::Config(msg)
    }

    /// Create a new generic error.
    pub fn other(msg: String) -> (r: Self)
        ensures
            r == LauncherError::Config(msg),
    {
        LauncherError::Config(msg)
    }

    /// Create a new archive error.
    pub fn zip(msg: String) -> (r: Self)
        ensures
            r == LauncherError::Zip(msg),
    {
        LauncherError::Zip(msg)
    }

    /// Create a new Java runtime error.
    pub fn java(msg: String) -> (r: Self)
        ensures
            r == LauncherError::Java(msg),
    {
        LauncherError::Java(msg)
    }

    /// True for the variant that a failed hash check raises.
    pub open spec fn is_validation(&self) -> bool {
        self is Config
    }
}

} // verus!
