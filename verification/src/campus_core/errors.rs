//! The tool's error type. Errors that come from other libraries are kept
//! here by their message text.
use vstd::prelude::*;

verus! {

/// Every failure the tool reports.
#[derive(Debug)]
pub enum CampusError {
    /// config.toml does not exist (its path).
    ConfigNotFound(String),
    /// config.toml could not be parsed (the parser's message).
    ConfigParse(String),
    /// the configuration could not be serialised (the message).
    ConfigSerialize(String),
    /// a configuration value is not acceptable (all complaints, joined).
    ConfigValidation(String),
    /// elements.toml does not exist (its path).
    ElementsNotFound(String),
    /// elements.toml could not be parsed (the parser's message).
    ElementsParse(String),
    /// the browser executable is missing (its path).
    ChromeNotFound(String),
    /// the driver executable is missing (its path).
    ChromeDriverNotFound(String),
    /// the driver process could not be started (the message).
    ChromeDriverStart(String),
    /// the WebDriver session could not be opened (the message).
    ChromeConnection(String),
    /// an HTTP request failed (the message).
    NetworkRequest(String),
    /// a login step failed (what failed).
    LoginFailed(String),
    /// the lock file could not be handled (the message).
    LockError(String),
    /// another instance holds the lock.
    AlreadyRunning,
    /// the stop channel failed (the message).
    IpcConnection(String),
    /// any other I/O failure (the message).
    Io(String),
}

/// Which file could not be read.
#[derive(PartialEq, Eq, Structural, Debug, Clone, Copy)]
pub enum ReadTarget {
    /// config.toml
    Config,
    /// elements.toml
    Elements,
}

/// The error for a file that could not be read: a missing file is
/// reported with its path, any other failure as I/O with its message.
pub fn read_error(target: ReadTarget, not_found: bool, path: String, message: String) -> (r: CampusError)
    ensures
        not_found && target == ReadTarget::Config ==> r == CampusError::ConfigNotFound(path),
        not_found && target == ReadTarget::Elements ==> r == CampusError::ElementsNotFound(path),
        !not_found ==> r == CampusError::Io(message),
{
    if not_found {
        match target {
            ReadTarget::Config => CampusError::ConfigNotFound(path),
            ReadTarget::Elements => CampusError::ElementsNotFound(path),
        }
    } else {
        CampusError::Io(message)
    }
}

} // verus!
