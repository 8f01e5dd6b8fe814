//! Where logs are looked for, which files are logs, and how the errors of
//! looking for them are described.

use vstd::prelude::*;
use crate::text::{chars_of, is_match_at, matches_at};

verus! {

/// The end of the name of every log file.
pub const LOG_EXTENSION: &'static str = ".log";

/// The platforms that the client runs on.
#[derive(Clone, Copy, Debug, PartialEq, Eq)]
pub enum Platform {
    Linux,
    MacOs,
    Windows,
    Android,
}

/// The directory under which the frontend keeps its logs.
#[derive(Clone, Copy, Debug, PartialEq, Eq)]
pub enum BaseDir {
    /// The home directory of the user.
    Home,
    /// The directory that `%LOCALAPPDATA%` names.
    LocalAppData,
}

/// Errors that can happen while the logs are collected. They stop nothing:
/// each is written into the report in the place of what could not be had.
#[derive(Debug, PartialEq, Eq)]
pub enum LogError {
    /// The log directory of the daemon is not known.
    GetLogDir,
    /// The files of a log directory could not be listed.
    ListLogDir { path: String },
    /// A log file could not be read.
    ReadLogError { path: String },
    /// The user has no home directory.
    NoHomeDir,
    /// `%LOCALAPPDATA%` is not set.
    NoLocalAppDataDir,
}

/// Errors that stop the collecting or the sending of a report.
#[derive(Debug, PartialEq, Eq)]
pub enum Error {
    /// The report could not be written.
    WriteReportError { path: String },
    /// The report could not be read.
    ReadProblemReportError { path: String },
    /// No client for the API could be made.
    CreateRpcClientError,
    /// The call to the API failed.
    SendRpcError,
}

/// Where the frontend keeps its logs on a platform: the directory to start
/// from and the path below it. The frontend of Android keeps no logs of its
/// own.
pub open spec fn frontend_logs_at(platform: Platform) -> Option<(BaseDir, Seq<char>)> {
    match platform {
        Platform::Linux => Some((BaseDir::Home, ".config/Mullvad VPN/logs"@)),
        Platform::MacOs => Some((BaseDir::Home, "Library/Logs/Mullvad VPN"@)),
        Platform::Windows => Some((BaseDir::LocalAppData, "Mullvad VPN/logs"@)),
        Platform::Android => None,
    }
}

/// Returns where the frontend keeps its logs on `platform`.
pub fn frontend_log_dir(platform: Platform) -> (place: Option<(BaseDir, &'static str)>)
    ensures
        match place {
            Some((base, below)) => frontend_logs_at(platform) == Some((base, below@)),
            None => frontend_logs_at(platform) is None,
        },
{
    match platform {
        Platform::Linux => Some((BaseDir::Home, ".config/Mullvad VPN/logs")),
        Platform::MacOs => Some((BaseDir::Home, "Library/Logs/Mullvad VPN")),
        Platform::Windows => Some((BaseDir::LocalAppData, "Mullvad VPN/logs")),
        Platform::Android => None,
    }
}

/// The error of a base directory that is not there.
pub open spec fn missing_base_dir(base: BaseDir) -> LogError {
    match base {
        BaseDir::Home => LogError::NoHomeDir,
        BaseDir::LocalAppData => LogError::NoLocalAppDataDir,
    }
}

impl BaseDir {
    /// The error to record where this directory is not there.
    pub fn missing(self) -> (error: LogError)
        ensures
            error == missing_base_dir(self),
    {
        match self {
            BaseDir::Home => LogError::NoHomeDir,
            BaseDir::LocalAppData => LogError::NoLocalAppDataDir,
        }
    }
}

/// A file is a log if its name ends with `.log` and has something in front
/// of that.
pub open spec fn names_log_file(file_name: Seq<char>) -> bool {
    file_name.len() > LOG_EXTENSION@.len() && is_match_at(
        file_name,
        file_name.len() - LOG_EXTENSION@.len(),
        LOG_EXTENSION@,
    )
}

/// Tells whether a file with this name is a log.
pub fn is_log_file(file_name: &str) -> (log_file: bool)
    ensures
        log_file == names_log_file(file_name@),
{
    let name = chars_of(file_name);
    let extension = chars_of(LOG_EXTENSION);
    name.len() > extension.len() && matches_at(&name, name.len() - extension.len(), &extension)
}

/// What an error of collecting says of itself.
pub open spec fn log_error_text(error: LogError) -> Seq<char> {
    match error {
        LogError::GetLogDir => "Unable to get log directory"@,
        LogError::ListLogDir { path } => "Failed to list the files in the log directory: "@
            + path@,
        LogError::ReadLogError { path } => "Error reading the contents of log file: "@ + path@,
        LogError::NoHomeDir => "No home directory for current user"@,
        LogError::NoLocalAppDataDir => "Missing %LOCALAPPDATA% environment variable"@,
    }
}

impl LogError {
    /// Describes the error.
    pub fn message(&self) -> (text: String)
        ensures
            text@ == log_error_text(*self),
    {
        match self {
            LogError::GetLogDir => String::from_str("Unable to get log directory"),
            LogError::ListLogDir { path } => String::from_str(
                "Failed to list the files in the log directory: ",
            ).concat(path.as_str()),
            LogError::ReadLogError { path } => String::from_str(
                "Error reading the contents of log file: ",
            ).concat(path.as_str()),
            LogError::NoHomeDir => String::from_str("No home directory for current user"),
            LogError::NoLocalAppDataDir => String::from_str(
                "Missing %LOCALAPPDATA% environment variable",
            ),
        }
    }
}

/// What an error of the tool says of itself.
pub open spec fn error_text(error: Error) -> Seq<char> {
    match error {
        Error::WriteReportError { path } => "Failed to write the problem report to "@ + path@,
        Error::ReadProblemReportError { path } => "Failed to read the problem report at "@
            + path@,
        Error::CreateRpcClientError => "Unable to create JSON-RPC 2.0 client"@,
        Error::SendRpcError => "Error during RPC call"@,
    }
}

impl Error {
    /// Describes the error.
    pub fn message(&self) -> (text: String)
        ensures
            text@ == error_text(*self),
    {
        match self {
            Error::WriteReportError { path } => String::from_str(
                "Failed to write the problem report to ",
            ).concat(path.as_str()),
            Error::ReadProblemReportError { path } => String::from_str(
                "Failed to read the problem report at ",
            ).concat(path.as_str()),
            Error::CreateRpcClientError => String::from_str("Unable to create JSON-RPC 2.0 client"),
            Error::SendRpcError => String::from_str("Error during RPC call"),
        }
    }
}

} // verus!
