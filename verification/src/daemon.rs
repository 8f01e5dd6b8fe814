//! How the daemon is set up inside an application: where its files go, and
//! that logging is started once.

use vstd::prelude::*;

verus! {

/// The name of the log file of the daemon.
pub const LOG_FILENAME: &'static str = "daemon.log";

/// The directories and the socket of a daemon.
#[derive(Debug, PartialEq, Eq)]
pub struct DaemonDirectories {
    pub rpc_socket_path: String,
    pub log_dir: Option<String>,
    pub resource_dir: String,
    pub settings_dir: String,
    pub cache_dir: String,
}

/// The directories of a daemon that keeps its logs, its resources and its
/// settings together in the files directory of the application.
pub open spec fn directories_in(
    rpc_socket: Seq<char>,
    files_dir: Seq<char>,
    cache_dir: Seq<char>,
    directories: DaemonDirectories,
) -> bool {
    &&& directories.rpc_socket_path@ == rpc_socket
    &&& directories.log_dir matches Some(log_dir) && log_dir@ == files_dir
    &&& directories.resource_dir@ == files_dir
    &&& directories.settings_dir@ == files_dir
    &&& directories.cache_dir@ == cache_dir
}

impl DaemonDirectories {
    /// Places logs, resources and settings in `files_dir`.
    pub fn new(rpc_socket: String, files_dir: String, cache_dir: String) -> (directories: Self)
        ensures
            directories_in(rpc_socket@, files_dir@, cache_dir@, directories),
    {
        DaemonDirectories {
            rpc_socket_path: rpc_socket,
            log_dir: Some(files_dir.clone()),
            resource_dir: files_dir.clone(),
            settings_dir: files_dir,
            cache_dir,
        }
    }
}

/// Remembers how the one start of logging ended. Logging is started at
/// most once in a process; whoever asks later gets the result of that
/// start.
#[derive(Debug)]
pub struct LoggerStart {
    result: Option<Result<(), String>>,
}

impl LoggerStart {
    /// The result of the start of logging, once it has been started.
    pub closed spec fn result(&self) -> Option<Result<(), String>> {
        self.result
    }

    /// Logging has not been started yet.
    pub fn new() -> (start: Self)
        ensures
            start.result() is None,
    {
        LoggerStart { result: None }
    }

    /// Whether logging still has to be started.
    pub fn is_pending(&self) -> (pending: bool)
        ensures
            pending == self.result() is None,
    {
        self.result.is_none()
    }

    /// Records how a start of logging ended and returns the result that
    /// counts: that of the first start. A later result is dropped.
    pub fn record(&mut self, outcome: Result<(), String>) -> (first: Result<(), String>)
        ensures
            final(self).result() == Some(first),
            first == match old(self).result() {
                Some(earlier) => earlier,
                None => outcome,
            },
    {
        match &self.result {
            Some(earlier) => copy_of(earlier),
            None => {
                let first = copy_of(&outcome);
                self.result = Some(outcome);
                first
            },
        }
    }
}

fn copy_of(result: &Result<(), String>) -> (copy: Result<(), String>)
    ensures
        copy == *result,
{
    match result {
        Ok(done) => Ok(*done),
        Err(error) => Err(error.clone()),
    }
}

} // verus!
