//! Putting a problem report together from the logs that were found.
//!
//! The caller lists the log directories and reads the files; what it found
//! comes in as plain values, errors included, and the text of the report
//! comes out.

use vstd::prelude::*;
use crate::metadata::{entry_views, Entry, Metadata};
use crate::problem_report::{ProblemReport, ReportView};
use crate::redact::{patterns_compile, string_views, text_of};
use crate::text::{chars_of, contains, occurs_in};

verus! {

/// The label of an entry of a log directory that could not be read.
pub const UNABLE_TO_GET_LOG_PATH: &'static str = "Unable to get log path";

/// The label of the error of listing the log directory of the daemon.
pub const FAILED_TO_LIST_DAEMON_LOGS: &'static str = "Failed to list logs in daemon log directory";

/// The label of the error of listing the log directory of the frontend.
pub const FAILED_TO_LIST_FRONTEND_LOGS: &'static str =
    "Failed to list logs in frontend log directory";

/// The label of the error of collecting the log of the system.
pub const FAILED_TO_COLLECT_LOGCAT: &'static str = "Failed to collect logcat";

/// What the name of a log file of the tunnel holds.
pub const TUNNEL_LOG_MARK: &'static str = "openvpn";

/// A log file that was found.
#[derive(Debug, PartialEq, Eq)]
pub struct LogFile {
    /// The canonical path of the file.
    pub path: String,
    /// The last component of the path, if it has one.
    pub file_name: Option<String>,
    /// What was read from the file, or the description of the error that
    /// reading it ended in.
    pub content: String,
}

/// An entry of a log directory.
#[derive(Debug, PartialEq, Eq)]
pub enum ListedLog {
    /// A log file.
    Found(LogFile),
    /// An entry that could not be read, with the description of the error.
    Failed(String),
}

/// A file is a log of the tunnel if its name holds the mark.
pub open spec fn names_tunnel_log(file_name: Option<Seq<char>>) -> bool {
    match file_name {
        Some(name) => occurs_in(TUNNEL_LOG_MARK@, name),
        None => false,
    }
}

/// Tells whether a file with this name is a log of the tunnel.
pub fn is_tunnel_log(file_name: Option<&str>) -> (tunnel_log: bool)
    ensures
        tunnel_log == names_tunnel_log(
            match file_name {
                Some(name) => Some(name@),
                None => None,
            },
        ),
{
    match file_name {
        Some(name) => contains(&chars_of(name), &chars_of(TUNNEL_LOG_MARK)),
        None => false,
    }
}

/// The report after one entry of the log directory of the daemon has been
/// looked at for the first time: a log of the tunnel is attached, an error
/// is attached, any other log waits.
pub open spec fn first_look(report: ReportView, entry: ListedLog) -> ReportView {
    match entry {
        ListedLog::Found(file) => if names_tunnel_log(text_of(file.file_name)) {
            report.add_log(file.path@, file.content@)
        } else {
            report
        },
        ListedLog::Failed(error) => report.add_error(UNABLE_TO_GET_LOG_PATH@, error@),
    }
}

/// The report after one entry has been looked at for the second time: a log
/// that waited is attached.
pub open spec fn second_look(report: ReportView, entry: ListedLog) -> ReportView {
    match entry {
        ListedLog::Found(file) => if names_tunnel_log(text_of(file.file_name)) {
            report
        } else {
            report.add_log(file.path@, file.content@)
        },
        ListedLog::Failed(_) => report,
    }
}

/// The report after one entry of any other log directory has been looked
/// at: a log is attached, and so is an error.
pub open spec fn only_look(report: ReportView, entry: ListedLog) -> ReportView {
    match entry {
        ListedLog::Found(file) => report.add_log(file.path@, file.content@),
        ListedLog::Failed(error) => report.add_error(UNABLE_TO_GET_LOG_PATH@, error@),
    }
}

/// The report after all entries have been looked at for the first time.
pub open spec fn after_first_pass(report: ReportView, entries: Seq<ListedLog>) -> ReportView
    decreases entries.len(),
{
    if entries.len() == 0 {
        report
    } else {
        first_look(after_first_pass(report, entries.drop_last()), entries.last())
    }
}

/// The report after all entries have been looked at for the second time.
pub open spec fn after_second_pass(report: ReportView, entries: Seq<ListedLog>) -> ReportView
    decreases entries.len(),
{
    if entries.len() == 0 {
        report
    } else {
        second_look(after_second_pass(report, entries.drop_last()), entries.last())
    }
}

/// The report after all entries of another log directory have been looked
/// at.
pub open spec fn after_only_pass(report: ReportView, entries: Seq<ListedLog>) -> ReportView
    decreases entries.len(),
{
    if entries.len() == 0 {
        report
    } else {
        only_look(after_only_pass(report, entries.drop_last()), entries.last())
    }
}

/// The report with the logs of the daemon: the logs of the tunnel and the
/// errors first, in the order of the directory, then the other logs. Where
/// the directory could not be listed, the error stands in their place.
pub open spec fn with_daemon_logs(
    report: ReportView,
    listing: Result<Vec<ListedLog>, String>,
) -> ReportView {
    match listing {
        Ok(entries) => after_second_pass(after_first_pass(report, entries@), entries@),
        Err(error) => report.add_error(FAILED_TO_LIST_DAEMON_LOGS@, error@),
    }
}

/// The report with the logs of the frontend, in the order of the directory.
/// `None` stands for a platform on which the frontend keeps no logs of its
/// own.
pub open spec fn with_frontend_logs(
    report: ReportView,
    listing: Option<Result<Vec<ListedLog>, String>>,
) -> ReportView {
    match listing {
        Some(Ok(entries)) => after_only_pass(report, entries@),
        Some(Err(error)) => report.add_error(FAILED_TO_LIST_FRONTEND_LOGS@, error@),
        None => report,
    }
}

/// The report with the log of the system, which some platforms keep, or
/// with the error of collecting it. `None` stands for a platform that has
/// no such log.
pub open spec fn with_logcat(report: ReportView, logcat: Option<Result<LogFile, String>>) -> ReportView {
    match logcat {
        Some(Ok(file)) => report.add_log(file.path@, file.content@),
        Some(Err(error)) => report.add_error(FAILED_TO_COLLECT_LOGCAT@, error@),
        None => report,
    }
}

/// The report that is collected from the logs of the daemon, the logs of
/// the frontend, the log of the system and the logs that the caller adds,
/// in this order.
pub open spec fn collected(
    report: ReportView,
    daemon_logs: Result<Vec<ListedLog>, String>,
    frontend_logs: Option<Result<Vec<ListedLog>, String>>,
    logcat: Option<Result<LogFile, String>>,
    extra_logs: Seq<Entry>,
) -> ReportView {
    with_logcat(
        with_frontend_logs(with_daemon_logs(report, daemon_logs), frontend_logs),
        logcat,
    ).add_logs(extra_logs)
}

/// Looks at an entry of the log directory of the daemon for the first time:
/// attaches a log of the tunnel or an error, and lets any other log wait.
/// Tells whether that was done. It is not done, and the report stays as it
/// was, where what is to be attached could not be redacted; it is always
/// done where the two patterns compile or nothing has to be redacted.
fn add_first_look(report: &mut ProblemReport, entry: &ListedLog) -> (done: bool)
    ensures
        final(report)@ == if done {
            first_look(old(report)@, *entry)
        } else {
            old(report)@
        },
        first_look_redacts_nothing(old(report)@, *entry) || patterns_compile() ==> done,
{
    match entry {
        ListedLog::Found(file) => {
            let tunnel_log = match &file.file_name {
                Some(name) => is_tunnel_log(Some(name.as_str())),
                None => is_tunnel_log(None),
            };
            !tunnel_log || report.add_log(file.path.as_str(), file.content.as_str()).is_some()
        },
        ListedLog::Failed(error) => report.add_error(UNABLE_TO_GET_LOG_PATH, error.as_str()),
    }
}

/// Looks at an entry of the log directory of the daemon for the second
/// time: attaches a log that waited. Tells whether that was done. It is not
/// done, and the report stays as it was, where the log could not be
/// redacted; it is always done where the two patterns compile or nothing
/// has to be redacted.
fn add_second_look(report: &mut ProblemReport, entry: &ListedLog) -> (done: bool)
    ensures
        final(report)@ == if done {
            second_look(old(report)@, *entry)
        } else {
            old(report)@
        },
        second_look_redacts_nothing(old(report)@, *entry) || patterns_compile() ==> done,
{
    match entry {
        ListedLog::Found(file) => {
            let tunnel_log = match &file.file_name {
                Some(name) => is_tunnel_log(Some(name.as_str())),
                None => is_tunnel_log(None),
            };
            tunnel_log || report.add_log(file.path.as_str(), file.content.as_str()).is_some()
        },
        ListedLog::Failed(_) => true,
    }
}

/// Looks at an entry of another log directory: attaches a log, and an error
/// as well. Tells whether that was done. It is not done, and the report
/// stays as it was, where what is to be attached could not be redacted; it
/// is always done where the two patterns compile or nothing has to be
/// redacted.
fn add_only_look(report: &mut ProblemReport, entry: &ListedLog) -> (done: bool)
    ensures
        final(report)@ == if done {
            only_look(old(report)@, *entry)
        } else {
            old(report)@
        },
        only_look_redacts_nothing(old(report)@, *entry) || patterns_compile() ==> done,
{
    match entry {
        ListedLog::Found(file) => report.add_log(
            file.path.as_str(),
            file.content.as_str(),
        ).is_some(),
        ListedLog::Failed(error) => report.add_error(UNABLE_TO_GET_LOG_PATH, error.as_str()),
    }
}

/// The first look at an entry attaches nothing that would have to be
/// redacted: the entry is a log that waits for the second pass, or a log of
/// the tunnel that has been attached before.
pub open spec fn first_look_redacts_nothing(report: ReportView, entry: ListedLog) -> bool {
    entry matches ListedLog::Found(file) && (!names_tunnel_log(text_of(file.file_name))
        || report.log_paths.contains(file.path@))
}

/// The second look at an entry attaches nothing that would have to be
/// redacted: the entry is an error or a log of the tunnel, which the first
/// pass has dealt with, or a log that has been attached before.
pub open spec fn second_look_redacts_nothing(report: ReportView, entry: ListedLog) -> bool {
    match entry {
        ListedLog::Found(file) => names_tunnel_log(text_of(file.file_name))
            || report.log_paths.contains(file.path@),
        ListedLog::Failed(_) => true,
    }
}

/// The only look at an entry attaches nothing that would have to be
/// redacted: the entry is a log that has been attached before.
pub open spec fn only_look_redacts_nothing(report: ReportView, entry: ListedLog) -> bool {
    entry matches ListedLog::Found(file) && report.log_paths.contains(file.path@)
}

fn add_daemon_logs(report: &mut ProblemReport, entries: &Vec<ListedLog>) -> (complete: bool)
    ensures
        complete ==> final(report)@ == after_second_pass(
            after_first_pass(old(report)@, entries@),
            entries@,
        ),
        entries@.len() == 0 || patterns_compile() ==> complete,
{
    let mut at: usize = 0;
    assert(entries@.take(0) =~= Seq::<ListedLog>::empty());
    while at < entries.len()
        invariant
            at <= entries.len(),
            report@ == after_first_pass(old(report)@, entries@.take(at as int)),
        decreases entries.len() - at,
    {
        assert(entries@.take(at + 1).drop_last() =~= entries@.take(at as int));
        assert(entries@.take(at + 1).last() == entries@[at as int]);
        if !add_first_look(report, &entries[at]) {
            return false;
        }
        at += 1;
    }
    assert(entries@.take(at as int) =~= entries@);
    let ghost first = report@;
    let mut at: usize = 0;
    while at < entries.len()
        invariant
            at <= entries.len(),
            report@ == after_second_pass(first, entries@.take(at as int)),
        decreases entries.len() - at,
    {
        assert(entries@.take(at + 1).drop_last() =~= entries@.take(at as int));
        assert(entries@.take(at + 1).last() == entries@[at as int]);
        if !add_second_look(report, &entries[at]) {
            return false;
        }
        at += 1;
    }
    assert(entries@.take(at as int) =~= entries@);
    true
}

fn add_frontend_logs(report: &mut ProblemReport, entries: &Vec<ListedLog>) -> (complete: bool)
    ensures
        complete ==> final(report)@ == after_only_pass(old(report)@, entries@),
        entries@.len() == 0 || patterns_compile() ==> complete,
{
    let mut at: usize = 0;
    assert(entries@.take(0) =~= Seq::<ListedLog>::empty());
    while at < entries.len()
        invariant
            at <= entries.len(),
            report@ == after_only_pass(old(report)@, entries@.take(at as int)),
        decreases entries.len() - at,
    {
        assert(entries@.take(at + 1).drop_last() =~= entries@.take(at as int));
        assert(entries@.take(at + 1).last() == entries@[at as int]);
        if !add_only_look(report, &entries[at]) {
            return false;
        }
        at += 1;
    }
    assert(entries@.take(at as int) =~= entries@);
    true
}

/// Nothing was found that would have to be redacted: the directories were
/// listed and are empty, there is no log of the system, and the caller adds
/// no logs.
pub open spec fn nothing_to_redact(
    daemon_logs: Result<Vec<ListedLog>, String>,
    frontend_logs: Option<Result<Vec<ListedLog>, String>>,
    logcat: Option<Result<LogFile, String>>,
    extra_logs: Seq<Entry>,
) -> bool {
    &&& daemon_logs matches Ok(entries) && entries@.len() == 0
    &&& match frontend_logs {
        Some(Ok(entries)) => entries@.len() == 0,
        Some(Err(_)) => false,
        None => true,
    }
    &&& logcat is None
    &&& extra_logs.len() == 0
}

fn add_collected_logs(
    report: &mut ProblemReport,
    daemon_logs: &Result<Vec<ListedLog>, String>,
    frontend_logs: &Option<Result<Vec<ListedLog>, String>>,
    logcat: &Option<Result<LogFile, String>>,
    extra_logs: &Vec<(String, String)>,
) -> (complete: bool)
    ensures
        complete ==> final(report)@ == collected(
            old(report)@,
            *daemon_logs,
            *frontend_logs,
            *logcat,
            entry_views(extra_logs@),
        ),
        patterns_compile() || nothing_to_redact(
            *daemon_logs,
            *frontend_logs,
            *logcat,
            entry_views(extra_logs@),
        ) ==> complete,
{
    let daemon_done = match daemon_logs {
        Ok(entries) => add_daemon_logs(report, entries),
        Err(error) => report.add_error(FAILED_TO_LIST_DAEMON_LOGS, error.as_str()),
    };
    if !daemon_done {
        return false;
    }
    let frontend_done = match frontend_logs {
        Some(Ok(entries)) => add_frontend_logs(report, entries),
        Some(Err(error)) => report.add_error(FAILED_TO_LIST_FRONTEND_LOGS, error.as_str()),
        None => true,
    };
    if !frontend_done {
        return false;
    }
    let logcat_done = match logcat {
        Some(Ok(file)) => report.add_log(file.path.as_str(), file.content.as_str()).is_some(),
        Some(Err(error)) => report.add_error(FAILED_TO_COLLECT_LOGCAT, error.as_str()),
        None => true,
    };
    if !logcat_done {
        return false;
    }
    report.add_logs(extra_logs)
}

/// Collects a problem report and returns its text, written with
/// `line_separator`, the line separator of the platform. The logs of the
/// daemon come first, those of the tunnel before the others; then the logs
/// of the frontend; then the log of the system, on a platform that keeps
/// one; then `extra_logs`, each given as its path and its content. No log
/// file is attached twice. A listing or a file that could not be read does
/// not fail the call: the error goes into the report in its place. The
/// report comes back whenever the two patterns of the redaction compile.
/// `None` comes back where one of them does not and something would have to
/// be redacted: a report goes out redacted or not at all.
pub fn collect_report(
    daemon_logs: &Result<Vec<ListedLog>, String>,
    frontend_logs: &Option<Result<Vec<ListedLog>, String>>,
    logcat: &Option<Result<LogFile, String>>,
    extra_logs: &Vec<(String, String)>,
    redact_custom_strings: Vec<String>,
    metadata: Metadata,
    home_dir: Option<String>,
    line_separator: &str,
) -> (text: Option<String>)
    ensures
        text matches Some(written) ==> written@ == collected(
            ReportView::new(string_views(redact_custom_strings@), metadata@, text_of(home_dir)),
            *daemon_logs,
            *frontend_logs,
            *logcat,
            entry_views(extra_logs@),
        ).text(line_separator@),
        patterns_compile() || nothing_to_redact(
            *daemon_logs,
            *frontend_logs,
            *logcat,
            entry_views(extra_logs@),
        ) ==> text is Some,
{
    let mut problem_report = ProblemReport::new(redact_custom_strings, metadata, home_dir);
    if !add_collected_logs(&mut problem_report, daemon_logs, frontend_logs, logcat, extra_logs) {
        return None;
    }
    let mut text = String::new();
    problem_report.write_to(&mut text, line_separator);
    assert(text@ =~= problem_report@.text(line_separator@));
    Some(text)
}

} // verus!
