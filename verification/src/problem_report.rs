//! A problem report: system information and redacted logs, written as text
//! that can be parsed again.

use vstd::prelude::*;
use crate::metadata::{entries_sorted, entry_views, inserted, Entry, Metadata};
use crate::report_laws::{lemma_parse_reads_back_what_was_written, reads_back};
use crate::redact::{
    patterns_compile, redacted, string_views, text_of, without_empty, Redactor,
};
use crate::text::{
    chars_of, find, first_match, lemma_first_match_from, lines, lines_of, replace_all, replaced,
    same_chars, same_text, slice_chars, string_of, views_of,
};

verus! {

/// What separates the logs of a report from each other.
pub const LOG_DELIMITER: &'static str = "====================";

/// The line separator of most platforms, and what line endings are
/// normalized to.
pub const LINE_FEED: &'static str = "\n";

/// The line separator of Windows.
pub const CARRIAGE_RETURN_LINE_FEED: &'static str = "\r\n";

/// The first line of every report.
pub const METADATA_HEADER: &'static str = "System information:";

/// What stands between a key and its value.
pub const KEY_VALUE_SEPARATOR: &'static str = ": ";

/// What stands before the label of a log.
pub const LOG_LABEL_PREFIX: &'static str = "Log: ";

/// A report as contracts see it.
pub struct ReportView {
    /// The system information, in the order of its keys.
    pub metadata: Seq<Entry>,
    /// The logs, each a label and its redacted content, in the order in
    /// which they were added.
    pub logs: Seq<Entry>,
    /// The paths of the log files that have been added.
    pub log_paths: Set<Seq<char>>,
    /// The strings that are removed on the caller's behalf.
    pub custom_strings: Seq<Seq<char>>,
    /// The home directory, which is replaced by a tilde.
    pub home_dir: Option<Seq<char>>,
}

impl ReportView {
    /// A report with system information and no logs, which removes
    /// `home_dir` and all of `redact_custom_strings` but the empty ones.
    pub open spec fn new(
        redact_custom_strings: Seq<Seq<char>>,
        metadata: Seq<Entry>,
        home_dir: Option<Seq<char>>,
    ) -> ReportView {
        ReportView {
            metadata,
            logs: Seq::empty(),
            log_paths: Set::empty(),
            custom_strings: without_empty(redact_custom_strings),
            home_dir,
        }
    }

    /// The text that the report is written as with `line_separator` at the
    /// end of every line.
    pub open spec fn text(self, line_separator: Seq<char>) -> Seq<char> {
        report_text(self.metadata, self.logs, line_separator)
    }

    /// `input` as this report redacts it.
    pub open spec fn redact(self, input: Seq<char>) -> Seq<char> {
        redacted(self.custom_strings, self.home_dir, input)
    }

    /// The report after the log file at `path` has been attached under
    /// `label` with `content`. A file that was attached before is not
    /// attached again.
    pub open spec fn attach_log(
        self,
        path: Seq<char>,
        label: Seq<char>,
        content: Seq<char>,
    ) -> ReportView {
        if self.log_paths.contains(path) {
            self
        } else {
            ReportView {
                logs: self.logs.push((label, content)),
                log_paths: self.log_paths.insert(path),
                ..self
            }
        }
    }

    /// The report after the log file at `path` with the content `content`
    /// has been added: it is attached with its path and its content
    /// redacted.
    pub open spec fn add_log(self, path: Seq<char>, content: Seq<char>) -> ReportView {
        self.attach_log(path, self.redact(path), self.redact(content))
    }

    /// The report after log files have been added one after the other.
    pub open spec fn add_logs(self, logs: Seq<Entry>) -> ReportView
        decreases logs.len(),
    {
        if logs.len() == 0 {
            self
        } else {
            self.add_logs(logs.drop_last()).add_log(logs.last().0, logs.last().1)
        }
    }

    /// The report after `content` has been attached under `label`.
    pub open spec fn attach_error(self, label: Seq<char>, content: Seq<char>) -> ReportView {
        ReportView { logs: self.logs.push((label, content)), ..self }
    }

    /// The report after an error has been added under the label `message`:
    /// its description is attached redacted.
    pub open spec fn add_error(self, message: Seq<char>, error: Seq<char>) -> ReportView {
        self.attach_error(message, self.redact(error))
    }
}

/// A line separator of a platform: a line feed, or a carriage return and a
/// line feed.
pub open spec fn is_line_separator(text: Seq<char>) -> bool {
    text == LINE_FEED@ || text == CARRIAGE_RETURN_LINE_FEED@
}

/// The lines that the system information is written as: for each entry the
/// key, a colon and a space, the value, the line separator.
pub open spec fn metadata_text(entries: Seq<Entry>, line_separator: Seq<char>) -> Seq<char>
    decreases entries.len(),
{
    if entries.len() == 0 {
        Seq::empty()
    } else {
        entries[0].0 + KEY_VALUE_SEPARATOR@ + entries[0].1 + line_separator + metadata_text(
            entries.skip(1),
            line_separator,
        )
    }
}

/// What one log is written as: its label between two delimiter lines, then
/// its content, each followed by the line separator.
pub open spec fn log_text(log: Entry, line_separator: Seq<char>) -> Seq<char> {
    LOG_DELIMITER@ + line_separator + LOG_LABEL_PREFIX@ + log.0 + line_separator + LOG_DELIMITER@
        + line_separator + log.1 + line_separator
}

/// What the logs are written as, one after the other.
pub open spec fn logs_text(logs: Seq<Entry>, line_separator: Seq<char>) -> Seq<char>
    decreases logs.len(),
{
    if logs.len() == 0 {
        Seq::empty()
    } else {
        log_text(logs[0], line_separator) + logs_text(logs.skip(1), line_separator)
    }
}

/// The text of a report: the header, the system information, an empty
/// line, the logs, with `line_separator` at the end of every line that the
/// report writes itself.
pub open spec fn report_text(
    metadata: Seq<Entry>,
    logs: Seq<Entry>,
    line_separator: Seq<char>,
) -> Seq<char> {
    METADATA_HEADER@ + line_separator + metadata_text(metadata, line_separator) + line_separator
        + logs_text(logs, line_separator)
}

/// The entries that are read from `lines`, on top of `found`: one from each
/// line up to the first empty one. A line without a colon and a space
/// before that is an error.
pub open spec fn parsed_entries(lines: Seq<Seq<char>>, found: Seq<Entry>) -> Option<Seq<Entry>>
    decreases lines.len(),
{
    if lines.len() == 0 || lines[0].len() == 0 {
        Some(found)
    } else {
        match first_match(lines[0], KEY_VALUE_SEPARATOR@) {
            None => None,
            Some(at) => parsed_entries(
                lines.skip(1),
                inserted(found, lines[0].take(at), lines[0].skip(at + 2)),
            ),
        }
    }
}

/// The system information that is read from the text of a report.
pub open spec fn parsed_metadata(report: Seq<char>) -> Option<Seq<Entry>> {
    let lines = lines_of(report);
    if lines.len() == 0 || lines[0] != METADATA_HEADER@ {
        None
    } else {
        parsed_entries(lines.skip(1), Seq::empty())
    }
}

/// Collects system information and logs, and writes them out with what
/// identifies the user removed.
#[derive(Debug)]
pub struct ProblemReport {
    metadata: Metadata,
    logs: Vec<(String, String)>,
    log_paths: Vec<String>,
    redactor: Redactor,
}

impl View for ProblemReport {
    type V = ReportView;

    closed spec fn view(&self) -> ReportView {
        ReportView {
            metadata: self.metadata@,
            logs: entry_views(self.logs@),
            log_paths: string_views(self.log_paths@).to_set(),
            custom_strings: self.redactor.custom_strings(),
            home_dir: self.redactor.home_dir(),
        }
    }
}

impl ProblemReport {
    /// Creates a report with the system information `metadata` and no logs.
    /// Logs will have `home_dir` and all of `redact_custom_strings` but the
    /// empty ones removed from them.
    pub fn new(
        redact_custom_strings: Vec<String>,
        metadata: Metadata,
        home_dir: Option<String>,
    ) -> (report: ProblemReport)
        ensures
            report@ == ReportView::new(
                string_views(redact_custom_strings@),
                metadata@,
                text_of(home_dir),
            ),
    {
        let report = ProblemReport {
            metadata,
            logs: Vec::new(),
            log_paths: Vec::new(),
            redactor: Redactor::new(redact_custom_strings, home_dir),
        };
        assert(report@.logs =~= Seq::empty());
        assert(report@.log_paths =~= Set::empty());
        report
    }

    /// Tells whether the log file at `path` has been added.
    pub fn has_log(&self, path: &str) -> (added: bool)
        ensures
            added == self@.log_paths.contains(path@),
    {
        let mut at: usize = 0;
        while at < self.log_paths.len()
            invariant
                at <= self.log_paths.len(),
                forall|k: int| 0 <= k < at ==> self.log_paths@[k]@ != path@,
            decreases self.log_paths.len() - at,
        {
            if same_text(self.log_paths[at].as_str(), path) {
                assert(string_views(self.log_paths@)[at as int] == path@);
                return true;
            }
            at += 1;
        }
        false
    }

    /// Attaches the log file at `path` under `label` with `content`, both as
    /// they are, unless the file has been attached before. Tells whether the
    /// log was attached.
    pub fn attach_log(&mut self, path: &str, label: String, content: String) -> (attached: bool)
        ensures
            final(self)@ == old(self)@.attach_log(path@, label@, content@),
            attached == !old(self)@.log_paths.contains(path@),
    {
        if self.has_log(path) {
            return false;
        }
        let ghost paths = self.log_paths@;
        let ghost logs = self.logs@;
        self.log_paths.push(path.to_owned());
        self.logs.push((label, content));
        assert(string_views(self.log_paths@) =~= string_views(paths).push(path@));
        assert(string_views(self.log_paths@).to_set() =~= string_views(paths).to_set().insert(
            path@,
        )) by {
            let before = string_views(paths);
            let after = string_views(self.log_paths@);
            assert forall|p: Seq<char>| after.contains(p) <==> (before.contains(p) || p
                == path@) by {
                if before.contains(p) {
                    let k = choose|k: int| 0 <= k < before.len() && before[k] == p;
                    assert(after[k] == p);
                }
                if p == path@ {
                    assert(after[after.len() - 1] == p);
                }
                if after.contains(p) {
                    let k = choose|k: int| 0 <= k < after.len() && after[k] == p;
                    if k < before.len() {
                        assert(before[k] == p);
                    }
                }
            }
        }
        assert(entry_views(self.logs@) =~= entry_views(logs).push((label@, content@)));
        true
    }

    /// Attaches the log file at `path`, whose content was read as `content`,
    /// unless it has been attached before. Both are redacted. Tells whether
    /// the log was attached. Returns `None`, and leaves the report as it
    /// was, where the log is new and could not be redacted because a pattern
    /// does not compile.
    pub fn add_log(&mut self, path: &str, content: &str) -> (added: Option<bool>)
        ensures
            match added {
                Some(attached) => final(self)@ == old(self)@.add_log(path@, content@) && attached
                    == !old(self)@.log_paths.contains(path@),
                None => final(self)@ == old(self)@,
            },
            added is Some <==> (old(self)@.log_paths.contains(path@) || patterns_compile()),
    {
        if self.has_log(path) {
            return Some(false);
        }
        let redacted_path = match self.redactor.redact(path) {
            Some(text) => text,
            None => {
                return None;
            },
        };
        let redacted_content = match self.redactor.redact(content) {
            Some(text) => text,
            None => {
                return None;
            },
        };
        Some(self.attach_log(path, redacted_path, redacted_content))
    }

    /// Attaches log files, each given as its path and its content, in the
    /// order given. All of them are gone through whenever the two patterns
    /// compile. Where they do not, it stops at the first log that is new,
    /// and tells so.
    pub fn add_logs(&mut self, logs: &Vec<(String, String)>) -> (complete: bool)
        ensures
            patterns_compile() ==> complete,
            complete ==> final(self)@ == old(self)@.add_logs(entry_views(logs@)),
            !complete ==> exists|n: int|
                0 <= n < logs@.len() && final(self)@ == old(self)@.add_logs(
                    #[trigger] entry_views(logs@).take(n),
                ),
    {
        let mut at: usize = 0;
        assert(entry_views(logs@).take(0) =~= Seq::<Entry>::empty());
        while at < logs.len()
            invariant
                at <= logs.len(),
                self@ == old(self)@.add_logs(entry_views(logs@).take(at as int)),
            decreases logs.len() - at,
        {
            let ghost all = entry_views(logs@);
            assert(all.take(at + 1).drop_last() =~= all.take(at as int));
            assert(all.take(at + 1).last() == (logs@[at as int].0@, logs@[at as int].1@));
            if self.add_log(logs[at].0.as_str(), logs[at].1.as_str()).is_none() {
                return false;
            }
            at += 1;
        }
        assert(entry_views(logs@).take(at as int) =~= entry_views(logs@));
        true
    }

    /// Attaches `content` under `label`, both as they are.
    pub fn attach_error(&mut self, label: &str, content: String)
        ensures
            final(self)@ == old(self)@.attach_error(label@, content@),
    {
        let ghost logs = self.logs@;
        self.logs.push((label.to_owned(), content));
        assert(entry_views(self.logs@) =~= entry_views(logs).push((label@, content@)));
    }

    /// Attaches an error to the report: `message` as the label, and the
    /// redacted description of the error as the content. That is done
    /// whenever the two patterns compile. Returns `false`, and leaves the
    /// report as it was, where one of them does not.
    pub fn add_error(&mut self, message: &str, error: &str) -> (added: bool)
        ensures
            added <==> patterns_compile(),
            final(self)@ == if added {
                old(self)@.add_error(message@, error@)
            } else {
                old(self)@
            },
    {
        match self.redactor.redact(error) {
            Some(redacted_error) => {
                self.attach_error(message, redacted_error);
                true
            },
            None => false,
        }
    }

    /// Redacts `input` as the logs of this report are redacted. Returns the
    /// redacted text whenever the two patterns compile, and `None` where
    /// one of them does not.
    pub fn redact(&self, input: &str) -> (out: Option<String>)
        ensures
            out is Some <==> patterns_compile(),
            out matches Some(text) ==> text@ == self@.redact(input@),
    {
        self.redactor.redact(input)
    }

    /// Appends the text of the report to `output`, with `line_separator`,
    /// the line separator of the platform, at the end of every line that the
    /// report writes itself. The system information is written in the order
    /// of its keys, and `parse_metadata` reads it back from the text where
    /// its entries can be read back at all.
    pub fn write_to(&self, output: &mut String, line_separator: &str)
        ensures
            final(output)@ == old(output)@ + report_text(
                self@.metadata,
                self@.logs,
                line_separator@,
            ),
            entries_sorted(self@.metadata),
            is_line_separator(line_separator@) && (forall|i: int|
                0 <= i < self@.metadata.len() ==> reads_back(#[trigger] self@.metadata[i]))
                ==> parsed_metadata(report_text(self@.metadata, self@.logs, line_separator@))
                == Some(self@.metadata),
    {
        let ghost start = output@;
        let ghost separator = line_separator@;
        output.append(METADATA_HEADER);
        output.append(line_separator);
        let entries = self.metadata.entries();
        proof {
            if is_line_separator(separator) && (forall|i: int|
                0 <= i < self@.metadata.len() ==> reads_back(#[trigger] self@.metadata[i])) {
                lemma_parse_reads_back_what_was_written(self@.metadata, self@.logs, separator);
            }
        }
        let ghost head = start + METADATA_HEADER@ + separator;
        let mut at: usize = 0;
        assert(self@.metadata.skip(0) =~= self@.metadata);
        assert(output@ + metadata_text(self@.metadata, separator) =~= head + metadata_text(
            self@.metadata,
            separator,
        ));
        while at < entries.len()
            invariant
                at <= entries.len(),
                separator == line_separator@,
                entry_views(entries@) == self@.metadata,
                output@ + metadata_text(self@.metadata.skip(at as int), separator) == head
                    + metadata_text(self@.metadata, separator),
            decreases entries.len() - at,
        {
            let ghost before = output@;
            let ghost rest = self@.metadata.skip(at as int);
            assert(rest[0] == (entries@[at as int].0@, entries@[at as int].1@));
            assert(rest.skip(1) =~= self@.metadata.skip(at + 1));
            output.append(entries[at].0.as_str());
            output.append(KEY_VALUE_SEPARATOR);
            output.append(entries[at].1.as_str());
            output.append(line_separator);
            assert(output@ + metadata_text(rest.skip(1), separator) =~= before + metadata_text(
                rest,
                separator,
            ));
            at += 1;
        }
        assert(self@.metadata.skip(at as int) =~= Seq::<Entry>::empty());
        assert(output@ =~= head + metadata_text(self@.metadata, separator));
        output.append(line_separator);
        let ghost body = head + metadata_text(self@.metadata, separator) + separator;
        let ghost all_logs = entry_views(self.logs@);
        let mut at: usize = 0;
        assert(all_logs.skip(0) =~= all_logs);
        assert(output@ + logs_text(all_logs, separator) =~= body + logs_text(all_logs, separator));
        while at < self.logs.len()
            invariant
                at <= self.logs.len(),
                separator == line_separator@,
                all_logs == entry_views(self.logs@),
                output@ + logs_text(all_logs.skip(at as int), separator) == body + logs_text(
                    all_logs,
                    separator,
                ),
            decreases self.logs.len() - at,
        {
            let ghost before = output@;
            let ghost rest = all_logs.skip(at as int);
            assert(rest[0] == (self.logs@[at as int].0@, self.logs@[at as int].1@));
            assert(rest.skip(1) =~= all_logs.skip(at + 1));
            output.append(LOG_DELIMITER);
            output.append(line_separator);
            output.append(LOG_LABEL_PREFIX);
            output.append(self.logs[at].0.as_str());
            output.append(line_separator);
            output.append(LOG_DELIMITER);
            output.append(line_separator);
            output.append(self.logs[at].1.as_str());
            output.append(line_separator);
            assert(output@ + logs_text(rest.skip(1), separator) =~= before + logs_text(
                rest,
                separator,
            ));
            at += 1;
        }
        assert(all_logs.skip(at as int) =~= Seq::<Entry>::empty());
        assert(output@ =~= start + report_text(self@.metadata, self@.logs, separator));
    }

    /// Reads the system information back from the text of a report. Returns
    /// `None` where the text does not begin like one.
    pub fn parse_metadata(report: &str) -> (metadata: Option<Metadata>)
        ensures
            match metadata {
                Some(parsed) => parsed_metadata(report@) == Some(parsed@) && parsed.in_key_order(),
                None => parsed_metadata(report@) is None,
            },
    {
        let report_lines = lines(&chars_of(report));
        let ghost all = views_of(report_lines@);
        if report_lines.len() == 0 {
            return None;
        }
        assert(all[0] == report_lines@[0]@);
        if !same_chars(&report_lines[0], &chars_of(METADATA_HEADER)) {
            return None;
        }
        let separator = chars_of(KEY_VALUE_SEPARATOR);
        proof {
            reveal_strlit(": ");
        }
        let mut metadata = Metadata::new();
        let mut at: usize = 1;
        assert(parsed_metadata(report@) == parsed_entries(all.skip(1), Seq::empty()));
        while at < report_lines.len()
            invariant
                1 <= at <= report_lines.len(),
                all == views_of(report_lines@),
                separator@ == KEY_VALUE_SEPARATOR@,
                separator@.len() == 2,
                metadata.in_key_order(),
                parsed_metadata(report@) == parsed_entries(all.skip(at as int), metadata@),
            decreases report_lines.len() - at,
        {
            let line = &report_lines[at];
            let ghost rest = all.skip(at as int);
            assert(rest[0] == line@);
            assert(rest.skip(1) =~= all.skip(at + 1));
            if line.len() == 0 {
                return Some(metadata);
            }
            match find(line, &separator) {
                None => {
                    return None;
                },
                Some(split) => {
                    proof {
                        lemma_first_match_from(line@, separator@, 0);
                    }
                    let key = string_of(&slice_chars(line, 0, split));
                    let value = string_of(&slice_chars(line, split + 2, line.len()));
                    assert(line@.take(split as int) =~= line@.subrange(0, split as int));
                    assert(line@.skip(split + 2) =~= line@.subrange(
                        split + 2,
                        line.len() as int,
                    ));
                    metadata.insert(key, value);
                },
            }
            at += 1;
        }
        assert(all.skip(at as int) =~= Seq::<Seq<char>>::empty());
        Some(metadata)
    }
}

/// `text` with every `line_separator` replaced by a line feed.
pub open spec fn newlines_normalized(text: Seq<char>, line_separator: Seq<char>) -> Seq<char> {
    replaced(text, line_separator, LINE_FEED@)
}

/// Replaces the line endings of a platform by line feeds.
pub fn normalize_newlines(text: &str, line_separator: &str) -> (out: String)
    ensures
        out@ == newlines_normalized(text@, line_separator@),
{
    let out = replace_all(&chars_of(text), &chars_of(line_separator), &chars_of(LINE_FEED));
    string_of(&out)
}

} // verus!
