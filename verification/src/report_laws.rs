//! Why the system information of a report can be read back from its text.

use vstd::prelude::*;
use crate::metadata::{
    entries_sorted, inserted, lemma_precedes_irreflexive, lemma_precedes_total, precedes, Entry,
};
use crate::problem_report::{
    is_line_separator, logs_text, metadata_text, newlines_normalized, parsed_entries,
    parsed_metadata, report_text, ReportView, KEY_VALUE_SEPARATOR, LINE_FEED, METADATA_HEADER,
};
use crate::text::{
    first_match, is_match_at, lemma_first_match_from, lemma_replaced_by_itself,
    lemma_replaced_without_match, lines_from, lines_of, occurs_in, without_carriage_return,
};

verus! {

/// The text has no line feed in it.
pub open spec fn single_line(text: Seq<char>) -> bool {
    forall|i: int| 0 <= i < text.len() ==> text[i] != '\n'
}

/// An entry that comes back from the text as it went in: key and value are
/// single lines, the key does not hold the separator, and the value does not
/// end with a carriage return, which reading would take for a part of the
/// line ending.
pub open spec fn reads_back(entry: Entry) -> bool {
    &&& single_line(entry.0)
    &&& single_line(entry.1)
    &&& !occurs_in(KEY_VALUE_SEPARATOR@, entry.0)
    &&& !(entry.1.len() > 0 && entry.1.last() == '\r')
}

/// Reading on over characters that are no line feeds changes nothing.
proof fn lemma_lines_from_skips(text: Seq<char>, start: int, at: int, upto: int)
    requires
        0 <= at <= upto <= text.len(),
        forall|i: int| at <= i < upto ==> text[i] != '\n',
    ensures
        lines_from(text, start, at) == lines_from(text, start, upto),
    decreases upto - at,
{
    if at < upto {
        lemma_lines_from_skips(text, start, at + 1, upto);
    }
}

/// The lines of a text from a position on are the lines of what is left
/// when the text before the line that is being read is cut off.
proof fn lemma_lines_from_suffix(text: Seq<char>, cut: int, start: int, at: int)
    requires
        0 <= cut <= start <= at,
        cut <= text.len(),
    ensures
        lines_from(text, start, at) == lines_from(text.skip(cut), start - cut, at - cut),
    decreases text.len() - at,
{
    let rest = text.skip(cut);
    if at >= text.len() {
        if start < text.len() {
            assert(text.subrange(start, text.len() as int) =~= rest.subrange(
                start - cut,
                rest.len() as int,
            ));
        }
    } else if text[at] == '\n' {
        assert(text.subrange(start, at) =~= rest.subrange(start - cut, at - cut));
        lemma_lines_from_suffix(text, cut, at + 1, at + 1);
    } else {
        lemma_lines_from_suffix(text, cut, start, at + 1);
    }
}

/// A text that begins with a line and a line feed has that line, without
/// the carriage return that may end it, as its first line; its other lines
/// are the lines of the rest.
pub proof fn lemma_lines_of_first_line(line: Seq<char>, rest: Seq<char>)
    requires
        single_line(line),
    ensures
        lines_of(line + seq!['\n'] + rest) == seq![without_carriage_return(line)] + lines_of(
            rest,
        ),
{
    let text = line + seq!['\n'] + rest;
    let end = line.len() as int;
    assert forall|i: int| 0 <= i < end implies text[i] != '\n' by {
        assert(text[i] == line[i]);
    }
    lemma_lines_from_skips(text, 0, 0, end);
    assert(text[end] == '\n');
    assert(text.subrange(0, end) =~= line);
    lemma_lines_from_suffix(text, end + 1, end + 1, end + 1);
    assert(text.skip(end + 1) =~= rest);
}

/// A text that begins with a line and a line separator, be it a line feed
/// or a carriage return and a line feed, has that line as its first line,
/// provided the line does not end with a carriage return itself; its other
/// lines are the lines of the rest.
pub proof fn lemma_lines_of_separated_line(
    line: Seq<char>,
    line_separator: Seq<char>,
    rest: Seq<char>,
)
    requires
        single_line(line),
        is_line_separator(line_separator),
        !(line.len() > 0 && line.last() == '\r'),
    ensures
        lines_of(line + line_separator + rest) == seq![line] + lines_of(rest),
{
    reveal_strlit("\n");
    reveal_strlit("\r\n");
    if line_separator == LINE_FEED@ {
        assert(line_separator =~= seq!['\n']);
        lemma_lines_of_first_line(line, rest);
    } else {
        assert(line_separator =~= seq!['\r', '\n']);
        let ended = line.push('\r');
        assert(single_line(ended));
        assert(line + line_separator + rest =~= ended + seq!['\n'] + rest);
        lemma_lines_of_first_line(ended, rest);
        assert(without_carriage_return(ended) =~= line);
    }
}

/// A key that comes after all the keys of sorted entries goes in at their
/// end.
pub proof fn lemma_inserted_at_end(entries: Seq<Entry>, key: Seq<char>, value: Seq<char>)
    requires
        forall|i: int| 0 <= i < entries.len() ==> precedes((#[trigger] entries[i]).0, key),
    ensures
        inserted(entries, key, value) == entries.push((key, value)),
    decreases entries.len(),
{
    if entries.len() == 0 {
        assert(inserted(entries, key, value) =~= entries.push((key, value)));
    } else {
        assert(precedes(entries[0].0, key));
        lemma_precedes_irreflexive(key);
        lemma_precedes_total(entries[0].0, key);
        let rest = entries.skip(1);
        assert forall|i: int| 0 <= i < rest.len() implies precedes(
            (#[trigger] rest[i]).0,
            key,
        ) by {
            assert(rest[i] == entries[i + 1]);
        }
        lemma_inserted_at_end(rest, key, value);
        assert(seq![entries[0]] + rest.push((key, value)) =~= entries.push((key, value)));
    }
}

/// In the line that an entry is written as, the separator stands first
/// behind the key, provided the key does not hold it.
pub proof fn lemma_separator_follows_key(key: Seq<char>, value: Seq<char>)
    requires
        !occurs_in(KEY_VALUE_SEPARATOR@, key),
    ensures
        first_match(key + KEY_VALUE_SEPARATOR@ + value, KEY_VALUE_SEPARATOR@) == Some(
            key.len() as int,
        ),
{
    reveal_strlit(": ");
    let separator = KEY_VALUE_SEPARATOR@;
    let line = key + separator + value;
    let end = key.len() as int;
    assert(line.subrange(end, end + 2) =~= separator);
    assert(is_match_at(line, end, separator));
    assert forall|at: int| 0 <= at < end implies !is_match_at(line, at, separator) by {
        if is_match_at(line, at, separator) {
            let found = line.subrange(at, at + 2);
            assert(found[0] == ':' && found[1] == ' ');
            if at + 1 < end {
                assert(key.subrange(at, at + 2) =~= found);
                assert(is_match_at(key, at, separator));
            } else {
                assert(line[at + 1] == separator[0]);
            }
        }
    }
    lemma_first_match_from(line, separator, 0);
}

/// Reading the lines of written entries gives the entries back, on top of
/// what was found before, provided all of them together are sorted.
proof fn lemma_parsed_entries_of_text(
    found: Seq<Entry>,
    entries: Seq<Entry>,
    line_separator: Seq<char>,
    rest: Seq<char>,
)
    requires
        entries_sorted(found + entries),
        forall|i: int| 0 <= i < entries.len() ==> reads_back(#[trigger] entries[i]),
        is_line_separator(line_separator),
    ensures
        parsed_entries(
            lines_of(metadata_text(entries, line_separator) + line_separator + rest),
            found,
        ) == Some(found + entries),
    decreases entries.len(),
{
    reveal_strlit(": ");
    let text = metadata_text(entries, line_separator) + line_separator + rest;
    if entries.len() == 0 {
        let nothing = Seq::<char>::empty();
        assert(text =~= nothing + line_separator + rest);
        lemma_lines_of_separated_line(nothing, line_separator, rest);
        assert(lines_of(text)[0] == nothing);
        assert(found + entries =~= found);
    } else {
        let key = entries[0].0;
        let value = entries[0].1;
        let others = entries.skip(1);
        let line = key + KEY_VALUE_SEPARATOR@ + value;
        let after = metadata_text(others, line_separator) + line_separator + rest;
        assert(reads_back(entries[0]));
        assert(text =~= line + line_separator + after);
        assert(single_line(line)) by {
            assert forall|i: int| 0 <= i < line.len() implies line[i] != '\n' by {
                if i < key.len() {
                    assert(line[i] == key[i]);
                } else if i < key.len() + 2 {
                    assert(line[i] == KEY_VALUE_SEPARATOR@[i - key.len()]);
                } else {
                    assert(line[i] == value[i - key.len() - 2]);
                }
            }
        }
        assert(line.last() != '\r') by {
            if value.len() > 0 {
                assert(line.last() == value.last());
            } else {
                assert(line.last() == KEY_VALUE_SEPARATOR@[1]);
            }
        }
        lemma_lines_of_separated_line(line, line_separator, after);
        let all_lines = lines_of(text);
        assert(all_lines[0] == line);
        assert(all_lines.skip(1) =~= lines_of(after));
        lemma_separator_follows_key(key, value);
        assert(line.take(key.len() as int) =~= key);
        assert(line.skip(key.len() as int + 2) =~= value);
        assert forall|i: int| 0 <= i < found.len() implies precedes(
            (#[trigger] found[i]).0,
            key,
        ) by {
            assert((found + entries)[i] == found[i]);
            assert((found + entries)[found.len() as int] == entries[0]);
        }
        lemma_inserted_at_end(found, key, value);
        let grown = found.push((key, value));
        assert(grown + others =~= found + entries);
        assert forall|i: int| 0 <= i < others.len() implies reads_back(#[trigger] others[i]) by {
            assert(others[i] == entries[i + 1]);
        }
        lemma_parsed_entries_of_text(grown, others, line_separator, rest);
    }
}

/// What `write_to` writes, `parse_metadata` reads back: for sorted system
/// information whose entries are single lines, with no separator in a key
/// and no carriage return at the end of a value, the text of the report
/// parses to that very system information, whatever the logs hold and
/// whichever of the two line separators the platform has.
pub proof fn lemma_parse_reads_back_what_was_written(
    metadata: Seq<Entry>,
    logs: Seq<Entry>,
    line_separator: Seq<char>,
)
    requires
        entries_sorted(metadata),
        forall|i: int| 0 <= i < metadata.len() ==> reads_back(#[trigger] metadata[i]),
        is_line_separator(line_separator),
    ensures
        parsed_metadata(report_text(metadata, logs, line_separator)) == Some(metadata),
{
    reveal_strlit("System information:");
    let header = METADATA_HEADER@;
    let rest = metadata_text(metadata, line_separator) + line_separator + logs_text(
        logs,
        line_separator,
    );
    let text = report_text(metadata, logs, line_separator);
    assert(text =~= header + line_separator + rest);
    assert(single_line(header));
    lemma_lines_of_separated_line(header, line_separator, rest);
    let all_lines = lines_of(text);
    assert(all_lines[0] == header);
    assert(all_lines.skip(1) =~= lines_of(rest));
    let nothing = Seq::<Entry>::empty();
    assert(nothing + metadata =~= metadata);
    lemma_parsed_entries_of_text(nothing, metadata, line_separator, logs_text(logs, line_separator));
}

/// On a platform whose line separator is the line feed, normalizing the
/// line endings of a text changes nothing; and on any platform a text in
/// which the separator does not occur is left as it is.
pub proof fn lemma_normalized_newlines(text: Seq<char>, line_separator: Seq<char>)
    ensures
        newlines_normalized(text, LINE_FEED@) == text,
        line_separator.len() > 0 && !occurs_in(line_separator, text) ==> newlines_normalized(
            text,
            line_separator,
        ) == text,
{
    reveal_strlit("\n");
    lemma_replaced_by_itself(text, LINE_FEED@);
    if line_separator.len() > 0 && !occurs_in(line_separator, text) {
        lemma_replaced_without_match(text, line_separator, LINE_FEED@);
    }
}

/// Adding logs only adds: the system information and what is redacted stay
/// as they were, the logs that were there stay where they were, and at most
/// one log is attached for each one that is added.
pub proof fn lemma_add_logs_only_adds(report: ReportView, logs: Seq<Entry>)
    ensures
        report.add_logs(logs).metadata == report.metadata,
        report.add_logs(logs).custom_strings == report.custom_strings,
        report.add_logs(logs).home_dir == report.home_dir,
        report.logs.is_prefix_of(report.add_logs(logs).logs),
        report.add_logs(logs).logs.len() <= report.logs.len() + logs.len(),
        forall|path: Seq<char>|
            report.log_paths.contains(path) ==> report.add_logs(logs).log_paths.contains(path),
    decreases logs.len(),
{
    if logs.len() > 0 {
        lemma_add_logs_only_adds(report, logs.drop_last());
    }
}

/// After logs have been added, each of their paths counts as attached.
pub proof fn lemma_add_logs_goes_through_all(report: ReportView, logs: Seq<Entry>, at: int)
    requires
        0 <= at < logs.len(),
    ensures
        report.add_logs(logs).log_paths.contains(logs[at].0),
    decreases logs.len(),
{
    let earlier = logs.drop_last();
    if at < earlier.len() {
        lemma_add_logs_goes_through_all(report, earlier, at);
        assert(earlier[at] == logs[at]);
    }
}

} // verus!
