use mullvad_core::metadata::Metadata;
use mullvad_core::problem_report::{normalize_newlines, ProblemReport};

/// System information as an application would collect it. Every call hands
/// out a new report id.
fn collect_metadata(run: u32) -> Metadata {
    let mut metadata = Metadata::new();
    metadata.insert("id".to_owned(), format!("8f4c1a52-0000-4000-8000-{:012}", run));
    metadata.insert("mullvad-product-version".to_owned(), "2024.1".to_owned());
    metadata.insert("os".to_owned(), "Linux 6.1".to_owned());
    metadata
}

fn home_dir() -> Option<String> {
    dirs::home_dir().map(|home| home.to_string_lossy().into_owned())
}

fn new_report(redact_custom_strings: Vec<String>) -> ProblemReport {
    ProblemReport::new(redact_custom_strings, collect_metadata(1), home_dir())
}

fn redact(report: &ProblemReport, input: &str) -> String {
    report.redact(input).expect("the redaction patterns compile")
}

/// The line separator of the platform that the tests run on.
const LINE_SEPARATOR: &str = "\n";

fn report_text(report: &ProblemReport) -> String {
    let mut text = String::new();
    report.write_to(&mut text, LINE_SEPARATOR);
    text
}

#[test]
fn redacts_ipv4() {
    assert_redacts_ipv4("1.2.3.4");
    assert_redacts_ipv4("10.127.0.1");
    assert_redacts_ipv4("192.168.1.1");
    assert_redacts_ipv4("10.0.16.1");
    assert_redacts_ipv4("173.54.12.32");
    assert_redacts_ipv4("68.4.4.1");
}

fn assert_redacts_ipv4(input: &str) {
    let report = new_report(vec![]);
    let actual = report
        .redact(&format!("pre {} post", input))
        .expect("the redaction patterns compile");
    assert_eq!("pre [REDACTED] post", actual);
}

#[test]
fn does_not_redact_localhost_ipv4() {
    assert_does_not_redact("127.0.0.1");
}

#[test]
fn redacts_ipv6() {
    assert_redacts_ipv6("2001:0db8:85a3:0000:0000:8a2e:0370:7334");
    assert_redacts_ipv6("2001:db8:85a3:0:0:8a2e:370:7334");
    assert_redacts_ipv6("2001:db8:85a3::8a2e:370:7334");
    assert_redacts_ipv6("2001:db8:0:0:0:0:2:1");
    assert_redacts_ipv6("2001:db8::2:1");
    assert_redacts_ipv6("2001:db8:0000:1:1:1:1:1");
    assert_redacts_ipv6("2001:db8:0:1:1:1:1:1");
    assert_redacts_ipv6("2001:db8:0:0:1:0:0:1");
    assert_redacts_ipv6("2001:db8::1:0:0:1");
    assert_redacts_ipv6("abcd:dead:beef::");
    assert_redacts_ipv6("abcd:dead:beef:1234::");
    assert_redacts_ipv6("::dead:beef:1234");
    assert_redacts_ipv6("0::0");
    assert_redacts_ipv6("0:0:0:0::1");
}

#[test]
fn doesnt_redact_not_ipv6() {
    assert_does_not_redact("[talpid_core::firewall]");
}

fn assert_redacts_ipv6(input: &str) {
    let report = new_report(vec![]);
    let actual = report
        .redact(&format!("pre {} post", input))
        .expect("the redaction patterns compile");
    assert_eq!("pre [REDACTED] post", actual);
}

#[test]
fn does_not_redact_time() {
    assert_does_not_redact("09:47:59");
}

fn assert_does_not_redact(input: &str) {
    let report = new_report(vec![]);
    let res = report.redact(input).expect("the redaction patterns compile");
    assert_eq!(input, res);
}

#[test]
fn parse_metadata() {
    let report = new_report(Vec::new());
    let mut report_data = String::new();
    report.write_to(&mut report_data, LINE_SEPARATOR);
    assert!(!report_data.is_empty(), "Unable to write report to vector");

    let report_string =
        std::str::from_utf8(report_data.as_bytes()).expect("Report is not correct UTF-8");

    let parsed_metadata = ProblemReport::parse_metadata(report_string)
        .expect("Unable to parse metadata from report");
    let expected_metadata = collect_metadata(2);

    assert_eq!(parsed_metadata.len(), expected_metadata.len());
    for (key, value) in expected_metadata.entries() {
        let parsed_value = parsed_metadata
            .get(key)
            .expect("Parsed metadata and new one don't match");
        if key == "id" {
            assert_ne!(parsed_value, value, "id not supposed to match");
        } else {
            assert_eq!(
                parsed_value, value,
                "value for key '{}' does not match",
                key
            );
        }
    }
}

#[test]
fn redacts_mac_address() {
    let report = new_report(vec![]);
    assert_eq!("link [REDACTED] up", redact(&report, "link 00:1A:2b:3C:4d:5E up"));
    assert_eq!("link [REDACTED] up", redact(&report, "link 00-1a-2b-3c-4d-5e up"));
}

#[test]
fn redacts_address_at_start_of_text() {
    let report = new_report(vec![]);
    assert_eq!("[REDACTED] is the gateway", redact(&report, "10.64.0.1 is the gateway"));
}

#[test]
fn keeps_the_character_before_an_address() {
    let report = new_report(vec![]);
    assert_eq!("peer=[REDACTED],", redact(&report, "peer=185.213.154.68,"));
    assert_eq!("a1.2.3.4", redact(&report, "a1.2.3.4"));
}

#[test]
fn redacts_account_number() {
    let report = new_report(vec![]);
    assert_eq!(
        "account [REDACTED ACCOUNT NUMBER] logged in",
        redact(&report, "account 1234567890123456 logged in")
    );
    assert_eq!("only 123456789012345", redact(&report, "only 123456789012345"));
}

#[test]
fn redacts_home_dir() {
    let report = ProblemReport::new(vec![], Metadata::new(), Some("/home/alice".to_owned()));
    assert_eq!(
        "opened ~/.config/app/settings.json and ~",
        redact(&report, "opened /home/alice/.config/app/settings.json and /home/alice")
    );
}

#[test]
fn keeps_text_without_a_home_dir() {
    let report = ProblemReport::new(vec![], Metadata::new(), None);
    assert_eq!("opened /home/alice/file", redact(&report, "opened /home/alice/file"));
}

#[test]
fn redacts_custom_strings_in_order() {
    let report = ProblemReport::new(
        vec!["secret".to_owned(), "".to_owned(), "[REDACTED]word".to_owned()],
        Metadata::new(),
        None,
    );
    assert_eq!("a [REDACTED] b", redact(&report, "a secret b"));
    // The second string only occurs once the first has been replaced.
    assert_eq!("[REDACTED]", redact(&report, "secretword"));
    // The empty string is not among the strings to remove.
    assert_eq!("abc", redact(&report, "abc"));
}

#[test]
fn writes_metadata_and_logs() {
    let mut metadata = Metadata::new();
    metadata.insert("os".to_owned(), "Linux".to_owned());
    metadata.insert("id".to_owned(), "42".to_owned());
    let mut report = ProblemReport::new(vec!["hunter2".to_owned()], metadata, None);
    assert_eq!(
        Some(true),
        report.add_log("/var/log/daemon.log", "password hunter2\nserver 10.0.0.1")
    );
    assert!(report.add_error("Unable to get log path", "permission denied for 1234567890123456"));
    assert_eq!(
        "System information:\n\
         id: 42\n\
         os: Linux\n\
         \n\
         ====================\n\
         Log: /var/log/daemon.log\n\
         ====================\n\
         password [REDACTED]\nserver [REDACTED]\n\
         ====================\n\
         Log: Unable to get log path\n\
         ====================\n\
         permission denied for [REDACTED ACCOUNT NUMBER]\n",
        report_text(&report)
    );
}

#[test]
fn write_to_appends_to_the_output() {
    let report = ProblemReport::new(vec![], Metadata::new(), None);
    let mut output = "prefix ".to_owned();
    report.write_to(&mut output, LINE_SEPARATOR);
    assert_eq!("prefix System information:\n\n", output);
}

#[test]
fn adds_each_log_file_once() {
    let mut report = new_report(vec![]);
    assert!(!report.has_log("/tmp/a.log"));
    assert_eq!(Some(true), report.add_log("/tmp/a.log", "first"));
    assert!(report.has_log("/tmp/a.log"));
    assert_eq!(Some(false), report.add_log("/tmp/a.log", "second"));
    assert_eq!(Some(true), report.add_log("/tmp/b.log", "third"));
    let text = report_text(&report);
    assert!(text.contains("Log: /tmp/a.log\n====================\nfirst\n"));
    assert!(!text.contains("second"));
    assert!(text.contains("Log: /tmp/b.log\n====================\nthird\n"));
}

#[test]
fn add_logs_adds_in_order_and_skips_repeats() {
    let mut report = ProblemReport::new(vec![], Metadata::new(), None);
    assert!(report.add_logs(&vec![
        ("b.log".to_owned(), "B".to_owned()),
        ("a.log".to_owned(), "A".to_owned()),
        ("b.log".to_owned(), "again".to_owned()),
    ]));
    assert_eq!(
        "System information:\n\n\
         ====================\nLog: b.log\n====================\nB\n\
         ====================\nLog: a.log\n====================\nA\n",
        report_text(&report)
    );
}

#[test]
fn log_paths_are_redacted() {
    let mut report = ProblemReport::new(vec![], Metadata::new(), Some("/home/bob".to_owned()));
    assert_eq!(Some(true), report.add_log("/home/bob/logs/daemon.log", ""));
    assert!(report_text(&report).contains("Log: ~/logs/daemon.log\n"));
    assert!(report.has_log("/home/bob/logs/daemon.log"));
}

#[test]
fn parse_metadata_needs_the_header() {
    assert!(ProblemReport::parse_metadata("").is_none());
    assert!(ProblemReport::parse_metadata("id: 1\n").is_none());
    assert!(ProblemReport::parse_metadata("System information\nid: 1\n").is_none());
}

#[test]
fn parse_metadata_rejects_a_line_without_separator() {
    assert!(ProblemReport::parse_metadata("System information:\nid: 1\nbroken\n\n").is_none());
    assert!(ProblemReport::parse_metadata("System information:\nid:1\n").is_none());
}

#[test]
fn parse_metadata_stops_at_the_first_empty_line() {
    let parsed = ProblemReport::parse_metadata("System information:\nid: 1\n\nno separator here\n")
        .expect("the text is a report");
    assert_eq!(1, parsed.len());
    assert_eq!(Some(&"1".to_owned()), parsed.get("id"));
}

#[test]
fn parse_metadata_splits_at_the_first_separator() {
    let parsed = ProblemReport::parse_metadata("System information:\nos: Linux: 6.1: x\n")
        .expect("the text is a report");
    assert_eq!(Some(&"Linux: 6.1: x".to_owned()), parsed.get("os"));
    assert_eq!(None, parsed.get("os: Linux"));
}

#[test]
fn parse_metadata_reads_windows_line_endings() {
    let parsed = ProblemReport::parse_metadata("System information:\r\nid: 7\r\nos: Windows\r\n\r\n")
        .expect("the text is a report");
    assert_eq!(2, parsed.len());
    assert_eq!(Some(&"7".to_owned()), parsed.get("id"));
    assert_eq!(Some(&"Windows".to_owned()), parsed.get("os"));
}

#[test]
fn parse_metadata_keeps_the_last_value_of_a_key() {
    let parsed = ProblemReport::parse_metadata("System information:\nid: 1\nid: 2\n")
        .expect("the text is a report");
    assert_eq!(1, parsed.len());
    assert_eq!(Some(&"2".to_owned()), parsed.get("id"));
}

#[test]
fn parse_metadata_reads_back_what_was_written() {
    let mut metadata = Metadata::new();
    metadata.insert("os".to_owned(), "Linux".to_owned());
    metadata.insert("id".to_owned(), "42".to_owned());
    metadata.insert("mullvad-product-version".to_owned(), "2024.1".to_owned());
    let mut report = ProblemReport::new(vec![], metadata, None);
    assert_eq!(Some(true), report.add_log("a.log", "key: value\n\nmore"));
    let parsed = ProblemReport::parse_metadata(&report_text(&report)).expect("the text is a report");
    let expected = vec![
        ("id".to_owned(), "42".to_owned()),
        ("mullvad-product-version".to_owned(), "2024.1".to_owned()),
        ("os".to_owned(), "Linux".to_owned()),
    ];
    assert_eq!(&expected, parsed.entries());
}

#[test]
fn normalize_newlines_replaces_the_platform_separator() {
    assert_eq!("a\nb\n", normalize_newlines("a\r\nb\r\n", "\r\n"));
    assert_eq!("a\r\nb\n", normalize_newlines("a\r\nb\n", "\n"));
}

#[test]
fn attached_logs_are_taken_as_they_are() {
    let mut report = ProblemReport::new(vec!["secret".to_owned()], Metadata::new(), None);
    assert!(report.attach_log("/tmp/a.log", "label".to_owned(), "secret 10.0.0.1".to_owned()));
    assert!(!report.attach_log("/tmp/a.log", "other".to_owned(), "again".to_owned()));
    report.attach_error("Failed", "secret reason".to_owned());
    assert_eq!(
        "System information:\n\n\
         ====================\nLog: label\n====================\nsecret 10.0.0.1\n\
         ====================\nLog: Failed\n====================\nsecret reason\n",
        report_text(&report)
    );
}

#[test]
fn report_is_written_with_the_separator_of_the_platform() {
    let mut metadata = Metadata::new();
    metadata.insert("os".to_owned(), "Windows".to_owned());
    metadata.insert("id".to_owned(), "42".to_owned());
    let mut report = ProblemReport::new(vec![], metadata, None);
    assert_eq!(Some(true), report.add_log("C:/logs/daemon.log", "first\r\nsecond"));
    let mut text = String::new();
    report.write_to(&mut text, "\r\n");
    assert_eq!(
        "System information:\r\n\
         id: 42\r\n\
         os: Windows\r\n\
         \r\n\
         ====================\r\n\
         Log: C:/logs/daemon.log\r\n\
         ====================\r\n\
         first\r\nsecond\r\n",
        text
    );
    let parsed = ProblemReport::parse_metadata(&text).expect("the text is a report");
    assert_eq!(
        &vec![("id".to_owned(), "42".to_owned()), ("os".to_owned(), "Windows".to_owned())],
        parsed.entries()
    );
    let normalized = normalize_newlines(&text, "\r\n");
    assert_eq!(report_text(&report).replace("first\r\nsecond", "first\nsecond"), normalized);
}

#[test]
fn every_log_is_gone_through() {
    let mut report = ProblemReport::new(vec![], Metadata::new(), None);
    let logs: Vec<(String, String)> =
        (0..20).map(|n| (format!("/tmp/{}.log", n), format!("content {}", n))).collect();
    assert!(report.add_logs(&logs));
    let text = report_text(&report);
    let mut last = 0;
    for n in 0..20 {
        assert!(report.has_log(&format!("/tmp/{}.log", n)));
        let at = text
            .find(&format!("Log: /tmp/{}.log\n====================\ncontent {}\n", n, n))
            .expect("the log is in the report");
        assert!(last <= at);
        last = at;
    }
}

