use mullvad_core::collect::{collect_report, is_tunnel_log, ListedLog, LogFile};
use mullvad_core::metadata::Metadata;

fn file(path: &str, content: &str) -> ListedLog {
    ListedLog::Found(LogFile {
        path: path.to_owned(),
        file_name: path.rsplit('/').next().map(|name| name.to_owned()),
        content: content.to_owned(),
    })
}

fn log(label: &str, content: &str) -> String {
    format!("====================\nLog: {}\n====================\n{}\n", label, content)
}

fn collect(
    daemon_logs: Result<Vec<ListedLog>, String>,
    frontend_logs: Option<Result<Vec<ListedLog>, String>>,
    extra_logs: Vec<(String, String)>,
) -> String {
    let mut metadata = Metadata::new();
    metadata.insert("id".to_owned(), "1".to_owned());
    collect_report(&daemon_logs, &frontend_logs, &None, &extra_logs, vec![], metadata, None, "\n")
        .expect("the redaction patterns compile")
}

#[test]
fn tunnel_logs_are_named_after_openvpn() {
    assert!(is_tunnel_log(Some("openvpn.log")));
    assert!(is_tunnel_log(Some("old.openvpn.1.log")));
    assert!(!is_tunnel_log(Some("daemon.log")));
    assert!(!is_tunnel_log(Some("OpenVPN.log")));
    assert!(!is_tunnel_log(Some("")));
    assert!(!is_tunnel_log(None));
}

#[test]
fn tunnel_logs_and_errors_come_before_other_daemon_logs() {
    let text = collect(
        Ok(vec![
            file("/log/daemon.log", "daemon"),
            file("/log/openvpn.log", "tunnel"),
            ListedLog::Failed("no access".to_owned()),
            file("/log/daemon.old.log", "older"),
            file("/log/openvpn.old.log", "older tunnel"),
        ]),
        None,
        vec![],
    );
    let expected = format!(
        "System information:\nid: 1\n\n{}{}{}{}{}",
        log("/log/openvpn.log", "tunnel"),
        log("Unable to get log path", "no access"),
        log("/log/openvpn.old.log", "older tunnel"),
        log("/log/daemon.log", "daemon"),
        log("/log/daemon.old.log", "older"),
    );
    assert_eq!(expected, text);
}

#[test]
fn frontend_logs_and_extra_logs_follow_in_order() {
    let text = collect(
        Ok(vec![file("/log/daemon.log", "daemon")]),
        Some(Ok(vec![
            file("/home/u/frontend.log", "frontend"),
            ListedLog::Failed("gone".to_owned()),
            file("/home/u/openvpn.log", "not a daemon log"),
        ])),
        vec![
            ("/tmp/extra.log".to_owned(), "extra".to_owned()),
            ("/log/daemon.log".to_owned(), "a second time".to_owned()),
        ],
    );
    let expected = format!(
        "System information:\nid: 1\n\n{}{}{}{}{}",
        log("/log/daemon.log", "daemon"),
        log("/home/u/frontend.log", "frontend"),
        log("Unable to get log path", "gone"),
        log("/home/u/openvpn.log", "not a daemon log"),
        log("/tmp/extra.log", "extra"),
    );
    assert_eq!(expected, text);
}

#[test]
fn listing_errors_stand_in_place_of_the_logs() {
    let text = collect(
        Err("daemon directory is missing".to_owned()),
        Some(Err("frontend directory of 10.0.0.1 is missing".to_owned())),
        vec![],
    );
    let expected = format!(
        "System information:\nid: 1\n\n{}{}",
        log("Failed to list logs in daemon log directory", "daemon directory is missing"),
        log(
            "Failed to list logs in frontend log directory",
            "frontend directory of [REDACTED] is missing"
        ),
    );
    assert_eq!(expected, text);
}

#[test]
fn collected_logs_are_redacted() {
    let mut metadata = Metadata::new();
    metadata.insert("os".to_owned(), "Linux".to_owned());
    let text = collect_report(
        &Ok(vec![file("/home/carol/log/daemon.log", "user carol at 192.168.0.17")]),
        &None,
        &None,
        &vec![],
        vec!["carol".to_owned()],
        metadata,
        Some("/home/carol".to_owned()),
        "\n",
    )
    .expect("the redaction patterns compile");
    assert_eq!(
        format!(
            "System information:\nos: Linux\n\n{}",
            log("~/log/daemon.log", "user [REDACTED] at [REDACTED]")
        ),
        text
    );
}

#[test]
fn report_without_logs_holds_the_system_information() {
    assert_eq!("System information:\nid: 1\n\n", collect(Ok(vec![]), Some(Ok(vec![])), vec![]));
    assert_eq!("System information:\nid: 1\n\n", collect(Ok(vec![]), None, vec![]));
}

fn log_file(path: &str, content: &str) -> LogFile {
    LogFile {
        path: path.to_owned(),
        file_name: path.rsplit('/').next().map(|name| name.to_owned()),
        content: content.to_owned(),
    }
}

#[test]
fn system_log_follows_the_frontend_logs() {
    let text = collect_report(
        &Ok(vec![file("/log/daemon.log", "daemon")]),
        &Some(Ok(vec![file("/home/u/frontend.log", "frontend")])),
        &Some(Ok(log_file("/data/logcat.txt", "system at 10.0.0.1"))),
        &vec![("/tmp/extra.log".to_owned(), "extra".to_owned())],
        vec![],
        Metadata::new(),
        None,
        "\n",
    )
    .expect("the redaction patterns compile");
    let expected = format!(
        "System information:\n\n{}{}{}{}",
        log("/log/daemon.log", "daemon"),
        log("/home/u/frontend.log", "frontend"),
        log("/data/logcat.txt", "system at [REDACTED]"),
        log("/tmp/extra.log", "extra"),
    );
    assert_eq!(expected, text);
}

#[test]
fn failure_to_collect_the_system_log_goes_into_the_report() {
    let text = collect_report(
        &Ok(vec![]),
        &None,
        &Some(Err("logcat is not there".to_owned())),
        &vec![],
        vec![],
        Metadata::new(),
        None,
        "\n",
    )
    .expect("the redaction patterns compile");
    assert_eq!(
        format!("System information:\n\n{}", log("Failed to collect logcat", "logcat is not there")),
        text
    );
}

#[test]
fn collected_report_has_the_separator_of_the_platform() {
    let mut metadata = Metadata::new();
    metadata.insert("id".to_owned(), "1".to_owned());
    let text = collect_report(
        &Err("gone".to_owned()),
        &None,
        &None,
        &vec![],
        vec![],
        metadata,
        None,
        "\r\n",
    )
    .expect("the redaction patterns compile");
    assert_eq!(
        "System information:\r\nid: 1\r\n\r\n\
         ====================\r\nLog: Failed to list logs in daemon log directory\r\n\
         ====================\r\ngone\r\n",
        text
    );
}

#[test]
fn errors_of_listing_and_reading_never_fail_the_collection() {
    let text = collect_report(
        &Err("no daemon directory".to_owned()),
        &Some(Ok(vec![
            ListedLog::Failed("unreadable entry".to_owned()),
            file("/home/u/frontend.log", "Error reading the contents of log file"),
        ])),
        &Some(Err("no logcat".to_owned())),
        &vec![("/tmp/missing.log".to_owned(), "Error: No such file".to_owned())],
        vec![],
        Metadata::new(),
        None,
        "\n",
    );
    let expected = format!(
        "System information:\n\n{}{}{}{}{}",
        log("Failed to list logs in daemon log directory", "no daemon directory"),
        log("Unable to get log path", "unreadable entry"),
        log("/home/u/frontend.log", "Error reading the contents of log file"),
        log("Failed to collect logcat", "no logcat"),
        log("/tmp/missing.log", "Error: No such file"),
    );
    assert_eq!(Some(expected), text);
}

