use mullvad_core::log_files::{frontend_log_dir, is_log_file, BaseDir, Error, LogError, Platform};

#[test]
fn frontend_logs_have_their_place_on_each_platform() {
    assert_eq!(
        Some((BaseDir::Home, ".config/Mullvad VPN/logs")),
        frontend_log_dir(Platform::Linux)
    );
    assert_eq!(
        Some((BaseDir::Home, "Library/Logs/Mullvad VPN")),
        frontend_log_dir(Platform::MacOs)
    );
    assert_eq!(
        Some((BaseDir::LocalAppData, "Mullvad VPN/logs")),
        frontend_log_dir(Platform::Windows)
    );
    assert_eq!(None, frontend_log_dir(Platform::Android));
}

#[test]
fn missing_base_directories_are_named() {
    assert_eq!(LogError::NoHomeDir, BaseDir::Home.missing());
    assert_eq!(LogError::NoLocalAppDataDir, BaseDir::LocalAppData.missing());
}

#[test]
fn log_files_are_known_by_their_extension() {
    let names = [
        "daemon.log",
        "daemon.old.log",
        ".log",
        "..log",
        "log",
        "daemon.log.old",
        "daemon.LOG",
        "daemon.logs",
        "daemonlog",
        "a.log",
        "",
        ".",
        "..",
        "daemon.",
        "h\u{e9}.log",
    ];
    for name in names {
        let extension = std::path::Path::new(name).extension();
        let expected = extension.and_then(|extension| extension.to_str()) == Some("log");
        assert_eq!(expected, is_log_file(name), "{:?}", name);
    }
    assert!(is_log_file("daemon.log"));
    assert!(!is_log_file(".log"));
}

#[test]
fn errors_of_collecting_describe_themselves() {
    assert_eq!("Unable to get log directory", LogError::GetLogDir.message());
    assert_eq!(
        "Failed to list the files in the log directory: /var/log/app",
        LogError::ListLogDir { path: "/var/log/app".to_owned() }.message()
    );
    assert_eq!(
        "Error reading the contents of log file: /var/log/app/daemon.log",
        LogError::ReadLogError { path: "/var/log/app/daemon.log".to_owned() }.message()
    );
    assert_eq!("No home directory for current user", LogError::NoHomeDir.message());
    assert_eq!(
        "Missing %LOCALAPPDATA% environment variable",
        LogError::NoLocalAppDataDir.message()
    );
}

#[test]
fn errors_of_the_tool_describe_themselves() {
    assert_eq!(
        "Failed to write the problem report to /tmp/report.txt",
        Error::WriteReportError { path: "/tmp/report.txt".to_owned() }.message()
    );
    assert_eq!(
        "Failed to read the problem report at /tmp/report.txt",
        Error::ReadProblemReportError { path: "/tmp/report.txt".to_owned() }.message()
    );
    assert_eq!("Unable to create JSON-RPC 2.0 client", Error::CreateRpcClientError.message());
    assert_eq!("Error during RPC call", Error::SendRpcError.message());
}
