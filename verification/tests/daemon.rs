use mullvad_core::daemon::{DaemonDirectories, LoggerStart, LOG_FILENAME};

#[test]
fn daemon_keeps_its_files_together() {
    let directories = DaemonDirectories::new(
        "/data/app/rpc-socket".to_owned(),
        "/data/app/files".to_owned(),
        "/data/app/cache".to_owned(),
    );
    assert_eq!(
        DaemonDirectories {
            rpc_socket_path: "/data/app/rpc-socket".to_owned(),
            log_dir: Some("/data/app/files".to_owned()),
            resource_dir: "/data/app/files".to_owned(),
            settings_dir: "/data/app/files".to_owned(),
            cache_dir: "/data/app/cache".to_owned(),
        },
        directories
    );
    assert_eq!("daemon.log", LOG_FILENAME);
}

#[test]
fn first_start_of_logging_counts() {
    let mut start = LoggerStart::new();
    assert!(start.is_pending());
    assert_eq!(Err("no disk".to_owned()), start.record(Err("no disk".to_owned())));
    assert!(!start.is_pending());
    assert_eq!(Err("no disk".to_owned()), start.record(Ok(())));
    assert_eq!(Err("no disk".to_owned()), start.record(Err("other".to_owned())));

    let mut start = LoggerStart::new();
    assert_eq!(Ok(()), start.record(Ok(())));
    assert_eq!(Ok(()), start.record(Err("late".to_owned())));
}
