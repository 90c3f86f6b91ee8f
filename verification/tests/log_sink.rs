use hummingbird_daemon::errors::DaemonError;
use hummingbird_daemon::logger::{should_emit, stream_for, verbosity_threshold, LogLevel, LogStream};

#[test]
fn verbosity_zero_emits_errors_only() {
    assert!(should_emit(&LogLevel::ERROR, 0));
    assert!(!should_emit(&LogLevel::WARN, 0));
    assert!(!should_emit(&LogLevel::INFO, 0));
    assert!(!should_emit(&LogLevel::DEBUG, 0));
}

#[test]
fn each_verbosity_step_unlocks_the_next_level() {
    assert!(should_emit(&LogLevel::WARN, 1));
    assert!(!should_emit(&LogLevel::INFO, 1));
    assert!(should_emit(&LogLevel::INFO, 2));
    assert!(!should_emit(&LogLevel::DEBUG, 2));
    assert!(should_emit(&LogLevel::DEBUG, 3));
    assert!(should_emit(&LogLevel::ERROR, 3));
}

#[test]
fn thresholds_are_ordered_by_severity() {
    assert_eq!(verbosity_threshold(&LogLevel::ERROR), 0);
    assert_eq!(verbosity_threshold(&LogLevel::WARN), 1);
    assert_eq!(verbosity_threshold(&LogLevel::INFO), 2);
    assert_eq!(verbosity_threshold(&LogLevel::DEBUG), 3);
}

#[test]
fn errors_and_warnings_go_to_the_error_stream() {
    assert_eq!(stream_for(&LogLevel::ERROR), LogStream::StandardError);
    assert_eq!(stream_for(&LogLevel::WARN), LogStream::StandardError);
    assert_eq!(stream_for(&LogLevel::INFO), LogStream::StandardOut);
    assert_eq!(stream_for(&LogLevel::DEBUG), LogStream::StandardOut);
}

#[test]
fn every_error_kind_has_its_own_message() {
    assert_eq!(DaemonError::NoStatus.message(), "cannot query child status");
    assert_eq!(DaemonError::ChildFound.message(), "a child is still supervised");
    assert_eq!(DaemonError::CannotSignal.message(), "cannot deliver termination signal");
    assert_eq!(DaemonError::CannotRecoverNetwork.message(), "cannot run network recovery");
    assert_eq!(DaemonError::NetworkUnreachable.message(), "network unreachable");
    assert_eq!(DaemonError::NetworkSendError.message(), "network send error");
    assert_eq!(DaemonError::NetworkConnectError.message(), "network connect error");
}
