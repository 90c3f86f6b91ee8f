use hummingbird_daemon::daemon::Daemon;
use hummingbird_daemon::errors::DaemonError;
use hummingbird_daemon::text::contains_substr;

#[test]
fn send_error_marker_maps_to_the_send_kind() {
    let mut d = Daemon::new();
    d.record_stdout("EVENT: NETWORK_SEND_ERROR while tunnelling".to_string());
    assert_eq!(d.has_network_error(), Err(DaemonError::NetworkSendError));
}

#[test]
fn connect_error_marker_maps_to_the_connect_kind() {
    let mut d = Daemon::new();
    d.record_stdout("CONNECT ERROR: handshake timed out".to_string());
    assert_eq!(d.has_network_error(), Err(DaemonError::NetworkConnectError));
}

#[test]
fn send_error_outweighs_connect_error() {
    let mut d = Daemon::new();
    d.record_stdout("CONNECT ERROR then NETWORK_SEND_ERROR".to_string());
    assert_eq!(d.has_network_error(), Err(DaemonError::NetworkSendError));
}

#[test]
fn clean_output_has_no_network_error() {
    let mut d = Daemon::new();
    assert_eq!(d.has_network_error(), Ok(()));
    d.record_stdout("connection established".to_string());
    assert_eq!(d.has_network_error(), Ok(()));
}

#[test]
fn marker_matching_is_case_sensitive() {
    let mut d = Daemon::new();
    d.record_stdout("network_send_error".to_string());
    assert_eq!(d.has_network_error(), Ok(()));
}

#[test]
fn ungraceful_exit_marker_requests_recovery() {
    let mut d = Daemon::new();
    assert!(!d.has_recover_error());
    d.record_stdout("the previous instance did not exit gracefully".to_string());
    assert!(d.has_recover_error());
}

#[test]
fn privilege_marker_in_stderr_reports_not_root() {
    let mut d = Daemon::new();
    assert!(d.is_root_user());
    d.record_stderr("you need to be root to run this".to_string());
    assert!(!d.is_root_user());
    // The marker counts only on standard error, not on standard output.
    let mut e = Daemon::new();
    e.record_stdout("you need to be root to run this".to_string());
    assert!(e.is_root_user());
}

#[test]
fn substring_search_finds_markers_at_every_position() {
    assert!(contains_substr("abc", "abc"));
    assert!(contains_substr("xxabc", "abc"));
    assert!(contains_substr("abcxx", "abc"));
    assert!(contains_substr("xxabcxx", "abc"));
    assert!(!contains_substr("ab", "abc"));
    assert!(!contains_substr("axbxc", "abc"));
    assert!(!contains_substr("", "a"));
    assert!(contains_substr("", ""));
    assert!(contains_substr("abc", ""));
}

#[test]
fn substring_search_handles_repeated_prefixes() {
    assert!(contains_substr("aaab", "aab"));
    assert!(!contains_substr("aaa", "aab"));
    assert!(contains_substr("ababac", "abac"));
}
