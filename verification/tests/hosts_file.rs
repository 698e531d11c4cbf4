//! The hosts-file rewriting: installing and removing the redirect.

use pocket_ark_client::hosts::{
    filter_not_host_line, remove_host_entry, set_host_entry, HostsError,
};

const KEY_LINE: &str = "127.0.0.1 winter15.gosredirector.ea.com";

#[test]
fn filter_keeps_unrelated_lines() {
    assert!(filter_not_host_line(b""));
    assert!(filter_not_host_line(b"   "));
    assert!(filter_not_host_line(b"127.0.0.1 localhost"));
    assert!(filter_not_host_line(b"# a comment"));
    assert!(filter_not_host_line(b"# 127.0.0.1 winter15.gosredirector.ea.com"));
    // The hostname appears only inside the comment.
    assert!(filter_not_host_line(b"1.2.3.4 other.host # winter15.gosredirector.ea.com"));
    // The hostname appears as a substring of another name.
    assert!(filter_not_host_line(b"1.2.3.4 winter15.gosredirector.ea.com.evil.net"));
}

#[test]
fn filter_drops_redirect_lines() {
    assert!(!filter_not_host_line(b"127.0.0.1 winter15.gosredirector.ea.com"));
    assert!(!filter_not_host_line(b"  10.0.0.5   winter15.gosredirector.ea.com  "));
    assert!(!filter_not_host_line(b"1.2.3.4 winter15.gosredirector.ea.com # added by tool"));
    assert!(!filter_not_host_line(b"1.2.3.4\twinter15.gosredirector.ea.com"));
}

#[test]
fn install_appends_redirect_after_cleanup() {
    let contents = "# Hosts file\n127.0.0.1 localhost\n10.1.1.1 winter15.gosredirector.ea.com\n";
    let out = set_host_entry(contents.as_bytes());
    let text = String::from_utf8(out).unwrap();
    assert_eq!(
        text,
        format!("# Hosts file\n127.0.0.1 localhost\n{}", KEY_LINE)
    );
}

#[test]
fn install_is_idempotent() {
    let contents = "127.0.0.1 localhost\n# note\n";
    let once = set_host_entry(contents.as_bytes());
    let twice = set_host_entry(&once);
    assert_eq!(once, twice);
}

#[test]
fn install_preserves_comments_and_spacing_of_kept_lines() {
    let contents = "  127.0.0.1   localhost   # loopback\n\n# winter15.gosredirector.ea.com stays commented\n";
    let out = set_host_entry(contents.as_bytes());
    let text = String::from_utf8(out).unwrap();
    assert_eq!(
        text,
        format!(
            "  127.0.0.1   localhost   # loopback\n\n# winter15.gosredirector.ea.com stays commented\n{}",
            KEY_LINE
        )
    );
}

#[test]
fn remove_drops_every_redirect_line() {
    let contents = format!(
        "127.0.0.1 localhost\n{}\n1.2.3.4 other.net\n  10.0.0.9  winter15.gosredirector.ea.com # old\n",
        KEY_LINE
    );
    let out = remove_host_entry(contents.as_bytes());
    let text = String::from_utf8(out).unwrap();
    assert_eq!(text, "127.0.0.1 localhost\n1.2.3.4 other.net");
}

#[test]
fn remove_of_clean_file_changes_nothing_but_final_newline() {
    let contents = "127.0.0.1 localhost\n::1 localhost\n";
    let out = remove_host_entry(contents.as_bytes());
    let text = String::from_utf8(out).unwrap();
    assert_eq!(text, "127.0.0.1 localhost\n::1 localhost");
}

#[test]
fn crlf_files_are_read_like_lf_files() {
    let contents = "127.0.0.1 localhost\r\n10.0.0.1 winter15.gosredirector.ea.com\r\n";
    let out = remove_host_entry(contents.as_bytes());
    let text = String::from_utf8(out).unwrap();
    assert_eq!(text, "127.0.0.1 localhost");
}

#[test]
fn empty_file_install() {
    let out = set_host_entry(b"");
    let text = String::from_utf8(out).unwrap();
    assert_eq!(text, KEY_LINE);
}

#[test]
fn hosts_error_messages() {
    assert_eq!(HostsError::FileMissing.message(), "Missing hosts file");
    assert_eq!(
        HostsError::PermissionsError.message(),
        "Missing permission to modify hosts file. Ensure this program is running as admin"
    );
    assert_eq!(HostsError::ReadFailure.message(), "Failed to read hosts file");
    assert_eq!(HostsError::WriteFailure.message(), "Failed to write hosts file");
    assert_eq!(
        HostsError::NonUtf8.message(),
        "Hosts file contained non-utf8 characters so could not be parsed."
    );
}
