use imd::hosts::{hosts_entry, is_registered, HOSTS_FILE};

#[test]
fn hosts_entry_already_present_is_found() {
    let contents = "127.0.0.1 localhost\n10.0.0.1 foo\n";
    assert!(is_registered(contents, "10.0.0.1", "foo"));
}

#[test]
fn hosts_entry_absent() {
    let contents = "127.0.0.1 localhost\n10.0.0.2 foo\n10.0.0.1 bar\n";
    assert!(!is_registered(contents, "10.0.0.1", "foo"));
    assert!(!is_registered("", "10.0.0.1", "foo"));
}

#[test]
fn hosts_entry_line_format() {
    assert_eq!(hosts_entry("192.0.2.5", "db1"), "192.0.2.5 db1\n");
    assert_eq!(HOSTS_FILE, "/etc/hosts");
}

#[test]
fn hosts_registration_twice_appends_once() {
    for before in ["", "127.0.0.1 localhost\n", "127.0.0.1 localhost"] {
        assert!(!is_registered(before, "10.0.0.1", "foo"));
        let after = format!("{}{}", before, hosts_entry("10.0.0.1", "foo"));
        assert!(is_registered(&after, "10.0.0.1", "foo"));
    }
}

#[test]
fn hosts_match_is_by_substring() {
    // Not anchored: both texts anywhere on one line is enough.
    assert!(is_registered("110.0.0.12 foobar\n", "10.0.0.1", "foo"));
    // But both must be on the same line.
    assert!(!is_registered("10.0.0.1 x\ny foo\n", "10.0.0.1", "foo"));
}

