use imd::error::PanicDiscoveryError;
use imd::target::{login_name, prefix_width, split_target, CLITarget, IMDUser, TargetMachine};

#[test]
fn split_target_with_and_without_hostname() {
    assert_eq!(split_target("10.0.0.1=box"), ("10.0.0.1".to_string(), Some("box".to_string())));
    assert_eq!(split_target("10.0.0.1"), ("10.0.0.1".to_string(), None));
    assert_eq!(split_target("10.0.0.1="), ("10.0.0.1".to_string(), Some(String::new())));
    assert_eq!(split_target("a=b=c"), ("a".to_string(), Some("b=c".to_string())));
}

#[test]
fn cli_target_needs_an_address() {
    assert!(matches!(CLITarget::new(None, Some("box".to_string())), Err(PanicDiscoveryError::InvalidIPAddress)));
    let t = CLITarget::new(Some("10.0.0.1".to_string()), Some("box".to_string())).unwrap();
    assert_eq!(t.ip_address(), "10.0.0.1");
    assert_eq!(t.hostname(), &Some("box".to_string()));
    assert_eq!(t.len(), 8);
    assert!(!t.is_empty());
}

#[test]
fn prefix_pads_the_address() {
    let t = CLITarget::new(Some("10.0.0.1".to_string()), None).unwrap();
    assert_eq!(t.create_prefix(11), "10.0.0.1    -");
    assert_eq!(t.create_prefix(3), "10.0.0.1 -");
}

#[test]
fn labels_line_up_to_the_longest_address() {
    let a = CLITarget::new(Some("10.0.0.1".to_string()), None).unwrap();
    let b = CLITarget::new(Some("192.168.100.200".to_string()), Some("web".to_string())).unwrap();
    let all = vec![a, b];
    assert_eq!(prefix_width(&all), 15);
    assert_eq!(prefix_width(&Vec::new()), 0);
    let machines = TargetMachine::for_all(&all);
    assert_eq!(machines.len(), 2);
    assert_eq!(machines[0].prefix(), "10.0.0.1        -");
    assert_eq!(machines[1].prefix(), "192.168.100.200 -");
    assert_eq!(machines[1].web_target(), "web");
    assert_eq!(machines[0].web_target(), "10.0.0.1");
    assert_eq!(machines[1].ip_as_string(), "192.168.100.200");
}

#[test]
fn operator_identity() {
    let u = IMDUser::new(20, "alice".to_string(), 501);
    assert_eq!((u.gid(), u.name().as_str(), u.uid()), (20, "alice", 501));
    let u = IMDUser::from_lookup("bob".to_string(), Some((1001, 1002)));
    assert_eq!((u.uid(), u.gid()), (1001, 1002));
    let u = IMDUser::from_lookup("ghost".to_string(), None);
    assert_eq!((u.uid(), u.gid(), u.name().as_str()), (0, 0, "ghost"));
}

#[test]
fn login_name_is_the_first_word() {
    assert_eq!(login_name("alice    tty7   2024-01-01 10:00 (:0)\n"), "alice");
    assert_eq!(login_name("bob"), "bob");
    assert_eq!(login_name(""), "");
}
