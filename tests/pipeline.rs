use imd::error::RecoverableDiscoveryError;
use imd::pipeline::{
    Action, DirOutcome, Event, Failure, Outcome, ProgressEvent, ScanOutcome, Severity, Stage, Step,
    TargetPipeline,
};
use imd::target::{CLITarget, IMDUser, TargetMachine};

fn pipeline(ip: &str, hostname: Option<&str>) -> TargetPipeline {
    let cli = CLITarget::new(Some(ip.to_string()), hostname.map(|h| h.to_string())).unwrap();
    let machine = TargetMachine::new(cli, ip.len());
    TargetPipeline::new(machine, IMDUser::new(1000, "op".to_string(), 1000), "words.txt".to_string())
}

/// Drives a target up to the point where its three base scans are running.
fn scanning(ip: &str) -> TargetPipeline {
    let mut p = pipeline(ip, None);
    p.handle(Event::Begin);
    p.handle(Event::Pinged(Some("4 packets transmitted, 4 received, 0% packet loss".to_string())));
    let r = p.handle(Event::DirectoryCreated(DirOutcome::Created));
    assert_eq!(r.actions, vec![Action::ChangeOwner]);
    let r = p.handle(Event::OwnerChanged(true));
    assert_eq!(r.actions, vec![Action::RunScan(0), Action::RunScan(1), Action::RunScan(2)]);
    p
}

#[test]
fn end_to_end_reachable_target_with_hostname() {
    let mut p = pipeline("192.0.2.5", Some("db1"));
    let r = p.handle(Event::Begin);
    assert_eq!(r.actions, vec![Action::CheckConnectivity]);
    let (prog, args) = p.connectivity_command();
    assert_eq!(prog, "ping");
    assert_eq!(args, vec!["-c".to_string(), "4".to_string(), "192.0.2.5".to_string()]);

    let r = p.handle(Event::Pinged(Some("4 packets transmitted, 4 received, 0% packet loss".to_string())));
    assert_eq!(r.actions, vec![Action::ReadHosts]);
    assert_eq!(r.events[0].severity, Severity::Success);

    let r = p.handle(Event::HostsRead(Some("127.0.0.1 localhost\n".to_string())));
    assert_eq!(r.actions, vec![Action::AppendHosts]);
    assert_eq!(p.hosts_entry(), Some("192.0.2.5 db1\n".to_string()));

    let r = p.handle(Event::HostsAppended(true));
    assert_eq!(r.actions, vec![Action::CreateDirectory]);
    assert_eq!(p.results_dir(), "192.0.2.5");

    let r = p.handle(Event::DirectoryCreated(DirOutcome::Created));
    assert_eq!(r.actions, vec![Action::ChangeOwner]);
    let r = p.handle(Event::OwnerChanged(true));
    assert_eq!(r.actions, vec![Action::RunScan(0), Action::RunScan(1), Action::RunScan(2)]);
    assert_eq!(p.scan_output_file(2), Some("192.0.2.5/common_tcp_ports".to_string()));

    let r = p.handle(Event::ScanFinished(0, ScanOutcome::Saved("all ports".to_string())));
    assert!(r.actions.is_empty());
    let r = p.handle(Event::ScanFinished(1, ScanOutcome::Saved("Export list".to_string())));
    assert!(r.actions.is_empty());
    let r = p.handle(Event::ScanFinished(
        2,
        ScanOutcome::Saved("PORT STATE SERVICE\n8080/tcp open http Jetty\n".to_string()),
    ));
    assert_eq!(r.actions, vec![Action::RunScan(3), Action::RunScan(4)]);
    assert_eq!(p.scan_output_file(3), Some("192.0.2.5/web_vulns_port_8080".to_string()));
    assert_eq!(p.scan_output_file(4), Some("192.0.2.5/web_dirs_and_files_port_8080".to_string()));
    let (prog, args) = p.scan_command(3).unwrap();
    assert_eq!(prog, "nikto");
    assert_eq!(args[1], "http://db1:8080");
    let (prog, args) = p.scan_command(4).unwrap();
    assert_eq!(prog, "feroxbuster");
    assert_eq!(args[6], "words.txt");
    assert_eq!(args[8], "http://db1:8080");

    p.handle(Event::ScanFinished(3, ScanOutcome::Saved("nikto".to_string())));
    assert_eq!(p.stage(), Stage::Scanning);
    let r = p.handle(Event::ScanFinished(4, ScanOutcome::Saved("ferox".to_string())));
    assert_eq!(p.stage(), Stage::Completed);
    let last = *r.events.last().unwrap();
    assert_eq!(last, ProgressEvent { step: Step::Discovery, outcome: Outcome::Done, severity: Severity::Success });
    assert_eq!(p.line(&last), "192.0.2.5 - Discovery completed ✔️ Done");
}

#[test]
fn end_to_end_unreachable_target() {
    let mut p = pipeline("198.51.100.9", None);
    p.handle(Event::Begin);
    let r = p.handle(Event::Pinged(Some(
        "4 packets transmitted, 0 received, 100% packet loss, time 3062ms".to_string(),
    )));
    assert!(r.actions.is_empty());
    assert_eq!(
        r.events,
        vec![ProgressEvent {
            step: Step::Connectivity,
            outcome: Outcome::Recoverable(RecoverableDiscoveryError::Connection),
            severity: Severity::Error,
        }]
    );
    assert_eq!(p.stage(), Stage::Aborted);
    assert!(p.is_over());
    assert_eq!(
        p.message(&r.events[0]),
        "Verifying connectivity ✕ Could not ping host, it might be down"
    );
}

#[test]
fn aborted_target_ignores_later_events() {
    let mut p = pipeline("198.51.100.9", None);
    p.handle(Event::Begin);
    p.handle(Event::Pinged(None));
    assert_eq!(p.stage(), Stage::Aborted);
    for e in [
        Event::DirectoryCreated(DirOutcome::Created),
        Event::OwnerChanged(true),
        Event::ScanFinished(0, ScanOutcome::Saved("x".to_string())),
        Event::Begin,
    ] {
        let r = p.handle(e);
        assert!(r.actions.is_empty());
        assert!(r.events.is_empty());
    }
}

#[test]
fn macos_style_packet_loss_is_a_failure() {
    let mut p = pipeline("10.1.1.1", None);
    p.handle(Event::Begin);
    p.handle(Event::Pinged(Some("4 packets transmitted, 0 packets received, 100.0% packet loss".to_string())));
    assert_eq!(p.stage(), Stage::Aborted);
}

#[test]
fn existing_directory_is_not_fatal_and_keeps_its_owner() {
    let mut p = pipeline("10.0.0.7", None);
    p.handle(Event::Begin);
    p.handle(Event::Pinged(Some("0% packet loss".to_string())));
    let r = p.handle(Event::DirectoryCreated(DirOutcome::AlreadyExists));
    assert_eq!(r.actions, vec![Action::RunScan(0), Action::RunScan(1), Action::RunScan(2)]);
    assert!(!r.actions.contains(&Action::ChangeOwner));
    assert_eq!(r.events[0].severity, Severity::Info);
    assert_eq!(r.events[0].outcome, Outcome::Recoverable(RecoverableDiscoveryError::DirectoryExists));
    assert_eq!(p.stage(), Stage::Scanning);
}

#[test]
fn directory_setup_twice_sets_owner_once() {
    let first = scanning("10.0.0.7");
    assert_eq!(first.stage(), Stage::Scanning);
    let mut second = pipeline("10.0.0.7", None);
    second.handle(Event::Begin);
    second.handle(Event::Pinged(Some("0% packet loss".to_string())));
    let r = second.handle(Event::DirectoryCreated(DirOutcome::AlreadyExists));
    assert!(!r.actions.contains(&Action::ChangeOwner));
    assert!(r.events.iter().all(|e| e.severity != Severity::Error));
}

#[test]
fn directory_failures_are_fatal() {
    let mut p = pipeline("10.0.0.8", None);
    p.handle(Event::Begin);
    p.handle(Event::Pinged(Some("ok".to_string())));
    let r = p.handle(Event::DirectoryCreated(DirOutcome::Failed));
    assert!(r.actions.is_empty());
    assert_eq!(r.events[0].outcome, Outcome::Failed(Failure::CreateDirectory));
    assert_eq!(p.stage(), Stage::Aborted);

    let mut q = pipeline("10.0.0.8", None);
    q.handle(Event::Begin);
    q.handle(Event::Pinged(Some("ok".to_string())));
    q.handle(Event::DirectoryCreated(DirOutcome::Created));
    let r = q.handle(Event::OwnerChanged(false));
    assert!(r.actions.is_empty());
    assert_eq!(r.events[0].outcome, Outcome::Failed(Failure::ChangeOwner));
    assert_eq!(q.stage(), Stage::Aborted);
}

#[test]
fn hosts_entry_present_is_not_appended_again() {
    let mut p = pipeline("10.0.0.1", Some("foo"));
    p.handle(Event::Begin);
    p.handle(Event::Pinged(Some("0% packet loss".to_string())));
    let r = p.handle(Event::HostsRead(Some("127.0.0.1 localhost\n10.0.0.1 foo\n".to_string())));
    assert_eq!(r.actions, vec![Action::CreateDirectory]);
    assert_eq!(r.events[0].severity, Severity::Info);
    assert_eq!(r.events[0].outcome, Outcome::Recoverable(RecoverableDiscoveryError::AlreadyInHost));
}

#[test]
fn hosts_failures_are_not_fatal() {
    let mut p = pipeline("10.0.0.1", Some("foo"));
    p.handle(Event::Begin);
    p.handle(Event::Pinged(Some("0% packet loss".to_string())));
    let r = p.handle(Event::HostsRead(None));
    assert_eq!(r.actions, vec![Action::CreateDirectory]);
    assert_eq!(r.events[0].severity, Severity::Warning);

    let mut q = pipeline("10.0.0.1", Some("foo"));
    q.handle(Event::Begin);
    q.handle(Event::Pinged(Some("0% packet loss".to_string())));
    q.handle(Event::HostsRead(Some(String::new())));
    let r = q.handle(Event::HostsAppended(false));
    assert_eq!(r.actions, vec![Action::CreateDirectory]);
    assert_eq!(r.events[0].outcome, Outcome::Failed(Failure::HostsWrite));
}

#[test]
fn no_hostname_skips_hosts_registration() {
    let mut p = pipeline("10.0.0.3", None);
    p.handle(Event::Begin);
    let r = p.handle(Event::Pinged(Some("0% packet loss".to_string())));
    assert_eq!(r.actions, vec![Action::CreateDirectory]);
    assert_eq!(p.hosts_entry(), None);
}

#[test]
fn failed_full_port_scan_leaves_other_scans_alone() {
    let mut p = scanning("10.0.0.9");
    let r = p.handle(Event::ScanFinished(0, ScanOutcome::CommandFailed));
    assert!(r.actions.is_empty());
    assert_eq!(r.events[0].outcome, Outcome::Failed(Failure::Command));
    assert_eq!(r.events[0].severity, Severity::Warning);
    assert_eq!(p.stage(), Stage::Scanning);
    let r = p.handle(Event::ScanFinished(1, ScanOutcome::Saved("exports".to_string())));
    assert_eq!(r.events[0].severity, Severity::Success);
    let r = p.handle(Event::ScanFinished(2, ScanOutcome::Saved("443/tcp open ssl/http nginx".to_string())));
    // "ssl/http" holds "http": one http and one https port, two scans each.
    assert_eq!(
        r.actions,
        vec![Action::RunScan(3), Action::RunScan(4), Action::RunScan(5), Action::RunScan(6)]
    );
    assert_eq!(p.scan_command(5).unwrap().1[1], "https://10.0.0.9:443");
}

#[test]
fn failed_service_scan_skips_web_scans_but_completes() {
    let mut p = scanning("10.0.0.10");
    let r = p.handle(Event::ScanFinished(2, ScanOutcome::WriteFailed));
    assert!(r.actions.is_empty());
    assert_eq!(r.events[1].outcome, Outcome::Recoverable(RecoverableDiscoveryError::Services));
    assert_eq!(r.events[1].severity, Severity::Error);
    p.handle(Event::ScanFinished(0, ScanOutcome::Saved("a".to_string())));
    let r = p.handle(Event::ScanFinished(1, ScanOutcome::CommandFailed));
    assert_eq!(p.stage(), Stage::Completed);
    assert_eq!(r.events.last().unwrap().step, Step::Discovery);
}

#[test]
fn web_fan_out_two_per_port() {
    let mut p = scanning("10.0.0.11");
    let text = "80/tcp open http Apache\n8080/tcp open http-proxy\n8443/tcp open https-alt\n";
    // "https-alt" holds "http" but not "ssl/http": it counts as http.
    let r = p.handle(Event::ScanFinished(2, ScanOutcome::Saved(text.to_string())));
    assert_eq!(r.actions.len(), 6);

    let mut q = scanning("10.0.0.12");
    let text = "80/tcp open http\n81/tcp open http\n443/tcp open ssl/https\n";
    let r = q.handle(Event::ScanFinished(2, ScanOutcome::Saved(text.to_string())));
    // Two http ports, and the ssl line is both http and https: 2 × 4.
    assert_eq!(r.actions.len(), 8);
    assert_eq!(q.scan_output_file(9), Some("10.0.0.12/web_vulns_port_443".to_string()));
    assert_eq!(q.scan_output_file(10), Some("10.0.0.12/web_dirs_and_files_port_443".to_string()));
}

#[test]
fn repeated_or_unknown_scan_numbers_are_ignored() {
    let mut p = scanning("10.0.0.13");
    p.handle(Event::ScanFinished(0, ScanOutcome::Saved("a".to_string())));
    let r = p.handle(Event::ScanFinished(0, ScanOutcome::Saved("a".to_string())));
    assert!(r.actions.is_empty() && r.events.is_empty());
    let r = p.handle(Event::ScanFinished(7, ScanOutcome::Saved("a".to_string())));
    assert!(r.actions.is_empty() && r.events.is_empty());
    assert_eq!(p.task(7).is_none(), true);
    assert_eq!(p.scan_command(7), None);
}

#[test]
fn progress_lines_are_labelled() {
    let cli = CLITarget::new(Some("10.0.0.1".to_string()), None).unwrap();
    let machine = TargetMachine::new(cli, 12);
    let p = TargetPipeline::new(machine, IMDUser::new(0, "root".to_string(), 0), "w".to_string());
    let ev = ProgressEvent { step: Step::Hosts, outcome: Outcome::Done, severity: Severity::Success };
    assert_eq!(p.line(&ev), "10.0.0.1     - Adding to /etc/hosts ✔️ Done");
    let ev = ProgressEvent {
        step: Step::Directory,
        outcome: Outcome::Failed(Failure::ChangeOwner),
        severity: Severity::Error,
    };
    assert_eq!(
        p.message(&ev),
        "Creating directory to store results in ✕ Problem changing the owner of the directory"
    );
}
