use imd::commands::{DiscoveryCommand, DiscoveryError};
use imd::error::{PanicDiscoveryError, RecoverableDiscoveryError};

#[test]
fn ping_command_line() {
    assert_eq!(DiscoveryCommand::Ping.cli(), "ping");
    assert_eq!(DiscoveryCommand::Ping.args("10.0.0.1"), vec!["-c", "4", "10.0.0.1"]);
    assert_eq!(DiscoveryCommand::Ping.failures(), vec!["100% packet loss", "100.0% packet loss"]);
}

#[test]
fn full_port_scan_command_line() {
    assert_eq!(DiscoveryCommand::NmapAllTCP.cli(), "nmap");
    assert_eq!(DiscoveryCommand::NmapAllTCP.args("10.0.0.1"), vec!["-p-", "-Pn", "10.0.0.1"]);
    assert!(DiscoveryCommand::NmapAllTCP.failures().is_empty());
}

#[test]
fn custom_failure_on_packet_loss() {
    let out = "4 packets transmitted, 0 received, 100% packet loss".to_string();
    assert!(matches!(
        DiscoveryCommand::Ping.command_custom_failure(out, DiscoveryError::Connection),
        Err(DiscoveryError::Connection)
    ));
    let out = "4 packets transmitted, 4 received, 0% packet loss".to_string();
    assert_eq!(
        DiscoveryCommand::Ping.command_custom_failure(out.clone(), DiscoveryError::Connection),
        Ok(out.clone())
    );
    assert!(!DiscoveryCommand::Ping.output_fails(&out));
    assert!(DiscoveryCommand::Ping.output_fails("100.0% packet loss"));
    assert!(!DiscoveryCommand::NmapAllTCP.output_fails("100% packet loss"));
}

#[test]
fn error_texts() {
    assert_eq!(DiscoveryError::Connection.as_str(), "Could not connect to host");
    assert_eq!(RecoverableDiscoveryError::AlreadyInHost.as_str(), "〰 Entry already in '/etc/hosts'");
    assert_eq!(RecoverableDiscoveryError::Connection.as_str(), "✕ Could not ping host, it might be down");
    assert_eq!(RecoverableDiscoveryError::DirectoryExists.as_str(), "〰 Directory already exists");
    assert_eq!(
        RecoverableDiscoveryError::Services.as_str(),
        "✕ Could not discover host services, ending discovery"
    );
    assert_eq!(
        PanicDiscoveryError::InvalidIPAddress.as_str(),
        "The provided value does not contain a valid IP address"
    );
    assert_eq!(PanicDiscoveryError::InvalidWordlist.as_str(), "The provided value is not a valid file");
    assert!(PanicDiscoveryError::NotRunAsRoot.as_str().contains("must be run as root"));
}
