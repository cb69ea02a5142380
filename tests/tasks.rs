use imd::scan::{Service, ServiceMap};
use imd::tasks::{web_scan_tasks, ScanTask, WebProtocol};

#[test]
fn base_scan_commands() {
    assert_eq!(ScanTask::AllTcpPorts.program(), "nmap");
    assert_eq!(ScanTask::AllTcpPorts.arguments("10.0.0.1", "x", "w"), vec!["-p-", "-Pn", "10.0.0.1"]);
    assert_eq!(ScanTask::NetworkDrives.program(), "showmount");
    assert_eq!(ScanTask::NetworkDrives.arguments("10.0.0.1", "x", "w"), vec!["-e", "10.0.0.1"]);
    assert_eq!(ScanTask::CommonTcpPorts.arguments("10.0.0.1", "x", "w").len(), 11);
    assert_eq!(ScanTask::CommonTcpPorts.arguments("10.0.0.1", "x", "w")[3], "http-robots.txt");
}

#[test]
fn web_scan_commands() {
    let v = ScanTask::WebVulns(WebProtocol::Https, "8443".to_string());
    assert_eq!(v.program(), "nikto");
    assert_eq!(v.arguments("10.0.0.1", "site", "w"), vec!["-host", "https://site:8443", "-maxtime", "60"]);
    let d = ScanTask::WebDirsAndFiles(WebProtocol::Http, "80".to_string());
    assert_eq!(d.program(), "feroxbuster");
    assert_eq!(
        d.arguments("10.0.0.1", "10.0.0.1", "/w.txt"),
        vec!["-q", "--thorough", "--time-limit", "10m", "--no-state", "-w", "/w.txt", "-u", "http://10.0.0.1:80"]
    );
}

#[test]
fn result_files() {
    assert_eq!(ScanTask::AllTcpPorts.output_file("10.0.0.1"), "10.0.0.1/all_tcp_ports");
    assert_eq!(ScanTask::NetworkDrives.output_file("10.0.0.1"), "10.0.0.1/nfs_shares");
    assert_eq!(ScanTask::CommonTcpPorts.output_file("10.0.0.1"), "10.0.0.1/common_tcp_ports");
    let v = ScanTask::WebVulns(WebProtocol::Http, "8080".to_string());
    assert_eq!(v.output_file("10.0.0.1"), "10.0.0.1/web_vulns_port_8080");
    let d = ScanTask::WebDirsAndFiles(WebProtocol::Http, "8080".to_string());
    assert_eq!(d.output_file("10.0.0.1"), "10.0.0.1/web_dirs_and_files_port_8080");
}

#[test]
fn saved_content() {
    assert_eq!(ScanTask::AllTcpPorts.file_content("a\n\nb"), "a\n\nb\n");
    let d = ScanTask::WebDirsAndFiles(WebProtocol::Http, "80".to_string());
    assert_eq!(d.file_content("a\n\nb\n\n"), "a\nb\n\n");
    assert_eq!(d.file_content("\n\n\n"), "\n\n\n");
    assert_eq!(d.file_content(""), "\n");
}

#[test]
fn descriptions() {
    assert_eq!(ScanTask::AllTcpPorts.description(), "Scanning all TCP ports: 'nmap -p- -Pn'");
    assert_eq!(
        ScanTask::WebVulns(WebProtocol::Http, "81".to_string()).description(),
        "Scanning web vulns on port 81: 'nikto -host -maxtime 60'"
    );
}

#[test]
fn fan_out_two_http_one_https() {
    let mut map = ServiceMap::new();
    map.push_port(Service::Http, "80".to_string());
    map.push_port(Service::Http, "8080".to_string());
    map.push_port(Service::Https, "443".to_string());
    map.push_port(Service::Ssh, "22".to_string());
    let tasks = web_scan_tasks(&map);
    assert_eq!(tasks.len(), 6);
    let files: Vec<String> = tasks.iter().map(|t| t.output_file("h")).collect();
    assert_eq!(
        files,
        vec![
            "h/web_vulns_port_80",
            "h/web_dirs_and_files_port_80",
            "h/web_vulns_port_8080",
            "h/web_dirs_and_files_port_8080",
            "h/web_vulns_port_443",
            "h/web_dirs_and_files_port_443",
        ]
    );
    assert_eq!(tasks[4].arguments("h", "h", "w")[1], "https://h:443");
}
