use imd::scan::{parse_port_scan, Service};
use imd::target::{CLITarget, TargetMachine};

fn ports(text: &str, svc: Service) -> Vec<String> {
    parse_port_scan(text).ports(svc).clone()
}

#[test]
fn parser_reads_three_services() {
    let text = "80/tcp open http Apache\n22/tcp open ssh OpenSSH\n443/tcp open ssl/http nginx";
    let map = parse_port_scan(text);
    assert_eq!(map.ports(Service::Ssh), &vec!["22".to_string()]);
    assert_eq!(map.ports(Service::Https), &vec!["443".to_string()]);
    // The https line also holds the literal "http", so it is filed there too.
    assert_eq!(map.ports(Service::Http), &vec!["80".to_string(), "443".to_string()]);
    assert!(map.ports(Service::Ftp).is_empty());
}

#[test]
fn parser_lookup_by_name() {
    let map = parse_port_scan("80/tcp open http Apache\n22/tcp open ssh OpenSSH");
    assert_eq!(map.get("http"), Some(&vec!["80".to_string()]));
    assert_eq!(map.get("ssh"), Some(&vec!["22".to_string()]));
    assert_eq!(map.get("ftp"), None);
    assert_eq!(map.get("https"), None);
    assert_eq!(map.get("smtp"), None);
}

#[test]
fn parser_ignores_continuation_lines() {
    let text = "|_http-title: open http page\n  | open http 8443\nSF:8080/tcp open http\n21/tcp open ftp vsftpd";
    let map = parse_port_scan(text);
    assert!(map.ports(Service::Http).is_empty());
    assert!(map.ports(Service::Https).is_empty());
    assert_eq!(map.ports(Service::Ftp), &vec!["21".to_string()]);
}

#[test]
fn parser_continuation_line_between_others_changes_nothing() {
    let with = "80/tcp open http\n| open ssl/http 443\n8080/tcp open http-proxy";
    let without = "80/tcp open http\n8080/tcp open http-proxy";
    for svc in [Service::Ftp, Service::Ssh, Service::Http, Service::Https] {
        assert_eq!(ports(with, svc), ports(without, svc));
    }
    assert_eq!(ports(with, Service::Http), vec!["80".to_string(), "8080".to_string()]);
}

#[test]
fn parser_needs_the_word_open() {
    let map = parse_port_scan("80/tcp closed http\n443/tcp filtered ssl/http");
    assert!(map.ports(Service::Http).is_empty());
    assert!(map.ports(Service::Https).is_empty());
}

#[test]
fn parser_keeps_line_order_and_duplicates() {
    let text = "8080/tcp open http\n80/tcp open http\n8080/tcp open http\n";
    assert_eq!(
        ports(text, Service::Http),
        vec!["8080".to_string(), "80".to_string(), "8080".to_string()]
    );
}

#[test]
fn parser_trims_and_takes_first_field() {
    let text = "   22/tcp   open  ssh OpenSSH 8.9\r\n\t21 open ftp/x\n";
    assert_eq!(ports(text, Service::Ssh), vec!["22".to_string()]);
    assert_eq!(ports(text, Service::Ftp), vec!["21".to_string()]);
}

#[test]
fn parser_empty_input() {
    let map = parse_port_scan("");
    for svc in [Service::Ftp, Service::Ssh, Service::Http, Service::Https] {
        assert!(map.ports(svc).is_empty());
    }
}

#[test]
fn target_parses_its_own_scan() {
    let cli = CLITarget::new(Some("10.0.0.2".to_string()), None).unwrap();
    let machine = TargetMachine::new(cli, 8);
    let map = machine.parse_port_scan("443/tcp open ssl/http nginx".to_string());
    assert_eq!(map.get("https"), Some(&vec!["443".to_string()]));
}

#[test]
fn service_names_and_tokens() {
    assert_eq!(Service::from_name("https"), Some(Service::Https));
    assert_eq!(Service::from_name("ssl/http"), None);
    assert_eq!(Service::Https.token(), vec!['s', 's', 'l', '/', 'h', 't', 't', 'p']);
    assert_eq!(Service::Https.name(), vec!['h', 't', 't', 'p', 's']);
}
