//! The scans run once a target is reachable and has a results directory:
//! the command of each, the file it is saved to, and what is written there.
use vstd::prelude::*;
use crate::commands::{str_views, DiscoveryCommand};
use crate::scan::{views, Service, ServiceMap};
use crate::text::{collapse_blank_lines, collapse_blank_lines_exec};

verus! {

/// The scheme a web scan addresses a port with.
#[derive(Debug, Clone, Copy, PartialEq, Eq, Structural)]
pub enum WebProtocol {
    Http,
    Https,
}

impl WebProtocol {
    pub open spec fn name_spec(self) -> Seq<char> {
        match self {
            WebProtocol::Http => "http"@,
            WebProtocol::Https => "https"@,
        }
    }

    pub fn name(&self) -> (r: &'static str)
        ensures
            r@ == self.name_spec(),
    {
        match self {
            WebProtocol::Http => "http",
            WebProtocol::Https => "https",
        }
    }
}

/// One scan of a target, run as its own worker.
#[derive(Debug, Clone)]
pub enum ScanTask {
    /// Every TCP port.
    AllTcpPorts,
    /// The network shares the target exports.
    NetworkDrives,
    /// The common TCP ports, with service fingerprints.
    CommonTcpPorts,
    /// Web vulnerabilities behind one open web port.
    WebVulns(WebProtocol, String),
    /// Web directories and files behind one open web port.
    WebDirsAndFiles(WebProtocol, String),
}

/// What a scan task is, with its port as characters.
pub enum TaskView {
    AllTcpPorts,
    NetworkDrives,
    CommonTcpPorts,
    WebVulns(WebProtocol, Seq<char>),
    WebDirsAndFiles(WebProtocol, Seq<char>),
}

impl View for ScanTask {
    type V = TaskView;

    open spec fn view(&self) -> TaskView {
        match self {
            ScanTask::AllTcpPorts => TaskView::AllTcpPorts,
            ScanTask::NetworkDrives => TaskView::NetworkDrives,
            ScanTask::CommonTcpPorts => TaskView::CommonTcpPorts,
            ScanTask::WebVulns(p, port) => TaskView::WebVulns(*p, port@),
            ScanTask::WebDirsAndFiles(p, port) => TaskView::WebDirsAndFiles(*p, port@),
        }
    }
}

/// `protocol://web_target:port`
pub open spec fn full_target(p: WebProtocol, web_target: Seq<char>, port: Seq<char>) -> Seq<char> {
    p.name_spec() + "://"@ + web_target + ":"@ + port
}

impl TaskView {
    pub open spec fn is_web(self) -> bool {
        self is WebVulns || self is WebDirsAndFiles
    }

    pub open spec fn program(self) -> Seq<char> {
        match self {
            TaskView::AllTcpPorts => DiscoveryCommand::NmapAllTCP.cli_spec(),
            TaskView::NetworkDrives => "showmount"@,
            TaskView::CommonTcpPorts => "nmap"@,
            TaskView::WebVulns(_, _) => "nikto"@,
            TaskView::WebDirsAndFiles(_, _) => "feroxbuster"@,
        }
    }

    pub open spec fn arguments(self, ip: Seq<char>, web_target: Seq<char>, wordlist: Seq<char>) -> Seq<Seq<char>> {
        match self {
            TaskView::AllTcpPorts => DiscoveryCommand::NmapAllTCP.args_spec(ip),
            TaskView::NetworkDrives => seq!["-e"@, ip],
            TaskView::CommonTcpPorts => seq![
                "-sV"@, "-Pn"@, "--script"@, "http-robots.txt"@, "--script"@, "http-title"@,
                "--script"@, "ssl-cert"@, "--script"@, "ftp-anon"@, ip,
            ],
            TaskView::WebVulns(p, port) => seq!["-host"@, full_target(p, web_target, port), "-maxtime"@, "60"@],
            TaskView::WebDirsAndFiles(p, port) => seq![
                "-q"@, "--thorough"@, "--time-limit"@, "10m"@, "--no-state"@, "-w"@, wordlist,
                "-u"@, full_target(p, web_target, port),
            ],
        }
    }

    /// The name of the result file inside the target's directory.
    pub open spec fn output_name(self) -> Seq<char> {
        match self {
            TaskView::AllTcpPorts => "all_tcp_ports"@,
            TaskView::NetworkDrives => "nfs_shares"@,
            TaskView::CommonTcpPorts => "common_tcp_ports"@,
            TaskView::WebVulns(_, port) => "web_vulns_port_"@ + port,
            TaskView::WebDirsAndFiles(_, port) => "web_dirs_and_files_port_"@ + port,
        }
    }

    pub open spec fn description(self) -> Seq<char> {
        match self {
            TaskView::AllTcpPorts => "Scanning all TCP ports: 'nmap -p- -Pn'"@,
            TaskView::NetworkDrives => "Scanning network drives: 'showmount -e'"@,
            TaskView::CommonTcpPorts => "Scanning common TCP ports: 'nmap -sV -Pn --script (a few useful scripts)'"@,
            TaskView::WebVulns(_, port) => "Scanning web vulns on port "@ + port + ": 'nikto -host -maxtime 60'"@,
            TaskView::WebDirsAndFiles(_, port) => "Scanning web presence on port "@ + port
                + ": 'feroxbuster -q --thorough --time-limit 10m'"@,
        }
    }

    /// What is saved of the output `out`, followed by a line feed; the
    /// content discovery tool's doubled line feeds are made single.
    pub open spec fn file_content(self, out: Seq<char>) -> Seq<char> {
        match self {
            TaskView::WebDirsAndFiles(_, _) => collapse_blank_lines(out) + seq!['\n'],
            _ => out + seq!['\n'],
        }
    }
}

/// Every owned copy of `v`, in order.
fn owned_all(v: Vec<&str>) -> (r: Vec<String>)
    ensures
        views(r@) == str_views(v@),
{
    let mut r: Vec<String> = Vec::new();
    let mut i: usize = 0;
    while i < v.len()
        invariant
            i <= v.len(),
            r@.len() == i,
            views(r@) == str_views(v@).take(i as int),
        decreases v.len() - i,
    {
        let ghost prev = r@;
        let o = v[i].to_owned();
        r.push(o);
        assert(r@ == prev.push(o));
        assert(views(r@).len() == i + 1);
        assert forall|j: int| 0 <= j < i + 1 implies #[trigger] views(r@)[j] == str_views(v@).take(i + 1)[j] by {
            if j < i {
                assert(views(r@)[j] == views(prev)[j]);
            }
        }
        assert(views(r@) =~= str_views(v@).take(i + 1));
        i = i + 1;
    }
    assert(str_views(v@).take(v.len() as int) =~= str_views(v@));
    r
}

fn full_target_exec(p: WebProtocol, web_target: &str, port: &String) -> (r: String)
    ensures
        r@ == full_target(p, web_target@, port@),
{
    let mut r = p.name().to_owned();
    r.append("://");
    r.append(web_target);
    r.append(":");
    r.append(port.as_str());
    r
}

fn owned(s: &str) -> (r: String)
    ensures
        r@ == s@,
{
    s.to_owned()
}

impl ScanTask {
    pub fn program(&self) -> (r: &'static str)
        ensures
            r@ == self@.program(),
    {
        match self {
            ScanTask::AllTcpPorts => DiscoveryCommand::NmapAllTCP.cli(),
            ScanTask::NetworkDrives => "showmount",
            ScanTask::CommonTcpPorts => "nmap",
            ScanTask::WebVulns(_, _) => "nikto",
            ScanTask::WebDirsAndFiles(_, _) => "feroxbuster",
        }
    }

    /// The arguments of the scan against the target at `ip`, its web scans
    /// pointed at `web_target`, content discovery using `wordlist`.
    pub fn arguments(&self, ip: &str, web_target: &str, wordlist: &str) -> (r: Vec<String>)
        ensures
            views(r@) == self@.arguments(ip@, web_target@, wordlist@),
    {
        match self {
            ScanTask::AllTcpPorts => owned_all(DiscoveryCommand::NmapAllTCP.args(ip)),
            ScanTask::NetworkDrives => {
                let r = vec![owned("-e"), owned(ip)];
                assert(views(r@) =~= self@.arguments(ip@, web_target@, wordlist@));
                r
            },
            ScanTask::CommonTcpPorts => {
                let r = vec![
                    owned("-sV"), owned("-Pn"), owned("--script"), owned("http-robots.txt"),
                    owned("--script"), owned("http-title"), owned("--script"), owned("ssl-cert"),
                    owned("--script"), owned("ftp-anon"), owned(ip),
                ];
                assert(views(r@) =~= self@.arguments(ip@, web_target@, wordlist@));
                r
            },
            ScanTask::WebVulns(p, port) => {
                let r = vec![owned("-host"), full_target_exec(*p, web_target, port), owned("-maxtime"), owned("60")];
                assert(views(r@) =~= self@.arguments(ip@, web_target@, wordlist@));
                r
            },
            ScanTask::WebDirsAndFiles(p, port) => {
                let r = vec![
                    owned("-q"), owned("--thorough"), owned("--time-limit"), owned("10m"),
                    owned("--no-state"), owned("-w"), owned(wordlist), owned("-u"),
                    full_target_exec(*p, web_target, port),
                ];
                assert(views(r@) =~= self@.arguments(ip@, web_target@, wordlist@));
                r
            },
        }
    }

    /// The result file of the scan: `<ip>/<name>`.
    pub fn output_file(&self, ip: &str) -> (r: String)
        ensures
            r@ == ip@ + "/"@ + self@.output_name(),
    {
        let mut r = ip.to_owned();
        r.append("/");
        match self {
            ScanTask::AllTcpPorts => r.append("all_tcp_ports"),
            ScanTask::NetworkDrives => r.append("nfs_shares"),
            ScanTask::CommonTcpPorts => r.append("common_tcp_ports"),
            ScanTask::WebVulns(_, port) => {
                r.append("web_vulns_port_");
                r.append(port.as_str());
            },
            ScanTask::WebDirsAndFiles(_, port) => {
                r.append("web_dirs_and_files_port_");
                r.append(port.as_str());
            },
        }
        r
    }

    pub fn description(&self) -> (r: String)
        ensures
            r@ == self@.description(),
    {
        match self {
            ScanTask::AllTcpPorts => owned("Scanning all TCP ports: 'nmap -p- -Pn'"),
            ScanTask::NetworkDrives => owned("Scanning network drives: 'showmount -e'"),
            ScanTask::CommonTcpPorts => owned("Scanning common TCP ports: 'nmap -sV -Pn --script (a few useful scripts)'"),
            ScanTask::WebVulns(_, port) => {
                let mut r = owned("Scanning web vulns on port ");
                r.append(port.as_str());
                r.append(": 'nikto -host -maxtime 60'");
                r
            },
            ScanTask::WebDirsAndFiles(_, port) => {
                let mut r = owned("Scanning web presence on port ");
                r.append(port.as_str());
                r.append(": 'feroxbuster -q --thorough --time-limit 10m'");
                r
            },
        }
    }

    /// What to write to the result file for the scan output `output`.
    pub fn file_content(&self, output: &str) -> (r: String)
        ensures
            r@ == self@.file_content(output@),
    {
        let mut r = match self {
            ScanTask::WebDirsAndFiles(_, _) => collapse_blank_lines_exec(output),
            _ => output.to_owned(),
        };
        r.push('\n');
        r
    }
}

/// The two web scans of each port, in the order of the ports.
pub open spec fn web_tasks_for(p: WebProtocol, ports: Seq<Seq<char>>) -> Seq<TaskView>
    decreases ports.len(),
{
    if ports.len() == 0 {
        seq![]
    } else {
        web_tasks_for(p, ports.drop_last()) + seq![
            TaskView::WebVulns(p, ports.last()),
            TaskView::WebDirsAndFiles(p, ports.last()),
        ]
    }
}

/// The web scans that a service map calls for: two for each open http
/// port, then two for each open https port.
pub open spec fn web_tasks(http: Seq<Seq<char>>, https: Seq<Seq<char>>) -> Seq<TaskView> {
    web_tasks_for(WebProtocol::Http, http) + web_tasks_for(WebProtocol::Https, https)
}

pub proof fn lemma_web_tasks_for_len(p: WebProtocol, ports: Seq<Seq<char>>)
    ensures
        web_tasks_for(p, ports).len() == 2 * ports.len(),
        forall|i: int| 0 <= i < web_tasks_for(p, ports).len() ==> (#[trigger] web_tasks_for(p, ports)[i]).is_web(),
    decreases ports.len(),
{
    if ports.len() > 0 {
        lemma_web_tasks_for_len(p, ports.drop_last());
        let prev = web_tasks_for(p, ports.drop_last());
        let two = seq![TaskView::WebVulns(p, ports.last()), TaskView::WebDirsAndFiles(p, ports.last())];
        assert forall|i: int| 0 <= i < (prev + two).len() implies (#[trigger] (prev + two)[i]).is_web() by {
            if i >= prev.len() {
                assert((prev + two)[i] == two[i - prev.len()]);
            }
        }
    }
}

/// The web scans for the ports of `m`.
pub fn web_scan_tasks(m: &ServiceMap) -> (r: Vec<ScanTask>)
    ensures
        r@.map_values(|t: ScanTask| t@) == web_tasks(m.spec_ports(Service::Http), m.spec_ports(Service::Https)),
{
    let mut r: Vec<ScanTask> = Vec::new();
    let protocols = [WebProtocol::Http, WebProtocol::Https];
    let services = [Service::Http, Service::Https];
    let mut k: usize = 0;
    while k < 2
        invariant
            k <= 2,
            protocols@ == seq![WebProtocol::Http, WebProtocol::Https],
            services@ == seq![Service::Http, Service::Https],
            r@.map_values(|t: ScanTask| t@) == if k == 0 {
                Seq::<TaskView>::empty()
            } else if k == 1 {
                web_tasks_for(WebProtocol::Http, m.spec_ports(Service::Http))
            } else {
                web_tasks(m.spec_ports(Service::Http), m.spec_ports(Service::Https))
            },
        decreases 2 - k,
    {
        let p = protocols[k];
        let ports = m.ports(services[k]);
        let ghost start = r@.map_values(|t: ScanTask| t@);
        let mut i: usize = 0;
        while i < ports.len()
            invariant
                i <= ports.len(),
                views(ports@) == m.spec_ports(services@[k as int]),
                r@.map_values(|t: ScanTask| t@) == start + web_tasks_for(p, views(ports@).take(i as int)),
            decreases ports.len() - i,
        {
            let ghost before = r@.map_values(|t: ScanTask| t@);
            r.push(ScanTask::WebVulns(p, ports[i].clone()));
            r.push(ScanTask::WebDirsAndFiles(p, ports[i].clone()));
            proof {
                let taken = views(ports@).take(i + 1);
                assert(taken.drop_last() =~= views(ports@).take(i as int));
                assert(taken.last() == ports@[i as int]@);
                assert(r@.map_values(|t: ScanTask| t@) =~= before + seq![
                    TaskView::WebVulns(p, ports@[i as int]@),
                    TaskView::WebDirsAndFiles(p, ports@[i as int]@),
                ]);
                assert(start + web_tasks_for(p, taken) =~= start + web_tasks_for(p, views(ports@).take(i as int)) + seq![
                    TaskView::WebVulns(p, ports@[i as int]@),
                    TaskView::WebDirsAndFiles(p, ports@[i as int]@),
                ]);
            }
            i = i + 1;
        }
        assert(views(ports@).take(ports.len() as int) =~= views(ports@));
        proof {
            if k == 0 {
                assert(start =~= Seq::<TaskView>::empty());
                assert(start + web_tasks_for(p, views(ports@)) =~= web_tasks_for(p, views(ports@)));
            }
        }
        k = k + 1;
    }
    r
}

} // verus!
