//! Reading the output of the service-fingerprinting port scan into the open
//! ports of each service of interest.
use vstd::prelude::*;
use crate::target::TargetMachine;
use crate::text::{
    contains, contains_exec, is_space, is_space_char, line_end, line_end_exec, lines, lines_from,
    lemma_line_end_bounds, lemma_lines_concat, lemma_single_line, starts_with, starts_with_exec, string_of, trim, trim_bounds, chars_of, same_chars,
};

verus! {

/// The services whose open ports the scan output is searched for.
#[derive(Debug, Clone, Copy, PartialEq, Eq, Structural)]
pub enum Service {
    Ftp,
    Ssh,
    Http,
    Https,
}

impl Service {
    /// The literal looked for in a line of the scan output.
    pub open spec fn token_spec(self) -> Seq<char> {
        match self {
            Service::Ftp => seq!['f', 't', 'p'],
            Service::Ssh => seq!['s', 's', 'h'],
            Service::Http => seq!['h', 't', 't', 'p'],
            Service::Https => seq!['s', 's', 'l', '/', 'h', 't', 't', 'p'],
        }
    }

    /// The normalized name the ports are filed under.
    pub open spec fn name_spec(self) -> Seq<char> {
        match self {
            Service::Ftp => seq!['f', 't', 'p'],
            Service::Ssh => seq!['s', 's', 'h'],
            Service::Http => seq!['h', 't', 't', 'p'],
            Service::Https => seq!['h', 't', 't', 'p', 's'],
        }
    }

    pub fn token(&self) -> (r: Vec<char>)
        ensures
            r@ == self.token_spec(),
    {
        let r = match self {
            Service::Ftp => vec!['f', 't', 'p'],
            Service::Ssh => vec!['s', 's', 'h'],
            Service::Http => vec!['h', 't', 't', 'p'],
            Service::Https => vec!['s', 's', 'l', '/', 'h', 't', 't', 'p'],
        };
        assert(r@ =~= self.token_spec());
        r
    }

    /// The service filed under `name`, if any.
    pub fn from_name(name: &str) -> (r: Option<Service>)
        ensures
            r matches Some(svc) ==> svc.name_spec() == name@,
            r is None ==> forall|svc: Service| svc.name_spec() != name@,
    {
        let v = chars_of(name);
        let services = [Service::Ftp, Service::Ssh, Service::Http, Service::Https];
        let mut k: usize = 0;
        while k < 4
            invariant
                k <= 4,
                v@ == name@,
                services@ == seq![Service::Ftp, Service::Ssh, Service::Http, Service::Https],
                forall|i: int| 0 <= i < k ==> (#[trigger] services@[i]).name_spec() != name@,
            decreases 4 - k,
        {
            let n = services[k].name();
            if same_chars(&n, &v) {
                return Some(services[k]);
            }
            k = k + 1;
        }
        assert forall|svc: Service| svc.name_spec() != name@ by {
            let i: int = match svc {
                Service::Ftp => 0,
                Service::Ssh => 1,
                Service::Http => 2,
                Service::Https => 3,
            };
            assert(services@[i] == svc);
        }
        None
    }

    pub fn name(&self) -> (r: Vec<char>)
        ensures
            r@ == self.name_spec(),
    {
        let r = match self {
            Service::Ftp => vec!['f', 't', 'p'],
            Service::Ssh => vec!['s', 's', 'h'],
            Service::Http => vec!['h', 't', 't', 'p'],
            Service::Https => vec!['h', 't', 't', 'p', 's'],
        };
        assert(r@ =~= self.name_spec());
        r
    }
}

pub open spec fn open_word() -> Seq<char> {
    seq!['o', 'p', 'e', 'n']
}

/// A trimmed line that belongs to a multi-line script result or to a
/// service fingerprint rather than to the port table.
pub open spec fn is_continuation(t: Seq<char>) -> bool {
    starts_with(t, seq!['|']) || starts_with(t, seq!['S', 'F', ':'])
}

/// The trimmed line `t` reports `svc` open.
pub open spec fn trimmed_reports(t: Seq<char>, svc: Service) -> bool {
    !is_continuation(t) && contains(t, svc.token_spec()) && contains(t, open_word())
}

/// The line reports `svc` open.
pub open spec fn reports(line: Seq<char>, svc: Service) -> bool {
    trimmed_reports(trim(line), svc)
}

/// The part of the first field of `t` before its first `/`.
pub open spec fn port_token(t: Seq<char>) -> Seq<char>
    decreases t.len(),
{
    if t.len() == 0 || is_space(t[0]) || t[0] == '/' {
        seq![]
    } else {
        seq![t[0]] + port_token(t.drop_first())
    }
}

/// The ports that the lines `ls` report open for `svc`, in line order.
pub open spec fn ports_in(ls: Seq<Seq<char>>, svc: Service) -> Seq<Seq<char>>
    decreases ls.len(),
{
    if ls.len() == 0 {
        seq![]
    } else {
        let prev = ports_in(ls.drop_last(), svc);
        if reports(ls.last(), svc) {
            prev.push(port_token(trim(ls.last())))
        } else {
            prev
        }
    }
}

/// The ports that the scan output `text` reports open for `svc`.
pub open spec fn service_ports(text: Seq<char>, svc: Service) -> Seq<Seq<char>> {
    ports_in(lines(text), svc)
}

pub open spec fn views(v: Seq<String>) -> Seq<Seq<char>> {
    v.map_values(|p: String| p@)
}

/// Open ports of each service, in the order the scan listed them.
pub struct ServiceMap {
    ftp: Vec<String>,
    ssh: Vec<String>,
    http: Vec<String>,
    https: Vec<String>,
}

impl ServiceMap {
    pub closed spec fn spec_ports(&self, svc: Service) -> Seq<Seq<char>> {
        match svc {
            Service::Ftp => views(self.ftp@),
            Service::Ssh => views(self.ssh@),
            Service::Http => views(self.http@),
            Service::Https => views(self.https@),
        }
    }

    /// A map with no open port.
    pub fn new() -> (r: ServiceMap)
        ensures
            forall|svc: Service| r.spec_ports(svc) == Seq::<Seq<char>>::empty(),
    {
        let r = ServiceMap { ftp: Vec::new(), ssh: Vec::new(), http: Vec::new(), https: Vec::new() };
        assert forall|svc: Service| r.spec_ports(svc) == Seq::<Seq<char>>::empty() by {
            assert(views(Seq::<String>::empty()) =~= Seq::<Seq<char>>::empty());
        }
        r
    }

    /// The open ports of `svc`; empty where the scan showed none.
    pub fn ports(&self, svc: Service) -> (r: &Vec<String>)
        ensures
            views(r@) == self.spec_ports(svc),
    {
        match svc {
            Service::Ftp => &self.ftp,
            Service::Ssh => &self.ssh,
            Service::Http => &self.http,
            Service::Https => &self.https,
        }
    }

    /// The open ports filed under the service name `name`; `None` for a
    /// name that is not one of the services, or a service with no open port.
    pub fn get(&self, name: &str) -> (r: Option<&Vec<String>>)
        ensures
            r matches Some(v) ==> exists|svc: Service| svc.name_spec() == name@ && views(v@) == self.spec_ports(svc)
                && self.spec_ports(svc).len() > 0,
            r is None ==> forall|svc: Service| svc.name_spec() == name@ ==> self.spec_ports(svc).len() == 0,
    {
        match Service::from_name(name) {
            Some(svc) => {
                let ports = self.ports(svc);
                if ports.len() == 0 {
                    proof {
                        assert forall|o: Service| o.name_spec() == name@ implies self.spec_ports(o).len() == 0 by {
                            assert(o == svc) by {
                                if o != svc {
                                    assert(o.name_spec() != svc.name_spec()) by {
                                        assert(o.name_spec().len() != svc.name_spec().len() || o.name_spec()[0] != svc.name_spec()[0]
                                            || o.name_spec()[1] != svc.name_spec()[1]);
                                    }
                                }
                            }
                        }
                    }
                    None
                } else {
                    Some(ports)
                }
            },
            None => None,
        }
    }

    /// Files `port` as the next open port of `svc`.
    pub fn push_port(&mut self, svc: Service, port: String)
        ensures
            final(self).spec_ports(svc) == old(self).spec_ports(svc).push(port@),
            forall|o: Service| o != svc ==> final(self).spec_ports(o) == old(self).spec_ports(o),
    {
        let ghost p = port;
        let ghost before = *self;
        match svc {
            Service::Ftp => self.ftp.push(port),
            Service::Ssh => self.ssh.push(port),
            Service::Http => self.http.push(port),
            Service::Https => self.https.push(port),
        }
        proof {
            assert(views(self.ftp@) =~= if svc == Service::Ftp { views(before.ftp@).push(p@) } else { views(before.ftp@) });
            assert(views(self.ssh@) =~= if svc == Service::Ssh { views(before.ssh@).push(p@) } else { views(before.ssh@) });
            assert(views(self.http@) =~= if svc == Service::Http { views(before.http@).push(p@) } else { views(before.http@) });
            assert(views(self.https@) =~= if svc == Service::Https { views(before.https@).push(p@) } else { views(before.https@) });
        }
    }
}

proof fn lemma_ports_concat(x: Seq<Seq<char>>, y: Seq<Seq<char>>, svc: Service)
    ensures
        ports_in(x + y, svc) == ports_in(x, svc) + ports_in(y, svc),
    decreases y.len(),
{
    if y.len() == 0 {
        assert(x + y =~= x);
        assert(ports_in(x, svc) + seq![] =~= ports_in(x, svc));
    } else {
        lemma_ports_concat(x, y.drop_last(), svc);
        assert((x + y).drop_last() =~= x + y.drop_last());
        assert((x + y).last() == y.last());
        if reports(y.last(), svc) {
            assert(ports_in(x, svc) + ports_in(y.drop_last(), svc).push(port_token(trim(y.last())))
                =~= (ports_in(x, svc) + ports_in(y.drop_last(), svc)).push(port_token(trim(y.last()))));
        }
    }
}

/// A continuation line (a script result line starting with `|`, or a
/// fingerprint line starting with `SF:`) contributes no port, whatever it
/// holds: putting one between two parts of a scan output leaves the ports of
/// every service as they were.
pub proof fn continuation_line_ignored(before: Seq<char>, line: Seq<char>, after: Seq<char>, svc: Service)
    requires
        forall|k: int| 0 <= k < line.len() ==> line[k] != '\n',
        is_continuation(trim(line)),
    ensures
        service_ports(before + seq!['\n'] + line + seq!['\n'] + after, svc)
            == service_ports(before + seq!['\n'] + after, svc),
{
    let rest = line + seq!['\n'] + after;
    assert(before + seq!['\n'] + line + seq!['\n'] + after =~= before + seq!['\n'] + rest);
    lemma_lines_concat(before, rest, 0);
    lemma_lines_concat(line, after, 0);
    lemma_lines_concat(before, after, 0);
    lemma_single_line(line);
    let lb = lines_from(before, 0);
    let la = lines(after);
    assert(lines(before + seq!['\n'] + rest) == lb + (seq![line] + la));
    lemma_ports_concat(lb, seq![line] + la, svc);
    lemma_ports_concat(seq![line], la, svc);
    lemma_ports_concat(lb, la, svc);
    assert(seq![line].drop_last() =~= Seq::<Seq<char>>::empty());
    assert(seq![line].last() == line);
    assert(!reports(line, svc));
    assert(ports_in(Seq::<Seq<char>>::empty(), svc) == Seq::<Seq<char>>::empty());
    assert(ports_in(seq![line], svc) =~= Seq::<Seq<char>>::empty());
    assert(ports_in(seq![line], svc) + ports_in(la, svc) =~= ports_in(la, svc));
}

/// The port token of the trimmed line `v[a..b]`.
fn port_of_line(v: &Vec<char>, a: usize, b: usize) -> (r: String)
    requires
        a <= b <= v.len(),
    ensures
        r@ == port_token(v@.subrange(a as int, b as int)),
{
    let mut j = a;
    while j < b && !is_space_char(v[j]) && v[j] != '/'
        invariant
            a <= j <= b <= v.len(),
            port_token(v@.subrange(a as int, b as int)) == v@.subrange(a as int, j as int)
                + port_token(v@.subrange(j as int, b as int)),
        decreases b - j,
    {
        assert(v@.subrange(j as int, b as int).drop_first() =~= v@.subrange(j + 1, b as int));
        assert(v@.subrange(a as int, j + 1) =~= v@.subrange(a as int, j as int) + seq![v@[j as int]]);
        j = j + 1;
    }
    assert(v@.subrange(a as int, j as int) + seq![] =~= v@.subrange(a as int, j as int));
    string_of(v, a, j)
}

/// Files the port of the trimmed line `v[a..b]` under every service it reports.
fn add_line(map: &mut ServiceMap, v: &Vec<char>, a: usize, b: usize)
    requires
        a <= b <= v.len(),
    ensures
        forall|svc: Service| #![auto] final(map).spec_ports(svc) == if trimmed_reports(v@.subrange(a as int, b as int), svc) {
            old(map).spec_ports(svc).push(port_token(v@.subrange(a as int, b as int)))
        } else {
            old(map).spec_ports(svc)
        },
{
    let ghost t = v@.subrange(a as int, b as int);
    let pipe = vec!['|'];
    let fingerprint = vec!['S', 'F', ':'];
    assert(pipe@ =~= seq!['|']);
    assert(fingerprint@ =~= seq!['S', 'F', ':']);
    if starts_with_exec(v, a, b, &pipe) || starts_with_exec(v, a, b, &fingerprint) {
        return;
    }
    let open = vec!['o', 'p', 'e', 'n'];
    assert(open@ =~= open_word());
    if !contains_exec(v, a, b, &open) {
        return;
    }
    let port = port_of_line(v, a, b);
    let services = [Service::Ftp, Service::Ssh, Service::Http, Service::Https];
    let mut k: usize = 0;
    while k < 4
        invariant
            0 <= k <= 4,
            a <= b <= v.len(),
            t == v@.subrange(a as int, b as int),
            port@ == port_token(t),
            services@ == seq![Service::Ftp, Service::Ssh, Service::Http, Service::Https],
            !is_continuation(t),
            contains(t, open_word()),
            forall|i: int| #![auto] 0 <= i < k ==> map.spec_ports(services@[i]) == if trimmed_reports(t, services@[i]) {
                old(map).spec_ports(services@[i]).push(port_token(t))
            } else {
                old(map).spec_ports(services@[i])
            },
            forall|i: int| #![auto] k <= i < 4 ==> map.spec_ports(services@[i]) == old(map).spec_ports(services@[i]),
        decreases 4 - k,
    {
        let svc = services[k];
        let token = svc.token();
        if contains_exec(v, a, b, &token) {
            map.push_port(svc, port.clone());
        }
        k = k + 1;
    }
    assert forall|svc: Service| #![auto] map.spec_ports(svc) == if trimmed_reports(t, svc) {
        old(map).spec_ports(svc).push(port_token(t))
    } else {
        old(map).spec_ports(svc)
    } by {
        let i: int = match svc {
            Service::Ftp => 0,
            Service::Ssh => 1,
            Service::Http => 2,
            Service::Https => 3,
        };
        assert(services@[i] == svc);
    }
}

/// Reads the output of a service scan: for each service, the ports of the
/// lines that name it and the word `open`, in the order of the lines.
/// Lines of script results (`|`) and fingerprints (`SF:`) are passed over.
pub fn parse_port_scan(port_scan: &str) -> (r: ServiceMap)
    ensures
        forall|svc: Service| #[trigger] r.spec_ports(svc) == service_ports(port_scan@, svc),
{
    let v = chars_of(port_scan);
    let mut map = ServiceMap::new();
    let mut pos: usize = 0;
    let ghost done: Seq<Seq<char>> = seq![];
    assert(done + lines_from(v@, 0) =~= lines(v@));
    loop
        invariant
            pos <= v.len(),
            v@ == port_scan@,
            done + lines_from(v@, pos as int) == lines(v@),
            forall|svc: Service| #[trigger] map.spec_ports(svc) == ports_in(done, svc),
        decreases v.len() - pos,
    {
        let e = line_end_exec(&v, pos);
        proof {
            lemma_line_end_bounds(v@, pos as int);
        }
        let (a, b) = trim_bounds(&v, pos, e);
        let ghost before = map;
        add_line(&mut map, &v, a, b);
        let ghost line = v@.subrange(pos as int, e as int);
        proof {
            let next = done.push(line);
            assert(next.drop_last() =~= done);
            assert(next.last() == line);
            assert forall|svc: Service| #[trigger] map.spec_ports(svc) == ports_in(next, svc) by {
                assert(map.spec_ports(svc) == if trimmed_reports(trim(line), svc) {
                    before.spec_ports(svc).push(port_token(trim(line)))
                } else {
                    before.spec_ports(svc)
                });
            }
            done = next;
        }
        if e == v.len() {
            assert(lines_from(v@, pos as int) == seq![line]);
            assert(done =~= lines(v@));
            return map;
        }
        assert(lines_from(v@, pos as int) == seq![line] + lines_from(v@, e + 1));
        assert(done + lines_from(v@, e + 1) =~= lines(v@));
        pos = e + 1;
    }
}

impl TargetMachine {
    /// The open ports of each service in this target's service scan output.
    pub fn parse_port_scan(&self, port_scan: String) -> (r: ServiceMap)
        ensures
            forall|svc: Service| #[trigger] r.spec_ports(svc) == service_ports(port_scan@, svc),
    {
        parse_port_scan(port_scan.as_str())
    }
}

} // verus!
