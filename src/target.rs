//! The machines to scan and the operator on whose behalf results are kept.
use vstd::prelude::*;
use crate::error::PanicDiscoveryError;
use crate::text::{chars_of, string_of};

verus! {

/// `s` followed by spaces up to `width` characters, as `{:<width$}` pads it.
pub open spec fn padded(s: Seq<char>, width: int) -> Seq<char> {
    if s.len() >= width {
        s
    } else {
        s + Seq::new((width - s.len()) as nat, |_i: int| ' ')
    }
}

/// Position of the first `c` in `s`, if any.
pub open spec fn first_index(s: Seq<char>, c: char) -> Option<int> {
    if exists|i: int| 0 <= i < s.len() && s[i] == c {
        Some(choose|i: int| 0 <= i < s.len() && s[i] == c && forall|j: int| 0 <= j < i ==> s[j] != c)
    } else {
        None
    }
}

/// Index of the first `c` in `v`, if any.
pub fn find_char(v: &Vec<char>, c: char) -> (r: Option<usize>)
    ensures
        match r {
            Some(i) => i < v.len() && v@[i as int] == c && forall|j: int| 0 <= j < i ==> v@[j] != c,
            None => forall|j: int| 0 <= j < v.len() ==> v@[j] != c,
        },
{
    let mut i: usize = 0;
    while i < v.len()
        invariant
            i <= v.len(),
            forall|j: int| 0 <= j < i ==> v@[j] != c,
        decreases v.len() - i,
    {
        if v[i] == c {
            return Some(i);
        }
        i = i + 1;
    }
    None
}

/// A target as given on the command line: `ip` or `ip=hostname`, split at
/// the first `=`.
pub open spec fn split_target_spec(input: Seq<char>) -> (Seq<char>, Option<Seq<char>>) {
    if exists|i: int| 0 <= i < input.len() && input[i] == '=' {
        let i = choose|i: int| 0 <= i < input.len() && input[i] == '=' && forall|j: int| 0 <= j < i ==> input[j] != '=';
        (input.subrange(0, i), Some(input.subrange(i + 1, input.len() as int)))
    } else {
        (input, None)
    }
}

/// Splits a command-line target into its address part and its hostname, if
/// it has one.
pub fn split_target(input: &str) -> (r: (String, Option<String>))
    ensures
        r.0@ == split_target_spec(input@).0,
        match r.1 {
            Some(h) => split_target_spec(input@).1 == Some(h@),
            None => split_target_spec(input@).1 is None,
        },
{
    let v = chars_of(input);
    match find_char(&v, '=') {
        Some(i) => {
            let ip = string_of(&v, 0, i);
            let host = string_of(&v, i + 1, v.len());
            let ghost k = choose|k: int| 0 <= k < input@.len() && input@[k] == '=' && forall|j: int| 0 <= j < k ==> input@[j] != '=';
            assert(k == i as int) by {
                if k < i as int {
                    assert(v@[k] != '=');
                } else if k > i as int {
                    assert(input@[i as int] != '=');
                }
            }
            (ip, Some(host))
        },
        None => {
            let ip = string_of(&v, 0, v.len());
            assert(v@.subrange(0, v@.len() as int) =~= input@);
            (ip, None)
        },
    }
}

/// A target machine as read from the command line.
#[derive(Clone, Debug)]
pub struct CLITarget {
    hostname: Option<String>,
    ip_address: String,
}

impl CLITarget {
    pub closed spec fn ip_spec(&self) -> Seq<char> {
        self.ip_address@
    }

    pub closed spec fn hostname_spec(&self) -> Option<Seq<char>> {
        match self.hostname {
            Some(h) => Some(h@),
            None => None,
        }
    }

    /// A target from its address, in the text form of a parsed IP address, or
    /// `None` where the address part did not parse.
    pub fn new(ip_address: Option<String>, hostname: Option<String>) -> (r: Result<CLITarget, PanicDiscoveryError>)
        ensures
            ip_address is None ==> r == Err::<CLITarget, PanicDiscoveryError>(PanicDiscoveryError::InvalidIPAddress),
            ip_address is Some ==> r is Ok && r->Ok_0.ip_spec() == ip_address->Some_0@
                && r->Ok_0.hostname_spec() == match hostname { Some(h) => Some(h@), None => None::<Seq<char>> },
    {
        match ip_address {
            Some(ip_address) => Ok(CLITarget::from_parts(ip_address, hostname)),
            None => Err(PanicDiscoveryError::InvalidIPAddress),
        }
    }

    /// A target from an address known to be valid.
    pub fn from_parts(ip_address: String, hostname: Option<String>) -> (r: CLITarget)
        ensures
            r.ip_spec() == ip_address@,
            r.hostname_spec() == match hostname { Some(h) => Some(h@), None => None::<Seq<char>> },
    {
        CLITarget { hostname, ip_address }
    }

    /// The address, padded to `total_len` characters, then ` -`: the label
    /// that starts each progress line of this target.
    pub fn create_prefix(&self, total_len: usize) -> (r: String)
        ensures
            r@ == padded(self.ip_spec(), total_len as int) + " -"@,
    {
        let mut r = self.ip_address.clone();
        let mut n = chars_of(self.ip_address.as_str()).len();
        while n < total_len
            invariant
                n >= self.ip_spec().len(),
                n <= total_len ==> r@ == padded(self.ip_spec(), n as int),
                n > total_len ==> r@ == self.ip_spec() && n == self.ip_spec().len(),
            decreases total_len - n,
        {
            r.push(' ');
            assert(padded(self.ip_spec(), n + 1) =~= padded(self.ip_spec(), n as int).push(' '));
            n = n + 1;
        }
        assert(r@ == padded(self.ip_spec(), total_len as int));
        r.append(" -");
        r
    }

    /// Never empty: a target always has an address.
    pub fn is_empty(&self) -> (r: bool)
        ensures
            !r,
    {
        false
    }

    /// The number of characters of the address.
    pub fn len(&self) -> (r: usize)
        ensures
            r == self.ip_spec().len(),
    {
        chars_of(self.ip_address.as_str()).len()
    }

    pub fn ip_address(&self) -> (r: &String)
        ensures
            r@ == self.ip_spec(),
    {
        &self.ip_address
    }

    pub fn hostname(&self) -> (r: &Option<String>)
        ensures
            match r {
                Some(h) => self.hostname_spec() == Some(h@),
                None => self.hostname_spec() is None,
            },
    {
        &self.hostname
    }
}

/// The length of the longest address among `ts` (zero with no target).
pub open spec fn longest_ip(ts: Seq<CLITarget>) -> nat
    decreases ts.len(),
{
    if ts.len() == 0 {
        0
    } else {
        let prev = longest_ip(ts.drop_last());
        if ts.last().ip_spec().len() > prev {
            ts.last().ip_spec().len()
        } else {
            prev
        }
    }
}

/// The width that lines up the labels of all targets: the length of the
/// longest address.
pub fn prefix_width(targets: &Vec<CLITarget>) -> (r: usize)
    ensures
        r == longest_ip(targets@),
        forall|i: int| 0 <= i < targets.len() ==> targets@[i].ip_spec().len() <= r,
        targets.len() > 0 ==> exists|i: int| 0 <= i < targets.len() && targets@[i].ip_spec().len() == r,
{
    let mut best: usize = 0;
    let mut i: usize = 0;
    while i < targets.len()
        invariant
            i <= targets.len(),
            best == longest_ip(targets@.take(i as int)),
            forall|j: int| 0 <= j < i ==> targets@[j].ip_spec().len() <= best,
            i > 0 ==> exists|j: int| 0 <= j < i && targets@[j].ip_spec().len() == best,
        decreases targets.len() - i,
    {
        let n = targets[i].len();
        assert(targets@.take(i + 1).drop_last() =~= targets@.take(i as int));
        if n > best {
            best = n;
        } else if i == 0 {
            assert(n == 0);
        }
        i = i + 1;
    }
    assert(targets@.take(targets.len() as int) =~= targets@);
    best
}

impl CLITarget {
    /// A copy of this target.
    pub fn duplicate(&self) -> (r: CLITarget)
        ensures
            r.ip_spec() == self.ip_spec(),
            r.hostname_spec() == self.hostname_spec(),
    {
        let hostname = match &self.hostname {
            Some(h) => Some(h.clone()),
            None => None,
        };
        CLITarget { hostname, ip_address: self.ip_address.clone() }
    }
}

/// The operator: the unprivileged user who owns every result.
#[derive(Clone, Debug)]
pub struct IMDUser {
    gid: u32,
    name: String,
    uid: u32,
}

impl IMDUser {
    pub closed spec fn gid_spec(&self) -> u32 {
        self.gid
    }

    pub closed spec fn uid_spec(&self) -> u32 {
        self.uid
    }

    pub closed spec fn name_spec(&self) -> Seq<char> {
        self.name@
    }

    pub fn new(gid: u32, name: String, uid: u32) -> (r: IMDUser)
        ensures
            r.gid_spec() == gid,
            r.uid_spec() == uid,
            r.name_spec() == name@,
    {
        IMDUser { gid, name, uid }
    }

    /// The user `name` with the ids that the user database gave, or root's
    /// where it had no such user.
    pub fn from_lookup(name: String, ids: Option<(u32, u32)>) -> (r: IMDUser)
        ensures
            r.name_spec() == name@,
            ids matches Some((uid, gid)) ==> r.uid_spec() == uid && r.gid_spec() == gid,
            ids is None ==> r.uid_spec() == 0 && r.gid_spec() == 0,
    {
        match ids {
            Some((uid, gid)) => IMDUser { gid, name, uid },
            None => IMDUser { gid: 0, name, uid: 0 },
        }
    }

    pub fn gid(&self) -> (r: u32)
        ensures
            r == self.gid_spec(),
    {
        self.gid
    }

    pub fn name(&self) -> (r: &String)
        ensures
            r@ == self.name_spec(),
    {
        &self.name
    }

    pub fn uid(&self) -> (r: u32)
        ensures
            r == self.uid_spec(),
    {
        self.uid
    }
}

/// The logged-in user's name in the output of `who`: the text before its
/// first space.
pub fn login_name(who_output: &str) -> (r: String)
    ensures
        r@ == match first_index(who_output@, ' ') {
            Some(i) => who_output@.subrange(0, i),
            None => who_output@,
        },
{
    let v = chars_of(who_output);
    match find_char(&v, ' ') {
        Some(i) => {
            let ghost k = choose|k: int| 0 <= k < who_output@.len() && who_output@[k] == ' ' && forall|j: int| 0 <= j < k ==> who_output@[j] != ' ';
            assert(k == i as int) by {
                if k < i as int {
                    assert(v@[k] != ' ');
                } else if k > i as int {
                    assert(who_output@[i as int] != ' ');
                }
            }
            string_of(&v, 0, i)
        },
        None => {
            assert(v@.subrange(0, v@.len() as int) =~= who_output@);
            string_of(&v, 0, v.len())
        },
    }
}

/// A target as discovery sees it: its address, its hostname if any, and the
/// label of its progress lines.
#[derive(Clone, Debug)]
pub struct TargetMachine {
    hostname: Option<String>,
    ip_address: String,
    prefix: String,
}

impl TargetMachine {
    pub closed spec fn ip_spec(&self) -> Seq<char> {
        self.ip_address@
    }

    pub closed spec fn hostname_spec(&self) -> Option<Seq<char>> {
        match self.hostname {
            Some(h) => Some(h@),
            None => None,
        }
    }

    pub closed spec fn prefix_spec(&self) -> Seq<char> {
        self.prefix@
    }

    /// Where web scans are pointed: the hostname if there is one, else the address.
    pub open spec fn web_target_spec(&self) -> Seq<char> {
        match self.hostname_spec() {
            Some(h) => h,
            None => self.ip_spec(),
        }
    }

    /// The target of `cli`, labelled with its address padded to `prefix_size`.
    pub fn new(cli: CLITarget, prefix_size: usize) -> (r: TargetMachine)
        ensures
            r.ip_spec() == cli.ip_spec(),
            r.hostname_spec() == cli.hostname_spec(),
            r.prefix_spec() == padded(cli.ip_spec(), prefix_size as int) + " -"@,
    {
        let prefix = cli.create_prefix(prefix_size);
        TargetMachine { hostname: cli.hostname, ip_address: cli.ip_address, prefix }
    }

    /// The targets of `clis`, in order, all labelled to the width of the
    /// longest address.
    pub fn for_all(clis: &Vec<CLITarget>) -> (r: Vec<TargetMachine>)
        ensures
            r.len() == clis.len(),
            forall|i: int| #![auto] 0 <= i < r.len() ==> r@[i].ip_spec() == clis@[i].ip_spec()
                && r@[i].hostname_spec() == clis@[i].hostname_spec()
                && r@[i].prefix_spec() == padded(clis@[i].ip_spec(), longest_ip(clis@) as int) + " -"@,
    {
        let width = prefix_width(clis);
        let mut r: Vec<TargetMachine> = Vec::new();
        let mut i: usize = 0;
        while i < clis.len()
            invariant
                i <= clis.len(),
                width == longest_ip(clis@),
                r.len() == i,
                forall|j: int| #![auto] 0 <= j < i ==> r@[j].ip_spec() == clis@[j].ip_spec()
                    && r@[j].hostname_spec() == clis@[j].hostname_spec()
                    && r@[j].prefix_spec() == padded(clis@[j].ip_spec(), width as int) + " -"@,
            decreases clis.len() - i,
        {
            r.push(TargetMachine::new(clis[i].duplicate(), width));
            i = i + 1;
        }
        r
    }

    pub fn ip_as_string(&self) -> (r: String)
        ensures
            r@ == self.ip_spec(),
    {
        self.ip_address.clone()
    }

    pub fn ip_address(&self) -> (r: &String)
        ensures
            r@ == self.ip_spec(),
    {
        &self.ip_address
    }

    pub fn hostname(&self) -> (r: &Option<String>)
        ensures
            match r {
                Some(h) => self.hostname_spec() == Some(h@),
                None => self.hostname_spec() is None,
            },
    {
        &self.hostname
    }

    pub fn prefix(&self) -> (r: &String)
        ensures
            r@ == self.prefix_spec(),
    {
        &self.prefix
    }

    pub fn web_target(&self) -> (r: String)
        ensures
            r@ == self.web_target_spec(),
    {
        match &self.hostname {
            Some(hostname) => hostname.clone(),
            None => self.ip_as_string(),
        }
    }
}

} // verus!
