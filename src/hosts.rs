//! Registering a hostname in the shared hosts file: the check for an entry
//! that is already there, and the line that is appended when none is.
use vstd::prelude::*;
use crate::text::{
    chars_of, contains, contains_exec, line_end_exec, lemma_line_end_bounds, lines, lines_from,
    line_end, occurs_at,
};

verus! {

/// The hosts file that every target's registration reads and appends to.
pub const HOSTS_FILE: &'static str = "/etc/hosts";

/// A line names the pair when it holds both texts, anywhere in it.
pub open spec fn names_pair(line: Seq<char>, ip: Seq<char>, hostname: Seq<char>) -> bool {
    contains(line, ip) && contains(line, hostname)
}

/// Some line of `contents` names the pair.
pub open spec fn entry_present(contents: Seq<char>, ip: Seq<char>, hostname: Seq<char>) -> bool {
    exists|k: int| 0 <= k < lines(contents).len() && names_pair(#[trigger] lines(contents)[k], ip, hostname)
}

/// The line appended for the pair: `<ip> <hostname>` and a line feed.
pub open spec fn entry_line(ip: Seq<char>, hostname: Seq<char>) -> Seq<char> {
    ip + seq![' '] + hostname + seq!['\n']
}

pub open spec fn has_no_line_feed(s: Seq<char>) -> bool {
    forall|k: int| 0 <= k < s.len() ==> s[k] != '\n'
}

/// The text to append to the hosts file to register `hostname` for `ip`.
pub fn hosts_entry(ip: &str, hostname: &str) -> (r: String)
    ensures
        r@ == entry_line(ip@, hostname@),
{
    let mut r = ip.to_owned();
    r.push(' ');
    r.append(hostname);
    r.push('\n');
    r
}

/// Whether the hosts file `contents` already holds a line with both `ip`
/// and `hostname` in it.
pub fn is_registered(contents: &str, ip: &str, hostname: &str) -> (r: bool)
    ensures
        r == entry_present(contents@, ip@, hostname@),
{
    let v = chars_of(contents);
    let ipv = chars_of(ip);
    let hostv = chars_of(hostname);
    let mut pos: usize = 0;
    let ghost done: Seq<Seq<char>> = seq![];
    assert(done + lines_from(v@, 0) =~= lines(v@));
    loop
        invariant
            pos <= v.len(),
            v@ == contents@,
            ipv@ == ip@,
            hostv@ == hostname@,
            done + lines_from(v@, pos as int) == lines(v@),
            forall|k: int| 0 <= k < done.len() ==> !names_pair(#[trigger] done[k], ip@, hostname@),
        decreases v.len() - pos,
    {
        let e = line_end_exec(&v, pos);
        proof {
            lemma_line_end_bounds(v@, pos as int);
        }
        let ghost line = v@.subrange(pos as int, e as int);
        let ghost next = done.push(line);
        if e == v.len() {
            assert(lines_from(v@, pos as int) == seq![line]);
        } else {
            assert(lines_from(v@, pos as int) == seq![line] + lines_from(v@, e + 1));
        }
        assert(lines(v@)[done.len() as int] == line);
        if contains_exec(&v, pos, e, &ipv) && contains_exec(&v, pos, e, &hostv) {
            assert(names_pair(lines(contents@)[done.len() as int], ip@, hostname@));
            return true;
        }
        proof {
            done = next;
        }
        if e == v.len() {
            assert(done =~= lines(v@));
            return false;
        }
        assert(done + lines_from(v@, e + 1) =~= lines(v@));
        pos = e + 1;
    }
}

proof fn lemma_contains_trans(a: Seq<char>, b: Seq<char>, c: Seq<char>)
    requires
        contains(a, b),
        contains(b, c),
    ensures
        contains(a, c),
{
    let i = choose|i: int| occurs_at(a, b, i);
    let j = choose|j: int| occurs_at(b, c, j);
    assert(a.subrange(i + j, i + j + c.len()) =~= b.subrange(j, j + c.len()));
    assert(occurs_at(a, c, i + j));
}

/// A stretch `s[m..n]` without line feeds lies inside one of the lines
/// that follow position `i`.
proof fn lemma_segment_in_line(s: Seq<char>, i: int, m: int, n: int)
    requires
        0 <= i <= m <= n <= s.len(),
        has_no_line_feed(s.subrange(m, n)),
    ensures
        exists|k: int| 0 <= k < lines_from(s, i).len() && contains(#[trigger] lines_from(s, i)[k], s.subrange(m, n)),
    decreases m - i,
{
    lemma_line_end_bounds(s, i);
    let e = line_end(s, i);
    if e < m {
        lemma_segment_in_line(s, e + 1, m, n);
        let k = choose|k: int| 0 <= k < lines_from(s, e + 1).len() && contains(#[trigger] lines_from(s, e + 1)[k], s.subrange(m, n));
        assert(lines_from(s, i) == seq![s.subrange(i, e)] + lines_from(s, e + 1));
        assert(lines_from(s, i)[k + 1] == lines_from(s, e + 1)[k]);
    } else {
        if e < n {
            assert(s.subrange(m, n)[e - m] == s[e]);
        }
        let line = if e >= s.len() { s.subrange(i, s.len() as int) } else { s.subrange(i, e) };
        assert(lines_from(s, i)[0] == line);
        assert(line.subrange(m - i, n - i) =~= s.subrange(m, n));
        assert(occurs_at(line, s.subrange(m, n), m - i));
    }
}

/// Registering is idempotent: once the line for a pair has been appended to
/// any hosts file, the pair is found there, so a second registration of the
/// same pair appends nothing.
pub proof fn registration_idempotent(contents: Seq<char>, ip: Seq<char>, hostname: Seq<char>)
    requires
        has_no_line_feed(ip),
        has_no_line_feed(hostname),
    ensures
        entry_present(contents + entry_line(ip, hostname), ip, hostname),
{
    let s = contents + entry_line(ip, hostname);
    let m = contents.len() as int;
    let n = m + ip.len() + 1 + hostname.len();
    let seg = ip + seq![' '] + hostname;
    assert(s.subrange(m, n) =~= seg);
    assert(has_no_line_feed(seg)) by {
        assert forall|k: int| 0 <= k < seg.len() implies seg[k] != '\n' by {
            if k < ip.len() {
                assert(seg[k] == ip[k]);
            } else if k > ip.len() {
                assert(seg[k] == hostname[k - ip.len() - 1]);
            }
        }
    }
    lemma_segment_in_line(s, 0, m, n);
    let k = choose|k: int| 0 <= k < lines_from(s, 0).len() && contains(#[trigger] lines_from(s, 0)[k], s.subrange(m, n));
    assert(seg.subrange(0, ip.len() as int) =~= ip);
    assert(occurs_at(seg, ip, 0));
    assert(seg.subrange(ip.len() + 1int, ip.len() + 1int + hostname.len()) =~= hostname);
    assert(occurs_at(seg, hostname, ip.len() + 1int));
    lemma_contains_trans(lines(s)[k], seg, ip);
    lemma_contains_trans(lines(s)[k], seg, hostname);
}

} // verus!
