//! Character-level helpers over the text that scanning tools print: lines,
//! whitespace trimming and substring search, stated over `Seq<char>`.
use vstd::prelude::*;

verus! {

/// Relies on `String::push`: the character is appended at the end.
pub assume_specification[ String::push ](s: &mut String, ch: char)
    ensures
        final(s)@ == old(s)@.push(ch),
;

/// The characters that `char::is_whitespace` accepts (Unicode `White_Space`).
pub open spec fn is_space(c: char) -> bool {
    ||| c == '\t' || c == '\n' || c == '\u{0B}' || c == '\u{0C}' || c == '\r' || c == ' '
    ||| c == '\u{85}' || c == '\u{A0}' || c == '\u{1680}'
    ||| ('\u{2000}' as u32 <= c as u32 && c as u32 <= '\u{200A}' as u32)
    ||| c == '\u{2028}' || c == '\u{2029}' || c == '\u{202F}' || c == '\u{205F}' || c == '\u{3000}'
}

pub fn is_space_char(c: char) -> (r: bool)
    ensures
        r == is_space(c),
{
    let u = c as u32;
    c == '\t' || c == '\n' || c == '\u{0B}' || c == '\u{0C}' || c == '\r' || c == ' '
        || c == '\u{85}' || c == '\u{A0}' || c == '\u{1680}' || (0x2000u32 <= u && u <= 0x200Au32)
        || c == '\u{2028}' || c == '\u{2029}' || c == '\u{202F}' || c == '\u{205F}'
        || c == '\u{3000}'
}

/// `s` without its leading whitespace.
pub open spec fn trim_start(s: Seq<char>) -> Seq<char>
    decreases s.len(),
{
    if s.len() > 0 && is_space(s[0]) {
        trim_start(s.drop_first())
    } else {
        s
    }
}

/// `s` without its trailing whitespace.
pub open spec fn trim_end(s: Seq<char>) -> Seq<char>
    decreases s.len(),
{
    if s.len() > 0 && is_space(s.last()) {
        trim_end(s.drop_last())
    } else {
        s
    }
}

/// `s` without whitespace at either end, as `str::trim` gives it.
pub open spec fn trim(s: Seq<char>) -> Seq<char> {
    trim_end(trim_start(s))
}

/// `needle` stands in `hay` from position `i` on.
pub open spec fn occurs_at(hay: Seq<char>, needle: Seq<char>, i: int) -> bool {
    0 <= i && i + needle.len() <= hay.len() && hay.subrange(i, i + needle.len()) == needle
}

/// `needle` is a substring of `hay`.
pub open spec fn contains(hay: Seq<char>, needle: Seq<char>) -> bool {
    exists|i: int| occurs_at(hay, needle, i)
}

pub open spec fn starts_with(s: Seq<char>, prefix: Seq<char>) -> bool {
    occurs_at(s, prefix, 0)
}

/// Position of the first line feed at or after `i`, or the length of `s`.
pub open spec fn line_end(s: Seq<char>, i: int) -> int
    decreases s.len() - i,
{
    if i < 0 || i >= s.len() || s[i] == '\n' {
        if i < 0 { s.len() as int } else if i >= s.len() { s.len() as int } else { i }
    } else {
        line_end(s, i + 1)
    }
}

/// The pieces of `s` from position `i` on, split at each line feed, as
/// `str::split('\n')` yields them (a last, possibly empty, piece included).
pub open spec fn lines_from(s: Seq<char>, i: int) -> Seq<Seq<char>>
    decreases s.len() - i,
{
    if 0 <= i <= s.len() {
        let e = line_end(s, i);
        if e >= s.len() || e < i {
            seq![s.subrange(i, s.len() as int)]
        } else {
            seq![s.subrange(i, e)] + lines_from(s, e + 1)
        }
    } else {
        seq![]
    }
}

/// The lines of `s`, split at each line feed.
pub open spec fn lines(s: Seq<char>) -> Seq<Seq<char>> {
    lines_from(s, 0)
}

pub proof fn lemma_line_end_bounds(s: Seq<char>, i: int)
    requires
        0 <= i <= s.len(),
    ensures
        i <= line_end(s, i) <= s.len(),
        line_end(s, i) < s.len() ==> s[line_end(s, i)] == '\n',
        forall|k: int| i <= k < line_end(s, i) ==> s[k] != '\n',
    decreases s.len() - i,
{
    if i < s.len() && s[i] != '\n' {
        lemma_line_end_bounds(s, i + 1);
    }
}

proof fn lemma_line_end_concat(a: Seq<char>, b: Seq<char>, i: int)
    requires
        0 <= i <= a.len(),
    ensures
        line_end(a + seq!['\n'] + b, i) == line_end(a, i),
    decreases a.len() - i,
{
    let s = a + seq!['\n'] + b;
    if i < a.len() {
        assert(s[i] == a[i]);
        if a[i] != '\n' {
            lemma_line_end_concat(a, b, i + 1);
        }
    } else {
        assert(s[i] == '\n');
    }
}

proof fn lemma_line_end_shift(p: Seq<char>, b: Seq<char>, j: int)
    requires
        0 <= j <= b.len(),
    ensures
        line_end(p + b, p.len() + j) == p.len() + line_end(b, j),
    decreases b.len() - j,
{
    let s = p + b;
    if j < b.len() {
        assert(s[p.len() + j] == b[j]);
        if b[j] != '\n' {
            lemma_line_end_shift(p, b, j + 1);
        }
    }
}

proof fn lemma_lines_shift(p: Seq<char>, b: Seq<char>, j: int)
    requires
        0 <= j <= b.len(),
    ensures
        lines_from(p + b, p.len() + j) == lines_from(b, j),
    decreases b.len() - j,
{
    let s = p + b;
    lemma_line_end_shift(p, b, j);
    lemma_line_end_bounds(b, j);
    let e = line_end(b, j);
    assert(s.subrange(p.len() + j, p.len() + e) =~= b.subrange(j, e));
    assert(s.subrange(p.len() + j, s.len() as int) =~= b.subrange(j, b.len() as int));
    if e < b.len() {
        lemma_lines_shift(p, b, e + 1);
    }
}

/// Splitting at a line feed: the lines of `a`, then those of `b`.
pub proof fn lemma_lines_concat(a: Seq<char>, b: Seq<char>, i: int)
    requires
        0 <= i <= a.len(),
    ensures
        lines_from(a + seq!['\n'] + b, i) == lines_from(a, i) + lines(b),
    decreases a.len() - i,
{
    let s = a + seq!['\n'] + b;
    lemma_line_end_concat(a, b, i);
    lemma_line_end_bounds(a, i);
    let e = line_end(a, i);
    assert(s.subrange(i, e) =~= a.subrange(i, e));
    if e < a.len() {
        lemma_lines_concat(a, b, e + 1);
        assert(lines_from(s, i) == seq![a.subrange(i, e)] + lines_from(s, e + 1));
        assert(lines_from(a, i) == seq![a.subrange(i, e)] + lines_from(a, e + 1));
        assert(seq![a.subrange(i, e)] + (lines_from(a, e + 1) + lines(b)) =~= (seq![a.subrange(i, e)] + lines_from(a, e + 1)) + lines(b));
    } else {
        assert(s =~= (a + seq!['\n']) + b);
        lemma_lines_shift(a + seq!['\n'], b, 0);
        assert(a.subrange(i, a.len() as int) =~= a.subrange(i, e));
    }
}

/// A text without line feeds is a single line.
pub proof fn lemma_single_line(c: Seq<char>)
    requires
        forall|k: int| 0 <= k < c.len() ==> c[k] != '\n',
    ensures
        lines(c) == seq![c],
{
    assert(line_end(c, 0) == c.len()) by {
        lemma_line_end_bounds(c, 0);
    }
    assert(c.subrange(0, c.len() as int) =~= c);
}

/// The position of the first line feed in `v` at or after `i`, or `v.len()`.
pub fn line_end_exec(v: &Vec<char>, i: usize) -> (r: usize)
    requires
        i <= v.len(),
    ensures
        r == line_end(v@, i as int),
{
    let mut j = i;
    while j < v.len() && v[j] != '\n'
        invariant
            i <= j <= v.len(),
            line_end(v@, i as int) == line_end(v@, j as int),
        decreases v.len() - j,
    {
        j = j + 1;
    }
    j
}

/// `s` with each pair of line feeds, taken from left to right, made one,
/// as `str::replace("\n\n", "\n")` does.
pub open spec fn collapse_blank_lines(s: Seq<char>) -> Seq<char>
    decreases s.len(),
{
    if s.len() == 0 {
        s
    } else if s.len() >= 2 && s[0] == '\n' && s[1] == '\n' {
        seq!['\n'] + collapse_blank_lines(s.subrange(2, s.len() as int))
    } else {
        seq![s[0]] + collapse_blank_lines(s.drop_first())
    }
}

pub fn collapse_blank_lines_exec(s: &str) -> (r: String)
    ensures
        r@ == collapse_blank_lines(s@),
{
    let v = chars_of(s);
    let mut r = String::new();
    let mut i: usize = 0;
    assert(v@.subrange(0, v.len() as int) =~= v@);
    assert(r@ + collapse_blank_lines(v@) =~= collapse_blank_lines(v@));
    while i < v.len()
        invariant
            i <= v.len(),
            v@ == s@,
            r@ + collapse_blank_lines(v@.subrange(i as int, v.len() as int)) == collapse_blank_lines(v@),
        decreases v.len() - i,
    {
        let ghost rest = v@.subrange(i as int, v.len() as int);
        if i + 1 < v.len() && v[i] == '\n' && v[i + 1] == '\n' {
            assert(rest.subrange(2, rest.len() as int) =~= v@.subrange(i + 2, v.len() as int));
            r.push('\n');
            assert(r@ + collapse_blank_lines(v@.subrange(i + 2, v.len() as int)) =~= (r@.drop_last()) + collapse_blank_lines(rest));
            i = i + 2;
        } else {
            assert(rest.drop_first() =~= v@.subrange(i + 1, v.len() as int));
            r.push(v[i]);
            assert(r@ + collapse_blank_lines(v@.subrange(i + 1, v.len() as int)) =~= (r@.drop_last()) + collapse_blank_lines(rest));
            i = i + 1;
        }
    }
    assert(v@.subrange(i as int, v.len() as int) =~= Seq::<char>::empty());
    assert(r@ + Seq::<char>::empty() =~= r@);
    r
}

/// Whether two character vectors hold the same characters.
pub fn same_chars(a: &Vec<char>, b: &Vec<char>) -> (r: bool)
    ensures
        r == (a@ == b@),
{
    if a.len() != b.len() {
        return false;
    }
    let mut i: usize = 0;
    while i < a.len()
        invariant
            i <= a.len() == b.len(),
            forall|j: int| 0 <= j < i ==> a@[j] == b@[j],
        decreases a.len() - i,
    {
        if a[i] != b[i] {
            return false;
        }
        i = i + 1;
    }
    assert(a@ =~= b@);
    true
}

/// The characters of a string slice, in order.
pub fn chars_of(s: &str) -> (r: Vec<char>)
    ensures
        r@ == s@,
{
    let mut r: Vec<char> = Vec::new();
    for c in it: s.chars()
        invariant
            it.seq() == s@,
            r@ == it.seq().take(it.index() as int),
    {
        r.push(c);
    }
    r
}

/// The characters `v[lo..hi]` as a new string.
pub fn string_of(v: &Vec<char>, lo: usize, hi: usize) -> (r: String)
    requires
        lo <= hi <= v.len(),
    ensures
        r@ == v@.subrange(lo as int, hi as int),
{
    let mut r = String::new();
    let mut i = lo;
    while i < hi
        invariant
            lo <= i <= hi <= v.len(),
            r@ == v@.subrange(lo as int, i as int),
        decreases hi - i,
    {
        r.push(v[i]);
        assert(v@.subrange(lo as int, i + 1) == v@.subrange(lo as int, i as int).push(v@[i as int]));
        i = i + 1;
    }
    r
}

/// Whether `needle` stands in `v` at position `i`, not reaching past `hi`.
pub fn occurs_at_exec(v: &Vec<char>, hi: usize, needle: &Vec<char>, i: usize) -> (r: bool)
    requires
        i <= hi <= v.len(),
    ensures
        r == occurs_at(v@.subrange(0, hi as int), needle@, i as int),
{
    let ghost h = v@.subrange(0, hi as int);
    if needle.len() > hi - i {
        return false;
    }
    let mut j: usize = 0;
    while j < needle.len()
        invariant
            i + needle.len() <= hi <= v.len(),
            j <= needle.len(),
            h == v@.subrange(0, hi as int),
            forall|k: int| 0 <= k < j ==> v@[i + k] == needle@[k],
        decreases needle.len() - j,
    {
        if v[i + j] != needle[j] {
            assert(h.subrange(i as int, i + needle.len())[j as int] != needle@[j as int]);
            return false;
        }
        j = j + 1;
    }
    assert(h.subrange(i as int, i + needle.len()) =~= needle@);
    true
}

/// Whether `needle` is a substring of `v[lo..hi]`.
pub fn contains_exec(v: &Vec<char>, lo: usize, hi: usize, needle: &Vec<char>) -> (r: bool)
    requires
        lo <= hi <= v.len(),
    ensures
        r == contains(v@.subrange(lo as int, hi as int), needle@),
{
    let ghost s = v@.subrange(lo as int, hi as int);
    let mut i = lo;
    loop
        invariant
            lo <= i <= hi <= v.len(),
            s == v@.subrange(lo as int, hi as int),
            forall|k: int| 0 <= k < i - lo ==> !occurs_at(s, needle@, k),
        decreases hi - i,
    {
        let found = occurs_at_exec(v, hi, needle, i);
        proof {
            let h = v@.subrange(0, hi as int);
            if i + needle@.len() <= hi {
                assert(s.subrange(i - lo, i - lo + needle@.len()) =~= h.subrange(
                    i as int,
                    i + needle@.len(),
                ));
            }
        }
        if found {
            assert(occurs_at(s, needle@, i - lo));
            return true;
        }
        if i == hi {
            assert forall|k: int| occurs_at(s, needle@, k) implies false by {
                assert(0 <= k <= i - lo);
            }
            return false;
        }
        i = i + 1;
    }
}

/// Whether `v[lo..hi]` begins with `prefix`.
pub fn starts_with_exec(v: &Vec<char>, lo: usize, hi: usize, prefix: &Vec<char>) -> (r: bool)
    requires
        lo <= hi <= v.len(),
    ensures
        r == starts_with(v@.subrange(lo as int, hi as int), prefix@),
{
    let ghost s = v@.subrange(lo as int, hi as int);
    let r = occurs_at_exec(v, hi, prefix, lo);
    proof {
        let h = v@.subrange(0, hi as int);
        if lo + prefix@.len() <= hi {
            assert(s.subrange(0, prefix@.len() as int) =~= h.subrange(
                lo as int,
                lo + prefix@.len(),
            ));
        }
    }
    r
}

/// The bounds of `v[lo..hi]` once whitespace is cut from both ends.
pub fn trim_bounds(v: &Vec<char>, lo: usize, hi: usize) -> (r: (usize, usize))
    requires
        lo <= hi <= v.len(),
    ensures
        lo <= r.0 <= r.1 <= hi,
        v@.subrange(r.0 as int, r.1 as int) == trim(v@.subrange(lo as int, hi as int)),
{
    let mut a = lo;
    while a < hi && is_space_char(v[a])
        invariant
            lo <= a <= hi <= v.len(),
            trim_start(v@.subrange(lo as int, hi as int)) == trim_start(
                v@.subrange(a as int, hi as int),
            ),
        decreases hi - a,
    {
        assert(v@.subrange(a as int, hi as int).drop_first() =~= v@.subrange(a + 1, hi as int));
        a = a + 1;
    }
    let mut b = hi;
    while b > a && is_space_char(v[b - 1])
        invariant
            lo <= a <= b <= hi <= v.len(),
            trim_end(v@.subrange(a as int, hi as int)) == trim_end(
                v@.subrange(a as int, b as int),
            ),
        decreases b - a,
    {
        assert(v@.subrange(a as int, b as int).drop_last() =~= v@.subrange(a as int, b - 1));
        b = b - 1;
    }
    (a, b)
}

} // verus!
