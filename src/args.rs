//! Pairing plain command-line words into targets: each address, optionally
//! followed by the hostname that goes with it.
use vstd::prelude::*;
use crate::target::{CLITarget, IMDUser};

verus! {

/// One command-line word, after the caller has tried to read it as an IP
/// address.
#[derive(Debug, Clone)]
pub enum ArgToken {
    /// A word that is an IP address, in the address's text form.
    Address(String),
    /// Any other word: a hostname.
    Word(String),
}

pub enum ArgTokenView {
    Address(Seq<char>),
    Word(Seq<char>),
}

impl View for ArgToken {
    type V = ArgTokenView;

    open spec fn view(&self) -> ArgTokenView {
        match self {
            ArgToken::Address(s) => ArgTokenView::Address(s@),
            ArgToken::Word(s) => ArgTokenView::Word(s@),
        }
    }
}

#[derive(Debug, Clone, Copy, PartialEq, Eq, Structural)]
pub enum ArgsError {
    InvalidArgs,
    NoArgs,
    NotSudo,
}

impl ArgsError {
    pub open spec fn text(self) -> Seq<char> {
        match self {
            ArgsError::InvalidArgs => "The provided arguments are invalid. Please run `sudo imd ip_address_1 [hostname_1] [ip_address_2 [hostname_2]]..."@,
            ArgsError::NoArgs => "imd needs at least one target. Please run sudo imd ip_address_1 [hostname_1] [ip_address_2 [hostname_2]]..."@,
            ArgsError::NotSudo => "imd must be run with root permissions. Please try running 'sudo !!'"@,
        }
    }

    pub fn as_str(&self) -> (r: &'static str)
        ensures
            r@ == self.text(),
    {
        match self {
            ArgsError::InvalidArgs => "The provided arguments are invalid. Please run `sudo imd ip_address_1 [hostname_1] [ip_address_2 [hostname_2]]...",
            ArgsError::NoArgs => "imd needs at least one target. Please run sudo imd ip_address_1 [hostname_1] [ip_address_2 [hostname_2]]...",
            ArgsError::NotSudo => "imd must be run with root permissions. Please try running 'sudo !!'",
        }
    }
}

/// The targets that the words `ts` name, as (address, hostname) pairs; `None`
/// where a hostname does not follow an address.
pub open spec fn pairing(ts: Seq<ArgTokenView>) -> Option<Seq<(Seq<char>, Option<Seq<char>>)>>
    decreases ts.len(),
{
    if ts.len() == 0 {
        Some(seq![])
    } else {
        match ts[0] {
            ArgTokenView::Word(_) => None,
            ArgTokenView::Address(ip) => if ts.len() >= 2 && ts[1] is Word {
                match pairing(ts.subrange(2, ts.len() as int)) {
                    Some(rest) => Some(seq![(ip, Some(ts[1]->Word_0))] + rest),
                    None => None,
                }
            } else {
                match pairing(ts.drop_first()) {
                    Some(rest) => Some(seq![(ip, None::<Seq<char>>)] + rest),
                    None => None,
                }
            },
        }
    }
}

pub open spec fn token_views(ts: Seq<ArgToken>) -> Seq<ArgTokenView> {
    ts.map_values(|t: ArgToken| t@)
}

pub open spec fn target_views(ts: Seq<CLITarget>) -> Seq<(Seq<char>, Option<Seq<char>>)> {
    ts.map_values(|t: CLITarget| (t.ip_spec(), t.hostname_spec()))
}

pub open spec fn prepend_all(
    acc: Seq<(Seq<char>, Option<Seq<char>>)>,
    r: Option<Seq<(Seq<char>, Option<Seq<char>>)>>,
) -> Option<Seq<(Seq<char>, Option<Seq<char>>)>> {
    match r {
        Some(rest) => Some(acc + rest),
        None => None,
    }
}

proof fn lemma_prepend_assoc(
    acc: Seq<(Seq<char>, Option<Seq<char>>)>,
    x: (Seq<char>, Option<Seq<char>>),
    r: Option<Seq<(Seq<char>, Option<Seq<char>>)>>,
)
    ensures
        prepend_all(acc, prepend_all(seq![x], r)) == prepend_all(acc.push(x), r),
{
    if let Some(rest) = r {
        assert(acc + (seq![x] + rest) =~= acc.push(x) + rest);
    }
}

/// The words still to pair: the address waiting for its hostname, if any,
/// then the words from position `i` on.
pub open spec fn remaining(ts: Seq<ArgTokenView>, i: int, last: Option<String>) -> Seq<ArgTokenView> {
    match last {
        Some(ip) => seq![ArgTokenView::Address(ip@)] + ts.subrange(i, ts.len() as int),
        None => ts.subrange(i, ts.len() as int),
    }
}

/// Pairs the words of the command line into targets: each address, followed
/// by its hostname where the next word is not an address.
pub fn pair_targets(tokens: &Vec<ArgToken>) -> (r: Result<Vec<CLITarget>, ArgsError>)
    ensures
        pairing(token_views(tokens@)) is None ==> r == Err::<Vec<CLITarget>, ArgsError>(ArgsError::InvalidArgs),
        pairing(token_views(tokens@)) == Some(Seq::<(Seq<char>, Option<Seq<char>>)>::empty())
            ==> r == Err::<Vec<CLITarget>, ArgsError>(ArgsError::NoArgs),
        (pairing(token_views(tokens@)) is Some && pairing(token_views(tokens@))->Some_0.len() > 0) ==> (r matches Ok(v) && target_views(v@) == pairing(token_views(tokens@))->Some_0),
{
    let ghost ts = token_views(tokens@);
    let mut acc: Vec<CLITarget> = Vec::new();
    let mut last: Option<String> = None;
    let mut i: usize = 0;
    assert(ts.subrange(0, ts.len() as int) =~= ts);
    assert(target_views(acc@) =~= Seq::<(Seq<char>, Option<Seq<char>>)>::empty());
    assert(prepend_all(target_views(acc@), pairing(ts)) =~= pairing(ts)) by {
        if let Some(rest) = pairing(ts) {
            assert(Seq::<(Seq<char>, Option<Seq<char>>)>::empty() + rest =~= rest);
        }
    }
    while i < tokens.len()
        invariant
            i <= tokens.len(),
            ts == token_views(tokens@),
            pairing(ts) == prepend_all(target_views(acc@), pairing(remaining(ts, i as int, last))),
        decreases tokens.len() - i,
    {
        let ghost before = remaining(ts, i as int, last);
        let ghost acc_before = target_views(acc@);
        assert(ts.subrange(i as int, ts.len() as int) =~= seq![ts[i as int]] + ts.subrange(i + 1, ts.len() as int));
        match &tokens[i] {
            ArgToken::Address(ip) => {
                match last {
                    Some(prev) => {
                        let ghost pv = prev@;
                        let t = CLITarget::from_parts(prev, None);
                        acc.push(t);
                        proof {
                            assert(before[1] is Address);
                            assert(before.drop_first() =~= ts.subrange(i as int, ts.len() as int));
                            assert(target_views(acc@) =~= acc_before.push((pv, None::<Seq<char>>)));
                            lemma_prepend_assoc(acc_before, (pv, None::<Seq<char>>), pairing(before.drop_first()));
                        }
                    },
                    None => {},
                }
                last = Some(ip.clone());
                assert(remaining(ts, i + 1, last) =~= ts.subrange(i as int, ts.len() as int));
            },
            ArgToken::Word(w) => {
                match last {
                    None => {
                        return Err(ArgsError::InvalidArgs);
                    },
                    Some(prev) => {
                        let ghost pv = prev@;
                        let ghost wv = w@;
                        let t = CLITarget::from_parts(prev, Some(w.clone()));
                        acc.push(t);
                        last = None;
                        proof {
                            assert(before[1] == ArgTokenView::Word(wv));
                            assert(before.subrange(2, before.len() as int) =~= ts.subrange(i + 1, ts.len() as int));
                            assert(target_views(acc@) =~= acc_before.push((pv, Some(wv))));
                            lemma_prepend_assoc(acc_before, (pv, Some(wv)), pairing(before.subrange(2, before.len() as int)));
                        }
                    },
                }
            },
        }
        i = i + 1;
    }
    match last {
        Some(prev) => {
            let ghost pv = prev@;
            let ghost acc_before = target_views(acc@);
            acc.push(CLITarget::from_parts(prev, None));
            proof {
                let rem = seq![ArgTokenView::Address(pv)];
                assert(remaining(ts, i as int, Some(prev)) =~= rem);
                assert(rem.drop_first() =~= Seq::<ArgTokenView>::empty());
                assert(pairing(Seq::<ArgTokenView>::empty()) == Some(Seq::<(Seq<char>, Option<Seq<char>>)>::empty()));
                assert(rem.len() == 1);
                assert(rem[0] == ArgTokenView::Address(pv));
                assert(pairing(rem) == Some(seq![(pv, None::<Seq<char>>)] + Seq::<(Seq<char>, Option<Seq<char>>)>::empty()));
                assert(seq![(pv, None::<Seq<char>>)] + Seq::<(Seq<char>, Option<Seq<char>>)>::empty() =~= seq![(pv, None::<Seq<char>>)]);
                assert(target_views(acc@) =~= acc_before.push((pv, None::<Seq<char>>)));
                assert(acc_before + seq![(pv, None::<Seq<char>>)] =~= acc_before.push((pv, None::<Seq<char>>)));
            }
        },
        None => {
            proof {
                assert(remaining(ts, i as int, None) =~= Seq::<ArgTokenView>::empty());
                assert(target_views(acc@) + Seq::<(Seq<char>, Option<Seq<char>>)>::empty() =~= target_views(acc@));
            }
        },
    }
    if acc.len() == 0 {
        assert(target_views(acc@) =~= Seq::<(Seq<char>, Option<Seq<char>>)>::empty());
        Err(ArgsError::NoArgs)
    } else {
        Ok(acc)
    }
}

/// The targets and the operator, as read from the command line.
pub struct Args {
    machines: Vec<CLITarget>,
    real_user: IMDUser,
}

impl Args {
    pub closed spec fn machines_spec(&self) -> Seq<CLITarget> {
        self.machines@
    }

    pub closed spec fn real_user_spec(&self) -> IMDUser {
        self.real_user
    }

    /// Reads the targets from `tokens` and requires root (`euid` zero); the
    /// errors come in that order.
    pub fn new(tokens: &Vec<ArgToken>, euid: u32, real_user: IMDUser) -> (r: Result<Args, ArgsError>)
        ensures
            pairing(token_views(tokens@)) is None ==> r == Err::<Args, ArgsError>(ArgsError::InvalidArgs),
            pairing(token_views(tokens@)) == Some(Seq::<(Seq<char>, Option<Seq<char>>)>::empty())
                ==> r == Err::<Args, ArgsError>(ArgsError::NoArgs),
            (pairing(token_views(tokens@)) is Some && pairing(token_views(tokens@))->Some_0.len() > 0) ==> (
                if euid != 0 {
                    r == Err::<Args, ArgsError>(ArgsError::NotSudo)
                } else {
                    r matches Ok(a) && target_views(a.machines_spec()) == pairing(token_views(tokens@))->Some_0 && a.real_user_spec() == real_user
                }),
    {
        let machines = match pair_targets(tokens) {
            Ok(m) => m,
            Err(e) => return Err(e),
        };
        if euid != 0 {
            return Err(ArgsError::NotSudo);
        }
        Ok(Args { machines, real_user })
    }

    pub fn machines(&self) -> (r: &Vec<CLITarget>)
        ensures
            r@ == self.machines_spec(),
    {
        &self.machines
    }

    pub fn real_user(&self) -> (r: &IMDUser)
        ensures
            *r == self.real_user_spec(),
    {
        &self.real_user
    }
}

} // verus!
