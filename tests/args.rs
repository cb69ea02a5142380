use imd::args::{pair_targets, ArgToken, Args, ArgsError};
use imd::target::IMDUser;

fn addr(s: &str) -> ArgToken {
    ArgToken::Address(s.to_string())
}

fn word(s: &str) -> ArgToken {
    ArgToken::Word(s.to_string())
}

#[test]
fn addresses_pair_with_following_hostnames() {
    let tokens = vec![addr("10.0.0.1"), word("one"), addr("10.0.0.2"), addr("10.0.0.3"), word("three")];
    let targets = pair_targets(&tokens).unwrap();
    let got: Vec<(String, Option<String>)> =
        targets.iter().map(|t| (t.ip_address().clone(), t.hostname().clone())).collect();
    assert_eq!(
        got,
        vec![
            ("10.0.0.1".to_string(), Some("one".to_string())),
            ("10.0.0.2".to_string(), None),
            ("10.0.0.3".to_string(), Some("three".to_string())),
        ]
    );
}

#[test]
fn trailing_address_is_kept() {
    let targets = pair_targets(&vec![addr("10.0.0.1"), addr("10.0.0.2")]).unwrap();
    assert_eq!(targets.len(), 2);
    assert_eq!(targets[1].hostname(), &None);
}

#[test]
fn hostname_without_address_is_invalid() {
    assert!(matches!(pair_targets(&vec![word("box")]), Err(ArgsError::InvalidArgs)));
    assert!(matches!(
        pair_targets(&vec![addr("10.0.0.1"), word("a"), word("b")]),
        Err(ArgsError::InvalidArgs)
    ));
}

#[test]
fn no_target_is_an_error() {
    assert!(matches!(pair_targets(&Vec::new()), Err(ArgsError::NoArgs)));
}

#[test]
fn args_need_root() {
    let user = IMDUser::new(1000, "op".to_string(), 1000);
    assert!(matches!(Args::new(&vec![addr("10.0.0.1")], 1000, user.clone()), Err(ArgsError::NotSudo)));
    assert!(matches!(Args::new(&Vec::new(), 1000, user.clone()), Err(ArgsError::NoArgs)));
    let a = Args::new(&vec![addr("10.0.0.1")], 0, user).unwrap();
    assert_eq!(a.machines().len(), 1);
    assert_eq!(a.real_user().name(), "op");
    assert!(ArgsError::NotSudo.as_str().contains("root permissions"));
}
