use imd::error::PanicDiscoveryError;
use imd::setup::{effective_user, require_root, wordlist_checked, wrap_wordlist_parse};

#[test]
fn root_is_required() {
    assert_eq!(require_root(0), Ok(()));
    assert_eq!(require_root(1000), Err(PanicDiscoveryError::NotRunAsRoot));
    let r = effective_user();
    assert!(r == Ok(()) || r == Err(PanicDiscoveryError::NotRunAsRoot));
}

#[test]
fn wordlist_must_exist() {
    assert_eq!(wordlist_checked("/w.txt", true), Ok("/w.txt".to_string()));
    assert_eq!(wordlist_checked("/w.txt", false), Err(PanicDiscoveryError::InvalidWordlist));
    assert_eq!(wrap_wordlist_parse("/"), Ok("/".to_string()));
    assert_eq!(
        wrap_wordlist_parse("/no/such/wordlist/anywhere.txt"),
        Err(PanicDiscoveryError::InvalidWordlist)
    );
}
