//! Checks made once, before any discovery: the privilege the process runs
//! with, and the wordlist given for content discovery.
use vstd::prelude::*;
use crate::error::PanicDiscoveryError;

verus! {

/// Relies on `nix::unistd::Uid::effective` (geteuid): the effective user id
/// of this process, as a raw id. Nothing is known of its value.
#[verifier::external_body]
fn effective_uid() -> (r: u32) {
    nix::unistd::Uid::effective().as_raw()
}

/// Relies on `std::path::Path::exists`: whether the path names something on
/// disk at the time of the call. Nothing is known of its value.
#[verifier::external_body]
fn path_exists(path: &str) -> (r: bool) {
    std::path::Path::new(path).exists()
}

/// Discovery changes file owners and so needs root, whose user id is zero.
pub fn require_root(euid: u32) -> (r: Result<(), PanicDiscoveryError>)
    ensures
        euid == 0 ==> r is Ok,
        euid != 0 ==> r == Err::<(), PanicDiscoveryError>(PanicDiscoveryError::NotRunAsRoot),
{
    if euid == 0 {
        Ok(())
    } else {
        Err(PanicDiscoveryError::NotRunAsRoot)
    }
}

/// Checks that this process runs as root.
pub fn effective_user() -> (r: Result<(), PanicDiscoveryError>)
    ensures
        r is Err ==> r == Err::<(), PanicDiscoveryError>(PanicDiscoveryError::NotRunAsRoot),
{
    require_root(effective_uid())
}

/// The wordlist path, accepted where it names something on disk.
pub fn wordlist_checked(wordlist: &str, exists: bool) -> (r: Result<String, PanicDiscoveryError>)
    ensures
        exists ==> (r matches Ok(w) && w@ == wordlist@),
        !exists ==> r == Err::<String, PanicDiscoveryError>(PanicDiscoveryError::InvalidWordlist),
{
    if !exists {
        return Err(PanicDiscoveryError::InvalidWordlist);
    }
    Ok(wordlist.to_owned())
}

/// Checks the wordlist path given on the command line against the disk.
pub fn wrap_wordlist_parse(wordlist: &str) -> (r: Result<String, PanicDiscoveryError>)
    ensures
        r matches Ok(w) ==> w@ == wordlist@,
        r is Err ==> r == Err::<String, PanicDiscoveryError>(PanicDiscoveryError::InvalidWordlist),
{
    wordlist_checked(wordlist, path_exists(wordlist))
}

} // verus!
