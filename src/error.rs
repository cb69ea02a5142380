use vstd::prelude::*;

verus! {

/// Errors that stop the program before any discovery starts.
#[derive(Debug, Clone, Copy, PartialEq, Eq, Structural)]
pub enum PanicDiscoveryError {
    InvalidIPAddress,
    InvalidWordlist,
    NotRunAsRoot,
}

impl PanicDiscoveryError {
    /// The text shown to the operator for this error.
    pub fn as_str(&self) -> (r: &'static str)
        ensures
            r@ == self.text(),
    {
        match self {
            PanicDiscoveryError::InvalidIPAddress => "The provided value does not contain a valid IP address",
            PanicDiscoveryError::InvalidWordlist => "The provided value is not a valid file",
            PanicDiscoveryError::NotRunAsRoot => "✕ imd must be run as root. Try `sudo !!` to retry that command with sudo",
        }
    }

    pub open spec fn text(&self) -> Seq<char> {
        match self {
            PanicDiscoveryError::InvalidIPAddress => "The provided value does not contain a valid IP address"@,
            PanicDiscoveryError::InvalidWordlist => "The provided value is not a valid file"@,
            PanicDiscoveryError::NotRunAsRoot => "✕ imd must be run as root. Try `sudo !!` to retry that command with sudo"@,
        }
    }
}

/// Errors that end one step of a target's discovery, or the discovery of
/// that target, while the other targets go on.
#[derive(Debug, Clone, Copy, PartialEq, Eq, Structural)]
pub enum RecoverableDiscoveryError {
    AlreadyInHost,
    Connection,
    DirectoryExists,
    Services,
}

impl RecoverableDiscoveryError {
    /// The text shown to the operator for this error.
    pub fn as_str(&self) -> (r: &'static str)
        ensures
            r@ == self.text(),
    {
        match self {
            RecoverableDiscoveryError::AlreadyInHost => "〰 Entry already in '/etc/hosts'",
            RecoverableDiscoveryError::Connection => "✕ Could not ping host, it might be down",
            RecoverableDiscoveryError::DirectoryExists => "〰 Directory already exists",
            RecoverableDiscoveryError::Services => "✕ Could not discover host services, ending discovery",
        }
    }

    pub open spec fn text(&self) -> Seq<char> {
        match self {
            RecoverableDiscoveryError::AlreadyInHost => "〰 Entry already in '/etc/hosts'"@,
            RecoverableDiscoveryError::Connection => "✕ Could not ping host, it might be down"@,
            RecoverableDiscoveryError::DirectoryExists => "〰 Directory already exists"@,
            RecoverableDiscoveryError::Services => "✕ Could not discover host services, ending discovery"@,
        }
    }
}

} // verus!
