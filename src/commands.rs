//! The commands run against a target, and how their output tells a failure.
use vstd::prelude::*;
use crate::text::{chars_of, contains, contains_exec};

verus! {

/// A failure that a command reports in its output rather than by failing to run.
#[derive(Debug, Clone, Copy, PartialEq, Eq, Structural)]
pub enum DiscoveryError {
    Connection,
}

impl DiscoveryError {
    pub fn as_str(&self) -> (r: &'static str)
        ensures
            r@ == "Could not connect to host"@,
    {
        match self {
            DiscoveryError::Connection => "Could not connect to host",
        }
    }
}

#[derive(Debug, Clone, Copy, PartialEq, Eq, Structural)]
pub enum DiscoveryCommand {
    NmapAllTCP,
    Ping,
}

pub open spec fn str_views(v: Seq<&str>) -> Seq<Seq<char>> {
    v.map_values(|s: &str| s@)
}

impl DiscoveryCommand {
    /// The program the command runs.
    pub open spec fn cli_spec(self) -> Seq<char> {
        match self {
            DiscoveryCommand::NmapAllTCP => "nmap"@,
            DiscoveryCommand::Ping => "ping"@,
        }
    }

    /// The arguments of the command against `target`.
    pub open spec fn args_spec(self, target: Seq<char>) -> Seq<Seq<char>> {
        match self {
            DiscoveryCommand::NmapAllTCP => seq!["-p-"@, "-Pn"@, target],
            DiscoveryCommand::Ping => seq!["-c"@, "4"@, target],
        }
    }

    /// The texts whose presence in the output marks a failure.
    pub open spec fn failures_spec(self) -> Seq<Seq<char>> {
        match self {
            DiscoveryCommand::NmapAllTCP => seq![],
            DiscoveryCommand::Ping => seq!["100% packet loss"@, "100.0% packet loss"@],
        }
    }

    /// The output `out` holds one of the failure marks.
    pub open spec fn reports_failure(self, out: Seq<char>) -> bool {
        exists|i: int| 0 <= i < self.failures_spec().len() && contains(out, #[trigger] self.failures_spec()[i])
    }

    pub fn args<'a>(&'a self, target: &'a str) -> (r: Vec<&'a str>)
        ensures
            str_views(r@) == self.args_spec(target@),
    {
        let r = match self {
            DiscoveryCommand::Ping => vec!["-c", "4", target],
            DiscoveryCommand::NmapAllTCP => vec!["-p-", "-Pn", target],
        };
        assert(str_views(r@) =~= self.args_spec(target@));
        r
    }

    pub fn cli(&self) -> (r: &'static str)
        ensures
            r@ == self.cli_spec(),
    {
        match self {
            DiscoveryCommand::Ping => "ping",
            DiscoveryCommand::NmapAllTCP => "nmap",
        }
    }

    pub fn failures(&self) -> (r: Vec<&'static str>)
        ensures
            str_views(r@) == self.failures_spec(),
    {
        let r = match self {
            DiscoveryCommand::Ping => vec!["100% packet loss", "100.0% packet loss"],
            DiscoveryCommand::NmapAllTCP => vec![],
        };
        assert(str_views(r@) =~= self.failures_spec());
        r
    }

    /// Whether the output of this command reports a failure.
    pub fn output_fails(&self, output: &str) -> (r: bool)
        ensures
            r == self.reports_failure(output@),
    {
        let v = chars_of(output);
        let failures = self.failures();
        let mut i: usize = 0;
        while i < failures.len()
            invariant
                i <= failures.len(),
                v@ == output@,
                str_views(failures@) == self.failures_spec(),
                forall|k: int| 0 <= k < i ==> !contains(output@, #[trigger] self.failures_spec()[k]),
            decreases failures.len() - i,
        {
            let mark = chars_of(failures[i]);
            assert(mark@ == self.failures_spec()[i as int]);
            if contains_exec(&v, 0, v.len(), &mark) {
                assert(v@.subrange(0, v@.len() as int) =~= v@);
                return true;
            }
            assert(v@.subrange(0, v@.len() as int) =~= v@);
            i = i + 1;
        }
        false
    }

    /// The output of this command, or `how_to_fail` where the output
    /// reports a failure.
    pub fn command_custom_failure(&self, output: String, how_to_fail: DiscoveryError) -> (r: Result<String, DiscoveryError>)
        ensures
            self.reports_failure(output@) ==> r == Err::<String, DiscoveryError>(how_to_fail),
            !self.reports_failure(output@) ==> r == Ok::<String, DiscoveryError>(output),
    {
        if self.output_fails(output.as_str()) {
            Err(how_to_fail)
        } else {
            Ok(output)
        }
    }
}

} // verus!
