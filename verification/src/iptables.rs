//! The handle on one family of the firewall tool, and the operations it
//! offers. Each operation is returned as a value to be carried out: see
//! [`crate::command`].
use crate::failure::{Failure, FailureView};
use crate::outcome::Outcome;
use crate::pattern::texts;
use crate::text::{decode_lossy, same, utf8_lossy};
use crate::version::{
    is_after, parse_version, supports_check, supports_wait, version_in, Triple,
};
use vstd::prelude::*;
use vstd::string::StringExecFns;

verus! {

/// The name by which a Linux host calls itself.
pub const LINUX: &'static str = "linux";

/// The handle on the tool: which programs to call, and what the installed
/// version can do.
#[derive(Debug, Clone, Copy, PartialEq, Eq)]
pub struct IPTables {
    /// The program that changes and lists rules.
    pub cmd: &'static str,
    /// The program that dumps rules.
    pub save_cmd: &'static str,
    /// The program that loads dumped rules.
    pub restore_cmd: &'static str,
    /// Whether the tool can check for a rule itself (`-C`).
    pub has_check: bool,
    /// Whether the tool can wait for other instances itself (`--wait`).
    pub has_wait: bool,
    /// The major version.
    pub v_major: isize,
    /// The minor version.
    pub v_minor: isize,
    /// The patch version.
    pub v_patch: isize,
}

/// The first step of making a handle: which programs the family has, and so
/// which one to ask for its version.
#[derive(Debug, Clone, Copy, PartialEq, Eq)]
pub struct Probe {
    /// The program that changes and lists rules.
    pub cmd: &'static str,
    /// The program that dumps rules.
    pub save_cmd: &'static str,
    /// The program that loads dumped rules.
    pub restore_cmd: &'static str,
}

/// The programs of a family: the one for rules, the one that dumps, the one
/// that loads.
pub open spec fn programs(is_ipv6: bool) -> (Seq<char>, Seq<char>, Seq<char>) {
    if is_ipv6 {
        ("ip6tables"@, "ip6tables-save"@, "ip6tables-restore"@)
    } else {
        ("iptables"@, "iptables-save"@, "iptables-restore"@)
    }
}

impl Probe {
    /// The programs that the probe names.
    pub open spec fn names(self) -> (Seq<char>, Seq<char>, Seq<char>) {
        (self.cmd@, self.save_cmd@, self.restore_cmd@)
    }
}

impl IPTables {
    /// The programs that the handle names.
    pub open spec fn names(self) -> (Seq<char>, Seq<char>, Seq<char>) {
        (self.cmd@, self.save_cmd@, self.restore_cmd@)
    }

    /// The version that the handle records.
    pub open spec fn version(self) -> Triple {
        (self.v_major as int, self.v_minor as int, self.v_patch as int)
    }

    /// The two abilities are those of the recorded version.
    pub open spec fn consistent(self) -> bool {
        &&& self.has_check == supports_check(self.version())
        &&& self.has_wait == supports_wait(self.version())
    }
}

/// Starts a handle on the IPv4 tool. `os` is the host's operating system as
/// `std::env::consts::OS` names it; any but Linux is refused before anything
/// is run.
pub fn new(os: &str) -> (r: Result<Probe, Failure>)
    ensures
        match r {
            Ok(probe) => os@ == LINUX@ && probe.names() == programs(false),
            Err(e) => os@ != LINUX@ && e@ == FailureView::UnsupportedPlatform,
        },
{
    new_with_protocol(os, false)
}

/// Starts a handle on the IPv4 or the IPv6 tool. Any host but Linux is
/// refused before anything is run.
pub fn new_with_protocol(os: &str, is_ipv6: bool) -> (r: Result<Probe, Failure>)
    ensures
        match r {
            Ok(probe) => os@ == LINUX@ && probe.names() == programs(is_ipv6),
            Err(e) => os@ != LINUX@ && e@ == FailureView::UnsupportedPlatform,
        },
{
    if !same(os, LINUX) {
        return Err(Failure::UnsupportedPlatform);
    }
    if is_ipv6 {
        Ok(Probe { cmd: "ip6tables", save_cmd: "ip6tables-save", restore_cmd: "ip6tables-restore" })
    } else {
        Ok(Probe { cmd: "iptables", save_cmd: "iptables-save", restore_cmd: "iptables-restore" })
    }
}

impl Probe {
    /// The arguments with which [`Probe::cmd`] reports its version.
    pub fn command(&self) -> (args: Vec<String>)
        ensures
            texts(args@) == seq!["--version"@],
    {
        let mut args: Vec<String> = Vec::new();
        args.push(String::from_str("--version"));
        assert(texts(args@) =~= seq!["--version"@]);
        args
    }

    /// The handle for version `major.minor.patch` of the tool.
    pub fn handle(&self, major: i32, minor: i32, patch: i32) -> (ipt: IPTables)
        ensures
            ipt.names() == self.names(),
            ipt.version() == (major as int, minor as int, patch as int),
            ipt.consistent(),
    {
        IPTables {
            cmd: self.cmd,
            save_cmd: self.save_cmd,
            restore_cmd: self.restore_cmd,
            has_check: is_after(major, minor, patch, 10),
            has_wait: is_after(major, minor, patch, 19),
            v_major: major as isize,
            v_minor: minor as isize,
            v_patch: patch as isize,
        }
    }

    /// What the probe concludes from a version report.
    pub open spec fn conclusion(self, report: Option<Outcome>) -> Result<Triple, FailureView> {
        match report {
            Some(outcome) => version_in(utf8_lossy(outcome.stdout@)),
            None => Err(FailureView::SpawnFailure),
        }
    }

    /// Makes the handle from what came of running [`Probe::cmd`] with
    /// [`Probe::command`]: `None` if it could not be started. The version is
    /// read from standard output; the exit code plays no part.
    pub fn conclude(&self, report: Option<Outcome>) -> (r: Result<IPTables, Failure>)
        ensures
            match r {
                Ok(ipt) => self.conclusion(report) == Ok::<Triple, FailureView>(
                    ipt.version(),
                ) && ipt.names() == self.names() && ipt.consistent(),
                Err(e) => self.conclusion(report) == Err::<Triple, FailureView>(
                    e@,
                ),
            },
    {
        match report {
            Some(outcome) => {
                let text = decode_lossy(&outcome.stdout);
                match parse_version(text.as_str()) {
                    Ok(v) => Ok(self.handle(v.0, v.1, v.2)),
                    Err(e) => Err(e),
                }
            },
            None => Err(Failure::SpawnFailure),
        }
    }
}

} // verus!
