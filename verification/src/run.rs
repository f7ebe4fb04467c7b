//! The course of one run: three passes, each finished before the next
//! begins, and what the user is told along the way.

use crate::text::{decimal, decimal_text};
use vstd::prelude::*;
use vstd::string::StringExecFns;

verus! {

/// A pass of the run. The plugins' directories are in their final state
/// only when a pass is over, so no pass begins before the one before it has
/// collected all its outcomes.
#[derive(Debug, Clone, Copy, PartialEq, Eq)]
pub enum Pass {
    /// Remove what is installed and no longer declared.
    Cleanup,
    /// Install each declared plugin and bring it to its version.
    Install,
    /// Load each declared plugin into tmux.
    Source,
}

impl Pass {
    /// The place of the pass in the run.
    pub open spec fn rank(self) -> nat {
        match self {
            Pass::Cleanup => 0,
            Pass::Install => 1,
            Pass::Source => 2,
        }
    }

    /// The pass after this one, as a model.
    pub open spec fn following(self) -> Option<Pass> {
        match self {
            Pass::Cleanup => Some(Pass::Install),
            Pass::Install => Some(Pass::Source),
            Pass::Source => None,
        }
    }

    /// What tmux shows while the pass runs, as a model.
    pub open spec fn notice(self) -> Seq<char> {
        match self {
            Pass::Cleanup => " PLUX | Checking for orphaned plugins..."@,
            Pass::Install => " PLUX | Installing plugins..."@,
            Pass::Source => " PLUX | Sourcing plugins..."@,
        }
    }

    /// For how many milliseconds tmux shows the notice, as a model.
    pub open spec fn notice_ms(self) -> u32 {
        match self {
            Pass::Cleanup => 1000,
            Pass::Install => 20000,
            Pass::Source => 1000,
        }
    }

    /// The pass that a run begins with.
    pub fn first() -> (pass: Pass)
        ensures
            pass == Pass::Cleanup,
            pass.rank() == 0,
    {
        Pass::Cleanup
    }

    /// The pass after this one; none after the last.
    pub fn next(self) -> (r: Option<Pass>)
        ensures
            r == self.following(),
            r matches Some(later) ==> later.rank() == self.rank() + 1,
            r is None <==> self == Pass::Source,
    {
        match self {
            Pass::Cleanup => Some(Pass::Install),
            Pass::Install => Some(Pass::Source),
            Pass::Source => None,
        }
    }

    /// What tmux shows while the pass runs.
    pub fn announcement(self) -> (r: &'static str)
        ensures
            r@ == self.notice(),
    {
        match self {
            Pass::Cleanup => " PLUX | Checking for orphaned plugins...",
            Pass::Install => " PLUX | Installing plugins...",
            Pass::Source => " PLUX | Sourcing plugins...",
        }
    }

    /// For how many milliseconds tmux shows the announcement.
    pub fn announcement_ms(self) -> (r: u32)
        ensures
            r == self.notice_ms(),
    {
        match self {
            Pass::Cleanup => 1000,
            Pass::Install => 20000,
            Pass::Source => 1000,
        }
    }
}

/// The banner of the program in the version `version`.
pub open spec fn banner_text(version: Seq<char>) -> Seq<char> {
    " plux v"@ + version + " - tmux plugin manager"@
}

/// What tmux shows when the run is over, with `count` plugins declared.
pub open spec fn finish_notice(count: nat) -> Seq<char> {
    if count > 0 {
        "Plux completed! "@ + decimal_text(count) + " plugin(s) loaded"@
    } else {
        "Plux completed! No plugins configured yet"@
    }
}

/// What is printed when the run is over: an empty line, the word of
/// success, and the number of plugins or where to declare some.
pub open spec fn finish_lines(count: nat, spec_path: Seq<char>) -> Seq<Seq<char>> {
    seq![
        Seq::empty(),
        "Plux completed successfully!"@,
        if count > 0 {
            "  "@ + decimal_text(count) + " plugin(s) loaded and sourced"@
        } else {
            "  No plugins configured. Add plugins to "@ + spec_path + " to get started."@
        },
    ]
}

/// The banner of the program in the version `version`.
pub fn banner(version: &str) -> (r: String)
    ensures
        r@ == banner_text(version@),
{
    let mut out = String::from_str(" plux v");
    out.append(version);
    out.append(" - tmux plugin manager");
    out
}

/// What tmux shows when the run is over, with `plugin_count` plugins
/// declared.
pub fn completion_message(plugin_count: usize) -> (r: String)
    ensures
        r@ == finish_notice(plugin_count as nat),
{
    if plugin_count > 0 {
        let number = decimal(plugin_count as u64);
        let mut out = String::from_str("Plux completed! ");
        out.append(number.as_str());
        out.append(" plugin(s) loaded");
        out
    } else {
        String::from_str("Plux completed! No plugins configured yet")
    }
}

/// What is printed when the run is over.
pub fn completion_lines(plugin_count: usize, spec_path: &str) -> (lines: Vec<String>)
    ensures
        lines.deep_view() == finish_lines(plugin_count as nat, spec_path@),
{
    let mut lines: Vec<String> = Vec::new();
    lines.push(String::new());
    lines.push(String::from_str("Plux completed successfully!"));
    if plugin_count > 0 {
        let number = decimal(plugin_count as u64);
        let mut line = String::from_str("  ");
        line.append(number.as_str());
        line.append(" plugin(s) loaded and sourced");
        lines.push(line);
    } else {
        let mut line = String::from_str("  No plugins configured. Add plugins to ");
        line.append(spec_path);
        line.append(" to get started.");
        lines.push(line);
    }
    assert(lines.deep_view() =~= finish_lines(plugin_count as nat, spec_path@));
    lines
}

} // verus!
