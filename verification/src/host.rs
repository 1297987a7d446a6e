//! The boundary to the operating system: what the caller reads from its
//! surroundings before a command runs, and what a command leaves for the
//! caller to do afterwards.

use crate::resolver::Candidate;
use vstd::prelude::*;

verus! {

/// What the caller has read from its surroundings before it runs a command.
#[derive(Debug, PartialEq, Eq)]
pub struct Host {
    /// The working directory, or the reason why it cannot be told.
    pub cwd: Result<String, String>,
    /// The home directory, where the environment names one.
    pub home: Option<String>,
    /// The search-path probes for the name of the command.
    pub command_candidates: Vec<Candidate>,
    /// The search-path probes for the first argument that is left when the
    /// redirections are taken out.
    pub argument_candidates: Vec<Candidate>,
}

/// What a command leaves for the caller to do, which alone can reach the
/// operating system.
#[derive(Clone, Debug, PartialEq, Eq)]
pub enum HostAction {
    /// Nothing.
    Nothing,
    /// Make this directory the working directory.
    ChangeDir(String),
    /// Read this file into the history log.
    LoadHistory(String),
    /// Start this program with these arguments and wait for it.
    Spawn { program: String, args: Vec<String> },
}

/// A `HostAction` as a plain value.
pub enum HostActionView {
    Nothing,
    ChangeDir(Seq<char>),
    LoadHistory(Seq<char>),
    Spawn { program: Seq<char>, args: Seq<Seq<char>> },
}

impl View for HostAction {
    type V = HostActionView;

    open spec fn view(&self) -> HostActionView {
        match *self {
            HostAction::Nothing => HostActionView::Nothing,
            HostAction::ChangeDir(dir) => HostActionView::ChangeDir(dir@),
            HostAction::LoadHistory(path) => HostActionView::LoadHistory(path@),
            HostAction::Spawn { program, args } => HostActionView::Spawn {
                program: program@,
                args: args.deep_view(),
            },
        }
    }
}

} // verus!
