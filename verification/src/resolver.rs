//! Command resolution: a name is a builtin, an executable found on the
//! search path, or unknown.

use crate::builtins::Builtin;
use vstd::prelude::*;

verus! {

/// What a probe of one search-path entry found: the path that the entry
/// gives for a name, whether a regular file is there, and its permission
/// bits.
#[derive(Clone, Debug, PartialEq, Eq)]
pub struct Candidate {
    pub path: String,
    pub is_file: bool,
    pub mode: u32,
}

/// The permission bits that allow execution by owner, group or others.
pub const EXECUTE_BITS: u32 = 0o111;

impl Candidate {
    /// A regular file with at least one execute bit set.
    pub open spec fn executable(self) -> bool {
        self.is_file && self.mode & EXECUTE_BITS != 0
    }

    /// Tells whether the probe found a regular file with an execute bit.
    pub fn is_executable(&self) -> (r: bool)
        ensures
            r == self.executable(),
    {
        self.is_file && self.mode & EXECUTE_BITS != 0
    }
}

/// The index of the first executable candidate, if there is one.
pub open spec fn first_executable(candidates: Seq<Candidate>) -> Option<int>
    decreases candidates.len(),
{
    if candidates.len() == 0 {
        None
    } else if candidates[0].executable() {
        Some(0)
    } else {
        match first_executable(candidates.drop_first()) {
            Some(i) => Some(i + 1),
            None => None,
        }
    }
}

/// `first_executable` finds an executable candidate that no executable one
/// precedes, and finds none only where none is executable.
pub proof fn lemma_first_executable(candidates: Seq<Candidate>)
    ensures
        match first_executable(candidates) {
            Some(i) => {
                &&& 0 <= i < candidates.len()
                &&& candidates[i].executable()
                &&& forall|j: int| 0 <= j < i ==> !candidates[j].executable()
            },
            None => forall|j: int| 0 <= j < candidates.len() ==> !candidates[j].executable(),
        },
    decreases candidates.len(),
{
    if candidates.len() > 0 && !candidates[0].executable() {
        let rest = candidates.drop_first();
        lemma_first_executable(rest);
        match first_executable(rest) {
            Some(i) => {
                assert forall|j: int| 0 <= j < i + 1 implies !candidates[j].executable() by {
                    if j > 0 {
                        assert(rest[j - 1] == candidates[j]);
                    }
                }
            },
            None => {
                assert forall|j: int| 0 <= j < candidates.len() implies !candidates[j].executable(
                ) by {
                    if j > 0 {
                        assert(rest[j - 1] == candidates[j]);
                    }
                }
            },
        }
    }
}

/// The path of the first candidate that is a regular file with an execute
/// bit, in the order of the search path; `None` where there is none.
pub fn get_executable_path(candidates: &Vec<Candidate>) -> (r: Option<String>)
    ensures
        match first_executable(candidates@) {
            Some(i) => r matches Some(p) && p@ == candidates@[i].path@,
            None => r is None,
        },
{
    let mut i: usize = 0;
    while i < candidates.len()
        invariant
            i <= candidates.len(),
            forall|j: int| 0 <= j < i ==> !candidates@[j].executable(),
        decreases candidates.len() - i,
    {
        if candidates[i].is_executable() {
            proof {
                lemma_first_executable(candidates@);
            }
            return Some(candidates[i].path.clone());
        }
        i = i + 1;
    }
    proof {
        lemma_first_executable(candidates@);
    }
    None
}

/// How a command name resolves.
#[derive(Clone, Debug, PartialEq, Eq)]
pub enum Resolution {
    /// The name of a command implemented inside the shell.
    Builtin(Builtin),
    /// An executable on the search path, with its path.
    External(String),
    /// Neither.
    NotFound,
}

/// Classifies a command name. Builtin names come first and shadow every
/// executable of the same name. Any other name resolves to the first
/// candidate, in search-path order, that is a regular file with an execute
/// bit, and to `NotFound` where no candidate is one.
pub fn resolve(name: &str, candidates: &Vec<Candidate>) -> (r: Resolution)
    ensures
        match Builtin::named(name@) {
            Some(b) => r == Resolution::Builtin(b),
            None => match first_executable(candidates@) {
                Some(i) => r matches Resolution::External(p) && p@ == candidates@[i].path@,
                None => r is NotFound,
            },
        },
        r matches Resolution::External(p) ==> exists|i: int|
            0 <= i < candidates.len() && #[trigger] candidates@[i].executable()
                && candidates@[i].path@ == p@,
{
    proof {
        lemma_first_executable(candidates@);
    }
    match Builtin::from_str(name) {
        Ok(b) => Resolution::Builtin(b),
        Err(_) => match get_executable_path(candidates) {
            Some(path) => Resolution::External(path),
            None => Resolution::NotFound,
        },
    }
}

/// One entry of a directory on the search path: its file name where that is
/// valid Unicode, whether it is a regular file, and its permission bits.
#[derive(Clone, Debug, PartialEq, Eq)]
pub struct DirEntry {
    pub name: Option<String>,
    pub is_file: bool,
    pub mode: u32,
}

impl DirEntry {
    /// A regular file with at least one execute bit set and a name that can
    /// be typed.
    pub open spec fn executable(self) -> bool {
        self.is_file && self.mode & EXECUTE_BITS != 0 && self.name is Some
    }
}

/// The names of the executable entries, in order.
pub open spec fn executable_names(entries: Seq<DirEntry>) -> Seq<Seq<char>>
    decreases entries.len(),
{
    if entries.len() == 0 {
        Seq::empty()
    } else {
        let rest = executable_names(entries.drop_last());
        if entries.last().executable() {
            rest.push(entries.last().name->0@)
        } else {
            rest
        }
    }
}

/// The names of the entries that are regular files with an execute bit and
/// have a Unicode name, in the order in which the entries were listed.
pub fn get_all_executables(entries: &Vec<DirEntry>) -> (names: Vec<String>)
    ensures
        names.deep_view() == executable_names(entries@),
{
    let mut names: Vec<String> = Vec::new();
    let mut i: usize = 0;
    while i < entries.len()
        invariant
            i <= entries.len(),
            names.deep_view() == executable_names(entries@.subrange(0, i as int)),
        decreases entries.len() - i,
    {
        let entry = &entries[i];
        assert(entries@.subrange(0, i + 1).drop_last() =~= entries@.subrange(0, i as int));
        if entry.is_file && entry.mode & EXECUTE_BITS != 0 {
            if let Some(name) = &entry.name {
                names.push(name.clone());
            }
        }
        i = i + 1;
    }
    assert(entries@.subrange(0, i as int) =~= entries@);
    names
}

} // verus!
