//! Finding the repository that a directory belongs to: the directory
//! itself, or else the one that holds it.

use crate::paths::{join, joined, parent_dir, parent_of};
use crate::recent_projects::texts;
use crate::text::option_text;
use vstd::prelude::*;
use vstd::string::StringExecFns;

verus! {

/// The directories in which a repository is looked for, nearest first:
/// `path`, then `parent`, the directory that holds it, where there is one.
pub open spec fn candidates_from(path: Seq<char>, parent: Option<Seq<char>>) -> Seq<Seq<char>> {
    match parent {
        Some(parent) => seq![path, parent],
        None => seq![path],
    }
}

/// A directory in which a repository was looked for, and whether one
/// was found there.
pub struct RepositoryProbe {
    /// The directory.
    pub path: String,
    /// Whether it holds a repository.
    pub is_repository: bool,
}

/// The entry whose presence makes `dir` a repository.
pub fn git_marker_path(dir: &str) -> (path: String)
    ensures
        path@ == joined(dir@, ".git"@),
{
    join(dir, ".git")
}

/// The directories to probe for a repository when `path` is opened,
/// given the directory that holds `path`, where there is one.
pub fn git_candidates_from(path: &str, parent: Option<String>) -> (candidates: Vec<String>)
    ensures
        texts(candidates@) == candidates_from(path@, option_text(parent)),
{
    let mut candidates: Vec<String> = Vec::new();
    candidates.push(String::from_str(path));
    let ghost given = option_text(parent);
    match parent {
        Some(parent) => {
            candidates.push(parent);
        },
        None => {},
    }
    assert(texts(candidates@) =~= candidates_from(path@, given));
    candidates
}

/// The directories to probe for a repository when `path` is opened,
/// nearest first.
pub fn git_candidates(path: &str) -> (candidates: Vec<String>)
    ensures
        texts(candidates@) == candidates_from(path@, parent_of(path@)),
{
    let parent = parent_dir(path);
    let candidates = git_candidates_from(path, parent);
    assert(texts(candidates@) =~= candidates_from(path@, parent_of(path@)));
    candidates
}

/// The repository to open: the first probed directory that holds one.
/// `None`, where none does, means that this step of a launch is left out.
pub fn choose_git_root(probes: &Vec<RepositoryProbe>) -> (root: Option<String>)
    ensures
        match root {
            Some(path) => exists|i: int|
                0 <= i < probes@.len() && (#[trigger] probes@[i]).is_repository && path@
                    == probes@[i].path@ && forall|j: int|
                    0 <= j < i ==> !(#[trigger] probes@[j]).is_repository,
            None => forall|i: int| 0 <= i < probes@.len() ==> !(#[trigger] probes@[i]).is_repository,
        },
{
    let mut i: usize = 0;
    while i < probes.len()
        invariant
            i <= probes@.len(),
            forall|j: int| 0 <= j < i ==> !(#[trigger] probes@[j]).is_repository,
        decreases probes@.len() - i,
    {
        if probes[i].is_repository {
            return Some(probes[i].path.clone());
        }
        i += 1;
    }
    None
}

} // verus!
