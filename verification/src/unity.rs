//! What a Unity project needs decided before it is opened: the editor
//! version it asks for, where that editor lies, which solution file to
//! open and which folders under `Packages` are packages.

use crate::paths::{extension, extension_of, join, joined};
use crate::text::{
    option_text,
    chars_of, find_line_end, find_second_word, line_end, second_word, starts_with,
};
use vstd::prelude::*;
use vstd::string::{StrSliceExecFns, StringExecFns};

verus! {

/// Whether a line starts at `at`: at the start of the text and after
/// every line feed.
pub open spec fn is_line_start(text: Seq<char>, at: int) -> bool {
    0 <= at < text.len() && (at == 0 || text[at - 1] == '\n')
}

/// The line that starts at `at`, without its line feed.
pub open spec fn line_at(text: Seq<char>, at: int) -> Seq<char> {
    text.subrange(at, line_end(text, at))
}

/// The first line that starts at or after `from` and begins with the
/// editor-version key.
pub open spec fn version_line(text: Seq<char>, from: int) -> Option<Seq<char>>
    decreases text.len() - from,
{
    if 0 <= from < text.len() {
        if is_line_start(text, from) && "m_EditorVersion:"@.is_prefix_of(line_at(text, from)) {
            Some(line_at(text, from))
        } else {
            version_line(text, from + 1)
        }
    } else {
        None
    }
}

/// No line starts inside a line, so a search that finds nothing at the
/// start of a line goes on at the start of the next.
proof fn lemma_search_skips_line(text: Seq<char>, from: int, end: int)
    requires
        0 <= from <= end <= text.len(),
        forall|i: int| from <= i < end ==> text[i] != '\n',
    ensures
        version_line(text, from + 1) == version_line(text, end + 1),
    decreases end - from,
{
    if from < end {
        lemma_search_skips_line(text, from + 1, end);
        assert(!is_line_start(text, from + 1));
    }
}

/// The editor version that the text of a version file names: the second
/// word of its first line that begins with `m_EditorVersion:`.
pub open spec fn unity_version_in(text: Seq<char>) -> Option<Seq<char>> {
    match version_line(text, 0) {
        Some(line) => second_word(line),
        None => None,
    }
}

/// Reads the editor version out of the contents of a project's version
/// file. `None` where no line begins with `m_EditorVersion:`, or where the
/// first such line has no second word.
pub fn get_unity_version(contents: &str) -> (version: Option<String>)
    ensures
        option_text(version) == unity_version_in(contents@),
{
    let chars = chars_of(contents);
    let key = chars_of("m_EditorVersion:");
    let mut from: usize = 0;
    while from < chars.len()
        invariant
            from <= chars@.len(),
            chars@ == contents@,
            key@ == "m_EditorVersion:"@,
            version_line(chars@, 0) == version_line(chars@, from as int),
            from < chars@.len() ==> is_line_start(chars@, from as int),
        decreases chars@.len() - from,
    {
        let end = find_line_end(&chars, from);
        let line = contents.substring_char(from, end);
        let line_chars = chars_of(line);
        assert(line@ == line_at(chars@, from as int));
        if starts_with(&line_chars, &key) {
            return find_second_word(line);
        }
        proof {
            lemma_search_skips_line(chars@, from as int, end as int);
        }
        if end >= chars.len() {
            return None;
        }
        from = end + 1;
    }
    None
}

/// Where a project keeps the file that names its editor version.
pub fn version_file_path(project_path: &str) -> (path: String)
    ensures
        path@ == joined(joined(project_path@, "ProjectSettings"@), "ProjectVersion.txt"@),
{
    let settings = join(project_path, "ProjectSettings");
    join(settings.as_str(), "ProjectVersion.txt")
}

/// The path of the editor of `version` under `hub`, the folder that holds
/// the installed editors: `hub`, then the version, `Editor`, `Unity.exe`.
pub open spec fn editor_path_of(hub: Seq<char>, version: Seq<char>) -> Seq<char> {
    joined(joined(joined(hub, version), "Editor"@), "Unity.exe"@)
}

/// Where the editor of version `unity_version` lies under the folder that
/// holds the installed editors.
pub fn get_unity_editor_path(unity_hub_path: String, unity_version: &str) -> (path: String)
    ensures
        path@ == editor_path_of(unity_hub_path@, unity_version@),
{
    let version_dir = join(unity_hub_path.as_str(), unity_version);
    let editor_dir = join(version_dir.as_str(), "Editor");
    join(editor_dir.as_str(), "Unity.exe")
}

/// The folder of a project that holds its packages.
pub fn packages_path(project_path: &str) -> (path: String)
    ensures
        path@ == joined(project_path@, "Packages"@),
{
    join(project_path, "Packages")
}

/// Where a package folder keeps its manifest.
pub fn package_manifest_path(package_path: &str) -> (path: String)
    ensures
        path@ == joined(package_path@, "package.json"@),
{
    join(package_path, "package.json")
}

/// What was found of one entry under the packages folder.
pub struct PackageEntry {
    /// The path of the entry.
    pub path: String,
    /// Whether the entry is a directory.
    pub is_dir: bool,
    /// Whether a manifest lies in it.
    pub has_manifest: bool,
}

/// Whether an entry is a package: a directory that holds a manifest.
pub open spec fn is_package(entry: PackageEntry) -> bool {
    entry.is_dir && entry.has_manifest
}

/// The paths of the packages among `entries`, in the order of the entries.
pub open spec fn packages_among(entries: Seq<PackageEntry>) -> Seq<Seq<char>>
    decreases entries.len(),
{
    if entries.len() == 0 {
        Seq::empty()
    } else if is_package(entries.last()) {
        packages_among(entries.drop_last()).push(entries.last().path@)
    } else {
        packages_among(entries.drop_last())
    }
}

/// The packages among the entries of the packages folder: every entry
/// that is a directory with a manifest, and no other, in the order found.
pub fn get_packages(entries: &Vec<PackageEntry>) -> (packages: Vec<String>)
    ensures
        crate::recent_projects::texts(packages@) == packages_among(entries@),
{
    let mut packages: Vec<String> = Vec::new();
    let mut i: usize = 0;
    assert(entries@.take(0) =~= Seq::<PackageEntry>::empty());
    while i < entries.len()
        invariant
            i <= entries@.len(),
            crate::recent_projects::texts(packages@) =~= packages_among(entries@.take(i as int)),
        decreases entries@.len() - i,
    {
        assert(entries@.take(i + 1).drop_last() =~= entries@.take(i as int));
        if entries[i].is_dir && entries[i].has_manifest {
            packages.push(entries[i].path.clone());
        }
        i += 1;
    }
    assert(entries@.take(entries@.len() as int) =~= entries@);
    packages
}

/// Whether `path` names a solution file: its extension is `sln`.
pub open spec fn is_solution(path: Seq<char>) -> bool {
    extension_of(path) == Some("sln"@)
}

/// Whether an extension is that of a solution file.
pub fn is_solution_extension(extension: &Option<String>) -> (matches: bool)
    ensures
        matches == (option_text(*extension) == Some("sln"@)),
{
    match extension {
        Some(extension) => *extension == String::from_str("sln"),
        None => false,
    }
}

/// The solution file to open among the entries of a project folder: the
/// first one whose extension is `sln`, or `None` where there is none.
pub fn find_solution(entries: &Vec<String>) -> (solution: Option<String>)
    ensures
        match solution {
            Some(path) => exists|i: int|
                0 <= i < entries@.len() && is_solution(#[trigger] entries@[i]@) && path@
                    == entries@[i]@ && forall|j: int|
                    0 <= j < i ==> !is_solution(#[trigger] entries@[j]@),
            None => forall|i: int| 0 <= i < entries@.len() ==> !is_solution(#[trigger] entries@[i]@),
        },
{
    let mut i: usize = 0;
    while i < entries.len()
        invariant
            i <= entries@.len(),
            forall|j: int| 0 <= j < i ==> !is_solution(#[trigger] entries@[j]@),
        decreases entries@.len() - i,
    {
        let found = is_solution_extension(&extension(entries[i].as_str()));
        if found {
            assert(is_solution(entries@[i as int]@));
            return Some(entries[i].clone());
        }
        i += 1;
    }
    None
}

/// The editor to start for a project, with the version it is of, given
/// the contents of the project's version file, or `None` where the file
/// could not be read. No editor is started where the file is missing or
/// names no version.
pub fn editor_for_project(unity_hub_path: String, version_file: Option<&str>) -> (editor: Option<
    (String, String),
>)
    ensures
        match version_file {
            Some(contents) => match unity_version_in(contents@) {
                Some(version) => editor.is_some() && editor.unwrap().0@ == version
                    && editor.unwrap().1@ == editor_path_of(unity_hub_path@, version),
                None => editor.is_none(),
            },
            None => editor.is_none(),
        },
{
    match version_file {
        Some(contents) => match get_unity_version(contents) {
            Some(version) => {
                let path = get_unity_editor_path(unity_hub_path, version.as_str());
                Some((version, path))
            },
            None => None,
        },
        None => None,
    }
}

} // verus!
