//! The registry of recently opened projects: an ordered list of directory
//! paths without repeats, holding at most [`CAPACITY`] entries.

use crate::paths::{folder_name, folder_name_of, join, joined, parent_dir, parent_of};
use crate::text::option_text;
use vstd::prelude::*;
use vstd::string::{StrSliceExecFns, StringExecFns};
use vstd::utf8::encode_utf8;

verus! {

/// The largest number of entries the registry ever holds.
pub const CAPACITY: usize = 10;

/// The texts of a list of strings, in order.
pub open spec fn texts(entries: Seq<String>) -> Seq<Seq<char>> {
    Seq::new(entries.len(), |i: int| entries[i]@)
}

/// A list the registry may hold: within capacity and free of repeats.
pub open spec fn is_registry(list: Seq<Seq<char>>) -> bool {
    list.len() <= CAPACITY && list.no_duplicates()
}

/// The list after recording `path`: unchanged when `path` is already
/// listed, otherwise `path` goes to the end and, if that overfills the
/// list, the entry at the front leaves.
pub open spec fn recorded(list: Seq<Seq<char>>, path: Seq<char>) -> Seq<Seq<char>> {
    if list.contains(path) {
        list
    } else if list.len() + 1 > CAPACITY {
        list.push(path).drop_first()
    } else {
        list.push(path)
    }
}

/// The list after recording each of `paths` in turn.
pub open spec fn recorded_all(list: Seq<Seq<char>>, paths: Seq<Seq<char>>) -> Seq<Seq<char>>
    decreases paths.len(),
{
    if paths.len() == 0 {
        list
    } else {
        recorded(recorded_all(list, paths.drop_last()), paths.last())
    }
}

/// The list with every entry paired with its display index.
pub open spec fn listing(list: Seq<Seq<char>>) -> Seq<(int, Seq<char>)> {
    Seq::new(list.len(), |i: int| (i, list[i]))
}

/// What a vector of numbered entries says: each index with the text beside it.
pub open spec fn numbered(pairs: Seq<(usize, String)>) -> Seq<(int, Seq<char>)> {
    Seq::new(pairs.len(), |i: int| (pairs[i].0 as int, pairs[i].1@))
}

/// `name` followed by as many blanks as it takes to fill `width`
/// characters; a name that is wider stays as it is.
pub open spec fn padded(name: Seq<char>, width: int) -> Seq<char> {
    if name.len() >= width {
        name
    } else {
        name + Seq::new((width - name.len()) as nat, |i: int| ' ')
    }
}

/// One line of the selection menu: the folder name at the left of a
/// column `width` characters wide, four blanks, then the directory that
/// holds the folder.
pub open spec fn display_line(name: Seq<char>, path: Seq<char>, width: int) -> Seq<char> {
    padded(name, width) + "    "@ + path
}

/// The labels for a path whose folder name and holding directory are
/// `name` and `parent`: each as given, or a fixed label in place of a
/// missing one.
pub open spec fn labels_from(name: Option<Seq<char>>, parent: Option<Seq<char>>) -> (
    Seq<char>,
    Seq<char>,
) {
    (
        match name {
            Some(name) => name,
            None => "Unknown file"@,
        },
        match parent {
            Some(parent) => parent,
            None => "Unknown parent"@,
        },
    )
}

/// The two labels of every listed path, in order.
pub open spec fn labels_of(list: Seq<Seq<char>>) -> Seq<(Seq<char>, Seq<char>)> {
    Seq::new(list.len(), |i: int| labels_from(folder_name_of(list[i]), parent_of(list[i])))
}

/// The list after it was emptied.
pub open spec fn cleared(list: Seq<Seq<char>>) -> Seq<Seq<char>> {
    Seq::empty()
}

/// What a vector of label pairs says.
pub open spec fn label_texts(labels: Seq<(String, String)>) -> Seq<(Seq<char>, Seq<char>)> {
    Seq::new(labels.len(), |i: int| (labels[i].0@, labels[i].1@))
}

/// The width of the name column: the largest length in UTF-8 bytes among
/// the names, and 0 where there is no name.
pub open spec fn column_width(labels: Seq<(Seq<char>, Seq<char>)>) -> nat
    decreases labels.len(),
{
    if labels.len() == 0 {
        0
    } else {
        let rest = column_width(labels.drop_last());
        let own = encode_utf8(labels.last().0).len();
        if own > rest {
            own
        } else {
            rest
        }
    }
}

/// The menu lines for `labels`: one [`display_line`] each, all with the
/// same [`column_width`].
pub open spec fn menu_lines_of(labels: Seq<(Seq<char>, Seq<char>)>) -> Seq<Seq<char>> {
    Seq::new(
        labels.len(),
        |i: int| display_line(labels[i].0, labels[i].1, column_width(labels) as int),
    )
}

/// Recently opened project directories, oldest surviving entry first.
#[derive(Debug)]
pub struct RecentProjects {
    projects: Vec<String>,
}

impl View for RecentProjects {
    type V = Seq<Seq<char>>;

    closed spec fn view(&self) -> Seq<Seq<char>> {
        texts(self.projects@)
    }
}

impl RecentProjects {
    #[verifier::type_invariant]
    spec fn well_formed(&self) -> bool {
        is_registry(self@)
    }

    /// The registry with no entries, as used when nothing was stored yet.
    pub fn new() -> (registry: Self)
        ensures
            registry@ == Seq::<Seq<char>>::empty(),
            is_registry(registry@),
    {
        let registry = RecentProjects { projects: Vec::new() };
        assert(registry@ =~= Seq::<Seq<char>>::empty());
        registry
    }

    /// The file of the recent projects in the settings folder.
    pub fn file_path(config_dir: &str) -> (path: String)
        ensures
            path@ == joined(config_dir@, "recent_projects.toml"@),
    {
        join(config_dir, "recent_projects.toml")
    }

    /// Number of entries.
    pub fn len(&self) -> (n: usize)
        ensures
            n == self@.len(),
            n <= CAPACITY,
    {
        proof {
            use_type_invariant(self);
        }
        self.projects.len()
    }

    /// Whether the registry holds no entry.
    pub fn is_empty(&self) -> (empty: bool)
        ensures
            empty == (self@.len() == 0),
    {
        self.projects.len() == 0
    }

    /// Whether `project` is listed, by exact equality of the text.
    pub fn contains(&self, project: &String) -> (found: bool)
        ensures
            found == self@.contains(project@),
    {
        let mut i: usize = 0;
        while i < self.projects.len()
            invariant
                i <= self.projects.len(),
                forall|j: int| 0 <= j < i ==> self@[j] != project@,
            decreases self.projects.len() - i,
        {
            if self.projects[i] == *project {
                assert(self@[i as int] == project@);
                return true;
            }
            i += 1;
        }
        false
    }

    /// Records `project` as opened. A listed path is left where it is;
    /// a new one goes to the end, and the oldest entry leaves when the
    /// list would otherwise exceed its capacity.
    pub fn add_project(&mut self, project: String)
        ensures
            final(self)@ == recorded(old(self)@, project@),
            old(self)@.contains(project@) ==> final(self)@ == old(self)@,
            !old(self)@.contains(project@) && old(self)@.len() < CAPACITY ==> final(self)@ == old(
                self,
            )@.push(project@),
            !old(self)@.contains(project@) && old(self)@.len() == CAPACITY ==> final(self)@ == old(
                self,
            )@.skip(1).push(project@),
            is_registry(final(self)@),
    {
        proof {
            use_type_invariant(&*self);
            lemma_recorded_is_registry(self@, project@);
        }
        if self.contains(&project) {
            return ;
        }
        let mut projects: Vec<String> = Vec::new();
        std::mem::swap(&mut projects, &mut self.projects);
        projects.push(project);
        assert(texts(projects@) =~= old(self)@.push(project@));
        if projects.len() > CAPACITY {
            let _ = projects.remove(0);
            assert(texts(projects@) =~= old(self)@.push(project@).drop_first());
            assert(old(self)@.push(project@).drop_first() =~= old(self)@.skip(1).push(project@));
        }
        self.projects = projects;
    }

    /// Takes the entry at `index` out of the list and returns it; later
    /// entries move one place toward the front. An index past the end
    /// gives `None` and changes nothing.
    pub fn remove_project(&mut self, index: usize) -> (removed: Option<String>)
        ensures
            index < old(self)@.len() ==> option_text(removed) == Some(old(self)@[index as int])
                && final(self)@ == old(self)@.remove(index as int),
            index >= old(self)@.len() ==> removed.is_none() && final(self)@ == old(self)@,
            is_registry(final(self)@),
    {
        proof {
            use_type_invariant(&*self);
        }
        if index < self.projects.len() {
            let mut projects: Vec<String> = Vec::new();
            std::mem::swap(&mut projects, &mut self.projects);
            let removed = projects.remove(index);
            assert(texts(projects@) =~= old(self)@.remove(index as int));
            proof {
                lemma_remove_keeps_registry(old(self)@, index as int);
            }
            self.projects = projects;
            Some(removed)
        } else {
            None
        }
    }

    /// Empties the list.
    pub fn clear_projects(&mut self)
        ensures
            final(self)@ == cleared(old(self)@),
            final(self)@.len() == 0,
            is_registry(final(self)@),
    {
        self.projects = Vec::new();
        assert(self@ =~= Seq::<Seq<char>>::empty());
    }

    /// The registry that results from recording the stored `entries` in
    /// order, starting from none. Entries that already form a registry
    /// come back exactly as stored; a repeat or an overlong list is
    /// settled by the rule of [`RecentProjects::add_project`].
    pub fn from_entries(entries: Vec<String>) -> (registry: Self)
        ensures
            registry@ == recorded_all(Seq::<Seq<char>>::empty(), texts(entries@)),
            is_registry(texts(entries@)) ==> registry@ == texts(entries@),
            is_registry(registry@),
    {
        let mut registry = RecentProjects::new();
        let mut i: usize = 0;
        while i < entries.len()
            invariant
                i <= entries.len(),
                registry@ == recorded_all(
                    Seq::<Seq<char>>::empty(),
                    texts(entries@).take(i as int),
                ),
                is_registry(registry@),
            decreases entries.len() - i,
        {
            let entry = entries[i].clone();
            proof {
                let before = texts(entries@).take(i as int);
                let after = texts(entries@).take(i + 1);
                assert(after.drop_last() =~= before);
                assert(after.last() == entry@);
            }
            registry.add_project(entry);
            i += 1;
        }
        proof {
            assert(texts(entries@).take(entries.len() as int) =~= texts(entries@));
            if is_registry(texts(entries@)) {
                lemma_replay_is_identity(texts(entries@));
            }
        }
        registry
    }

    /// A copy of the entries in order, as they are to be stored.
    pub fn entries(&self) -> (entries: Vec<String>)
        ensures
            texts(entries@) == self@,
    {
        let mut entries: Vec<String> = Vec::new();
        let mut i: usize = 0;
        while i < self.projects.len()
            invariant
                i <= self.projects.len(),
                entries@.len() == i,
                forall|j: int| 0 <= j < i ==> (#[trigger] entries@[j])@ == self@[j],
            decreases self.projects.len() - i,
        {
            entries.push(self.projects[i].clone());
            i += 1;
        }
        assert(texts(entries@) =~= self@);
        entries
    }

    /// Every entry paired with its index, in order: the index space that
    /// [`RecentProjects::get_project`] and
    /// [`RecentProjects::remove_project`] address.
    pub fn list_projects(&self) -> (pairs: Vec<(usize, String)>)
        ensures
            pairs@.len() == self@.len(),
            forall|i: int|
                0 <= i < pairs@.len() ==> (#[trigger] pairs@[i]).0 == i && pairs@[i].1@ == self@[i],
            numbered(pairs@) == listing(self@),
    {
        let mut pairs: Vec<(usize, String)> = Vec::new();
        let mut i: usize = 0;
        while i < self.projects.len()
            invariant
                i <= self.projects.len(),
                pairs@.len() == i,
                forall|j: int|
                    0 <= j < i ==> (#[trigger] pairs@[j]).0 == j && pairs@[j].1@ == self@[j],
            decreases self.projects.len() - i,
        {
            pairs.push((i, self.projects[i].clone()));
            i += 1;
        }
        assert(numbered(pairs@) =~= listing(self@));
        pairs
    }

    /// One menu line: `name` at the left of a column of `max_name_length`
    /// characters, four blanks, then `path`.
    pub fn format_project_display(name: &str, path: &str, max_name_length: usize) -> (line: String)
        ensures
            line@ == display_line(name@, path@, max_name_length as int),
    {
        let mut line = String::from_str(name);
        let mut filled: usize = name.unicode_len();
        let ghost start = filled;
        while filled < max_name_length
            invariant
                start == name@.len(),
                start <= filled,
                filled <= max_name_length || filled == start,
                line@ == name@ + Seq::new((filled - start) as nat, |i: int| ' '),
            decreases max_name_length - filled,
        {
            proof {
                reveal_strlit(" ");
            }
            line.append(" ");
            filled += 1;
            assert(line@ =~= name@ + Seq::new((filled - start) as nat, |i: int| ' '));
        }
        assert(line@ =~= padded(name@, max_name_length as int));
        line.append("    ");
        line.append(path);
        line
    }

    /// The lines of the selection menu for label pairs of folder name and
    /// holding directory.
    pub fn menu_lines(labels: &Vec<(String, String)>) -> (lines: Vec<String>)
        ensures
            texts(lines@) == menu_lines_of(label_texts(labels@)),
    {
        let ghost all = label_texts(labels@);
        let mut width: usize = 0;
        let mut i: usize = 0;
        while i < labels.len()
            invariant
                i <= labels.len(),
                all == label_texts(labels@),
                width == column_width(all.take(i as int)),
            decreases labels.len() - i,
        {
            let own = labels[i].0.as_str().as_bytes().len();
            proof {
                assert(own == encode_utf8(labels[i as int].0@).len());
                assert(all.take(i + 1).drop_last() =~= all.take(i as int));
                assert(all.take(i + 1).last().0 == labels[i as int].0@);
            }
            if own > width {
                width = own;
            }
            i += 1;
        }
        assert(all.take(labels.len() as int) =~= all);
        let mut lines: Vec<String> = Vec::new();
        let mut k: usize = 0;
        while k < labels.len()
            invariant
                k <= labels.len(),
                all == label_texts(labels@),
                width == column_width(all),
                lines@.len() == k,
                forall|j: int| 0 <= j < k ==> (#[trigger] lines@[j])@ == menu_lines_of(all)[j],
            decreases labels.len() - k,
        {
            let line = Self::format_project_display(
                labels[k].0.as_str(),
                labels[k].1.as_str(),
                width,
            );
            lines.push(line);
            k += 1;
        }
        assert(texts(lines@) =~= menu_lines_of(all));
        lines
    }

    /// The labels shown for a path, given its folder name and the
    /// directory that holds it, where it has them.
    pub fn label_pair(name: Option<String>, parent: Option<String>) -> (labels: (String, String))
        ensures
            (labels.0@, labels.1@) == labels_from(option_text(name), option_text(parent)),
    {
        let name = match name {
            Some(name) => name,
            None => String::from_str("Unknown file"),
        };
        let parent = match parent {
            Some(parent) => parent,
            None => String::from_str("Unknown parent"),
        };
        (name, parent)
    }

    /// The lines of the selection menu, one per entry and in the order of
    /// the entries: for each the folder name and the directory that holds
    /// it, with a fixed label where the path has none.
    pub fn menu_items(&self) -> (items: Vec<String>)
        ensures
            texts(items@) == menu_lines_of(labels_of(self@)),
            items@.len() == self@.len(),
    {
        let mut labels: Vec<(String, String)> = Vec::new();
        let mut i: usize = 0;
        while i < self.projects.len()
            invariant
                i <= self.projects.len(),
                labels@.len() == i,
                forall|j: int|
                    0 <= j < i ==> ((#[trigger] labels@[j]).0@, labels@[j].1@) == labels_from(
                        folder_name_of(self@[j]),
                        parent_of(self@[j]),
                    ),
            decreases self.projects.len() - i,
        {
            let path = self.projects[i].as_str();
            labels.push(Self::label_pair(folder_name(path), parent_dir(path)));
            i += 1;
        }
        assert(label_texts(labels@) =~= labels_of(self@));
        let items = Self::menu_lines(&labels);
        assert(texts(items@).len() == items@.len());
        items
    }

    /// The path that a menu selection stands for: the entry at the chosen
    /// index, or `None` where nothing was chosen.
    pub fn menu_choice(&self, selection: Option<usize>) -> (project: Option<String>)
        ensures
            option_text(project) == match selection {
                Some(index) if index < self@.len() => Some(self@[index as int]),
                _ => None,
            },
    {
        match selection {
            Some(index) => match self.get_project(index) {
                Some(project) => Some(project.clone()),
                None => None,
            },
            None => None,
        }
    }

    /// The entry at `index`, if there is one.
    pub fn get_project(&self, index: usize) -> (project: Option<&String>)
        ensures
            index < self@.len() ==> project.is_some() && project.unwrap()@ == self@[index as int],
            index >= self@.len() ==> project.is_none(),
    {
        if index < self.projects.len() {
            Some(&self.projects[index])
        } else {
            None
        }
    }
}

/// Recording a path keeps a registry a registry.
pub proof fn lemma_recorded_is_registry(list: Seq<Seq<char>>, path: Seq<char>)
    requires
        is_registry(list),
    ensures
        is_registry(recorded(list, path)),
{
    if !list.contains(path) {
        let grown = list.push(path);
        assert(grown.no_duplicates());
        if list.len() + 1 > CAPACITY {
            assert(grown.drop_first().no_duplicates());
        }
    }
}

/// Taking one entry out keeps a registry a registry.
pub proof fn lemma_remove_keeps_registry(list: Seq<Seq<char>>, index: int)
    requires
        is_registry(list),
        0 <= index < list.len(),
    ensures
        is_registry(list.remove(index)),
{
    let rest = list.remove(index);
    assert forall|i: int, j: int| 0 <= i < rest.len() && 0 <= j < rest.len() && i != j implies rest[i]
        != rest[j] by {
        let a = if i < index { i } else { i + 1 };
        let b = if j < index { j } else { j + 1 };
        assert(rest[i] == list[a] && rest[j] == list[b]);
    }
}

/// However many paths are recorded, and whichever, a registry never holds
/// more than [`CAPACITY`] entries, at the end or at any point on the way.
pub proof fn lemma_recording_stays_within_capacity(list: Seq<Seq<char>>, paths: Seq<Seq<char>>)
    requires
        is_registry(list),
    ensures
        is_registry(recorded_all(list, paths)),
        forall|k: int|
            0 <= k <= paths.len() ==> (#[trigger] recorded_all(list, paths.take(k))).len()
                <= CAPACITY,
    decreases paths.len(),
{
    if paths.len() > 0 {
        lemma_recording_stays_within_capacity(list, paths.drop_last());
        lemma_recorded_is_registry(recorded_all(list, paths.drop_last()), paths.last());
        assert forall|k: int| 0 <= k <= paths.len() implies (#[trigger] recorded_all(
            list,
            paths.take(k),
        )).len() <= CAPACITY by {
            if k == paths.len() {
                assert(paths.take(k) =~= paths);
            } else {
                assert(paths.take(k) =~= paths.drop_last().take(k));
            }
        }
    } else {
        assert forall|k: int| 0 <= k <= paths.len() implies (#[trigger] recorded_all(
            list,
            paths.take(k),
        )).len() <= CAPACITY by {
            assert(paths.take(k) =~= paths);
        }
    }
}

/// Recording a path that is already listed changes neither the entries
/// nor their order.
pub proof fn lemma_recording_listed_path_changes_nothing(list: Seq<Seq<char>>, path: Seq<char>)
    requires
        list.contains(path),
    ensures
        recorded(list, path) == list,
{
}

/// Recording a new path in a full registry drops the entry at the front,
/// keeps every other entry in its order one place nearer the front, and
/// puts the new path last.
pub proof fn lemma_recording_in_full_registry_evicts_oldest(
    list: Seq<Seq<char>>,
    path: Seq<char>,
)
    requires
        is_registry(list),
        list.len() == CAPACITY,
        !list.contains(path),
    ensures
        recorded(list, path).len() == CAPACITY,
        recorded(list, path).last() == path,
        forall|i: int| 1 <= i < list.len() ==> recorded(list, path)[i - 1] == #[trigger] list[i],
        !recorded(list, path).contains(list[0]),
{
    let after = recorded(list, path);
    assert(after =~= list.skip(1).push(path));
    if after.contains(list[0]) {
        let i = choose|i: int| 0 <= i < after.len() && after[i] == list[0];
        if i < after.len() - 1 {
            assert(after[i] == list[i + 1]);
        } else {
            assert(list.contains(path));
        }
    }
}

/// Taking out the entry at an index in bounds shortens the list by one,
/// leaves the entries before the index in place and moves each later one
/// down by one.
pub proof fn lemma_removal_shifts_later_entries(list: Seq<Seq<char>>, index: int)
    requires
        0 <= index < list.len(),
    ensures
        list.remove(index).len() == list.len() - 1,
        forall|i: int| 0 <= i < index ==> #[trigger] list.remove(index)[i] == list[i],
        forall|i: int| index < i < list.len() ==> list.remove(index)[i - 1] == #[trigger] list[i],
{
}

/// Whatever a registry held, once it is emptied its listing has no
/// entries.
pub proof fn lemma_cleared_registry_lists_nothing(list: Seq<Seq<char>>)
    ensures
        listing(cleared(list)) == Seq::<(int, Seq<char>)>::empty(),
        listing(cleared(list)).len() == 0,
{
    assert(listing(cleared(list)) =~= Seq::<(int, Seq<char>)>::empty());
}

/// Recording the entries of a registry in order, starting from none,
/// rebuilds that registry: what was stored is what comes back.
pub proof fn lemma_replay_is_identity(list: Seq<Seq<char>>)
    requires
        is_registry(list),
    ensures
        recorded_all(Seq::<Seq<char>>::empty(), list) == list,
    decreases list.len(),
{
    if list.len() > 0 {
        let front = list.drop_last();
        assert(front.no_duplicates());
        lemma_replay_is_identity(front);
        if front.contains(list.last()) {
            let i = choose|i: int| 0 <= i < front.len() && front[i] == list.last();
            assert(list[i] == list[list.len() - 1]);
        }
        assert(front.push(list.last()) =~= list);
    } else {
        assert(list =~= Seq::<Seq<char>>::empty());
    }
}

} // verus!
