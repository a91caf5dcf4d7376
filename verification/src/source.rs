//! Discovery: the ordered units that the files under a migration directory make up.
//!
//! Every folder that holds script files stands for one unit. The folder's name
//! is the unit's tag, a generated tag, and the files whose stems are `up` and
//! `down` are its two scripts. The units come out in the order of their stamps.

use vstd::prelude::*;
use crate::errors::{Error, ErrorKind};
use crate::migration::{FileMigration, Migratable};
use crate::resolve::texts;
use crate::stamp::{digits_value, is_stamp, Stamp};
use crate::tag::{generated_tag_form, is_generated, stamp_part, STAMP_LEN};

verus! {

/// A script file that the walk of the migration directory came upon.
#[derive(Clone, Debug)]
pub struct ScriptFile {
    /// The path of the file.
    pub path: String,
    /// The path of the folder that holds the file.
    pub folder: String,
    /// The name of that folder, where it can be read as text.
    pub folder_name: Option<String>,
    /// The name of the file without its extension, where it can be read as text.
    pub stem: Option<String>,
}

/// The mathematical value of a [`ScriptFile`].
pub struct ScriptFileView {
    pub path: Seq<char>,
    pub folder: Seq<char>,
    pub folder_name: Option<Seq<char>>,
    pub stem: Option<Seq<char>>,
}

/// The text of an optional string.
pub open spec fn text_of(text: Option<String>) -> Option<Seq<char>> {
    match text {
        Some(text) => Some(text@),
        None => None,
    }
}

impl View for ScriptFile {
    type V = ScriptFileView;

    open spec fn view(&self) -> ScriptFileView {
        ScriptFileView {
            path: self.path@,
            folder: self.folder@,
            folder_name: text_of(self.folder_name),
            stem: text_of(self.stem),
        }
    }
}

/// The values of a sequence of script files.
pub open spec fn file_views(files: Seq<ScriptFile>) -> Seq<ScriptFileView> {
    Seq::new(files.len(), |i: int| files[i]@)
}

/// What is known of one folder after some of the files were looked at.
pub struct Folder {
    /// The path of the folder.
    pub folder: Seq<char>,
    /// Its name, as the first of its files gave it.
    pub name: Option<Seq<char>>,
    /// The path of the last file seen whose stem is `up`.
    pub up: Option<Seq<char>>,
    /// The path of the last file seen whose stem is `down`.
    pub down: Option<Seq<char>>,
    /// Whether the stem of one of its files could not be read as text.
    pub unreadable: bool,
}

impl Folder {
    /// The folder after one more of its files was looked at.
    pub open spec fn with_file(self, file: ScriptFileView) -> Folder {
        match file.stem {
            None => Folder { unreadable: true, ..self },
            Some(stem) => if stem == "up"@ {
                Folder { up: Some(file.path), ..self }
            } else if stem == "down"@ {
                Folder { down: Some(file.path), ..self }
            } else {
                self
            },
        }
    }

    /// The folder as its first file shows it.
    pub open spec fn opened_by(file: ScriptFileView) -> Folder {
        Folder {
            folder: file.folder,
            name: file.folder_name,
            up: None,
            down: None,
            unreadable: false,
        }.with_file(file)
    }

    /// What is wrong with the folder, if anything: the kind of the error that
    /// a discovery fails with because of it.
    pub open spec fn defect(self) -> Option<ErrorKind> {
        if self.name is None {
            Some(ErrorKind::PathError)
        } else if !is_generated(self.name.unwrap()) || !is_stamp(stamp_part(self.name.unwrap())) {
            Some(ErrorKind::TagError)
        } else if self.unreadable {
            Some(ErrorKind::PathError)
        } else if self.up is None || self.down is None {
            Some(ErrorKind::MigrationNotFound)
        } else {
            None
        }
    }

    /// The unit that a folder without defect stands for.
    pub open spec fn unit(self) -> Found {
        Found { tag: self.name.unwrap(), up: self.up, down: self.down }
    }
}

/// A unit as discovery describes it: its tag and the paths of its scripts.
pub struct Found {
    pub tag: Seq<char>,
    pub up: Option<Seq<char>>,
    pub down: Option<Seq<char>>,
}

/// Whether `i` is the place of the folder with the given path.
pub open spec fn is_place(folders: Seq<Folder>, path: Seq<char>, i: int) -> bool {
    &&& 0 <= i < folders.len()
    &&& folders[i].folder == path
    &&& forall|j: int| 0 <= j < i ==> (#[trigger] folders[j]).folder != path
}

/// The folders after one more file was looked at: the file joins its folder,
/// or opens a new one behind the others.
pub open spec fn add_file(folders: Seq<Folder>, file: ScriptFileView) -> Seq<Folder> {
    if exists|i: int| is_place(folders, file.folder, i) {
        let i = choose|i: int| is_place(folders, file.folder, i);
        folders.update(i, folders[i].with_file(file))
    } else {
        folders.push(Folder::opened_by(file))
    }
}

/// The folders that the files make up, in the order in which each was first seen.
pub open spec fn folders_of(files: Seq<ScriptFileView>) -> Seq<Folder>
    decreases files.len(),
{
    if files.len() == 0 {
        Seq::empty()
    } else {
        add_file(folders_of(files.drop_last()), files.last())
    }
}

/// The units that folders stand for.
pub open spec fn units_of(folders: Seq<Folder>) -> Seq<Found> {
    Seq::new(folders.len(), |i: int| folders[i].unit())
}

/// A file-backed unit as discovery describes it.
pub open spec fn found_of(unit: FileMigration) -> Found {
    Found { tag: unit.tag_text(), up: unit.up_path(), down: unit.down_path() }
}

/// File-backed units as discovery describes them.
pub open spec fn founds(units: Seq<FileMigration>) -> Seq<Found> {
    Seq::new(units.len(), |i: int| found_of(units[i]))
}

/// The number by which a stamped unit is ordered.
pub open spec fn number_of(unit: FileMigration) -> nat {
    unit.stamp_of().unwrap().number()
}

/// Whether every unit has a stamp, and the units stand in the order of their stamps.
pub open spec fn sorted_by_stamp(units: Seq<FileMigration>) -> bool {
    &&& forall|i: int| 0 <= i < units.len() ==> (#[trigger] units[i]).stamp_of() is Some
    &&& forall|i: int, j: int|
        0 <= i < j < units.len() ==> number_of(#[trigger] units[i]) <= number_of(
            #[trigger] units[j],
        )
}

/// Whether none of the first `n` folders has a defect.
pub open spec fn sound_before(folders: Seq<Folder>, n: int) -> bool {
    forall|j: int| 0 <= j < n ==> (#[trigger] folders[j]).defect() is None
}

/// The tags of file-backed units.
pub open spec fn unit_tags(units: Seq<FileMigration>) -> Seq<Seq<char>> {
    Seq::new(units.len(), |i: int| units[i].tag_text())
}

/// The tags of the units that folders stand for.
pub open spec fn names_of(folders: Seq<Folder>) -> Seq<Seq<char>> {
    Seq::new(folders.len(), |i: int| folders[i].unit().tag)
}

/// Whether a result is what discovery makes of script files.
///
/// The files are grouped by the folder that holds them. Where a folder has a
/// defect, the result is the error that the first such folder calls for. Where
/// none has, but two folders have the same name, it is a `TagError`. Else it
/// holds one unit for each folder, with the folder's name for its tag and the
/// folder's `up` and `down` files for its scripts, in the order of the stamps.
pub open spec fn is_discovery(
    files: Seq<ScriptFileView>,
    result: Result<Vec<FileMigration>, Error>,
) -> bool {
    let folders = folders_of(files);
    match result {
        Ok(units) => {
            &&& sound_before(folders, folders.len() as int)
            &&& names_of(folders).no_duplicates()
            &&& sorted_by_stamp(units@)
            &&& forall|i: int| 0 <= i < units@.len() ==> (#[trigger] units@[i]).wf()
            &&& founds(units@).to_multiset() == units_of(folders).to_multiset()
            &&& unit_tags(units@).no_duplicates()
        },
        Err(e) => {
            ||| exists|k: int|
                0 <= k < folders.len() && sound_before(folders, k) && (
                #[trigger] folders[k]).defect() == Some(e.kind_of())
            ||| (sound_before(folders, folders.len() as int) && !names_of(
                folders,
            ).no_duplicates() && e.kind_of() == ErrorKind::TagError)
        },
    }
}

/// What is known of one folder, while the files are looked at.
struct Group {
    folder: String,
    name: Option<String>,
    up: Option<String>,
    down: Option<String>,
    unreadable: bool,
}

impl View for Group {
    type V = Folder;

    closed spec fn view(&self) -> Folder {
        Folder {
            folder: self.folder@,
            name: text_of(self.name),
            up: text_of(self.up),
            down: text_of(self.down),
            unreadable: self.unreadable,
        }
    }
}

spec fn group_views(groups: Seq<Group>) -> Seq<Folder> {
    Seq::new(groups.len(), |i: int| groups[i]@)
}

fn same_text(a: &str, b: &str) -> (same: bool)
    ensures
        same == (a@ == b@),
{
    String::from_str(a) == String::from_str(b)
}

fn copy_of(text: &Option<String>) -> (copy: Option<String>)
    ensures
        text_of(copy) == text_of(*text),
{
    match text {
        Some(text) => Some(text.clone()),
        None => None,
    }
}

fn place_of(groups: &Vec<Group>, folder: &str) -> (place: Option<usize>)
    ensures
        match place {
            Some(i) => is_place(group_views(groups@), folder@, i as int),
            None => !exists|i: int| is_place(group_views(groups@), folder@, i),
        },
{
    let mut i: usize = 0;
    while i < groups.len()
        invariant
            i <= groups@.len(),
            forall|j: int| 0 <= j < i ==> (#[trigger] group_views(groups@)[j]).folder != folder@,
        decreases groups@.len() - i,
    {
        if same_text(groups[i].folder.as_str(), folder) {
            assert(group_views(groups@)[i as int].folder == folder@);
            return Some(i);
        }
        i += 1;
    }
    assert forall|k: int| !is_place(group_views(groups@), folder@, k) by {
        if 0 <= k < groups@.len() {
            assert(group_views(groups@)[k].folder != folder@);
        }
    }
    None
}

fn joined(group: Group, file: &ScriptFile) -> (next: Group)
    ensures
        next@ == group@.with_file(file@),
{
    let Group { folder, name, up, down, unreadable } = group;
    match &file.stem {
        None => Group { folder, name, up, down, unreadable: true },
        Some(stem) => {
            if same_text(stem.as_str(), "up") {
                Group { folder, name, up: Some(file.path.clone()), down, unreadable }
            } else if same_text(stem.as_str(), "down") {
                Group { folder, name, up, down: Some(file.path.clone()), unreadable }
            } else {
                Group { folder, name, up, down, unreadable }
            }
        },
    }
}

fn grouped(files: &Vec<ScriptFile>) -> (groups: Vec<Group>)
    ensures
        group_views(groups@) == folders_of(file_views(files@)),
{
    let mut groups: Vec<Group> = Vec::new();
    let mut k: usize = 0;
    assert(file_views(files@).subrange(0, 0) =~= Seq::empty());
    assert(group_views(groups@) =~= Seq::empty());
    while k < files.len()
        invariant
            k <= files@.len(),
            group_views(groups@) == folders_of(file_views(files@).subrange(0, k as int)),
        decreases files@.len() - k,
    {
        let file = &files[k];
        let ghost before = group_views(groups@);
        let ghost seen = file_views(files@).subrange(0, k as int);
        proof {
            let wider = file_views(files@).subrange(0, k + 1);
            assert(wider.drop_last() =~= seen);
            assert(wider.last() == file@);
        }
        match place_of(&groups, file.folder.as_str()) {
            Some(i) => {
                proof {
                    let chosen = choose|j: int| is_place(before, file@.folder, j);
                    assert(is_place(before, file@.folder, chosen));
                    if chosen < i {
                        assert(before[chosen].folder == file@.folder);
                    }
                    assert(chosen == i);
                }
                let old_group = groups.remove(i);
                let new_group = joined(old_group, file);
                groups.insert(i, new_group);
                assert(group_views(groups@) =~= before.update(i as int, before[i as int].with_file(file@)));
            },
            None => {
                let opened = Group {
                    folder: file.folder.clone(),
                    name: copy_of(&file.folder_name),
                    up: None,
                    down: None,
                    unreadable: false,
                };
                let new_group = joined(opened, file);
                groups.push(new_group);
                assert(group_views(groups@) =~= before.push(Folder::opened_by(file@)));
            },
        }
        k += 1;
    }
    assert(file_views(files@).subrange(0, k as int) =~= file_views(files@));
    groups
}

fn defective(kind: ErrorKind, what: &str, folder: &str) -> (error: Error)
    ensures
        error.kind_of() == kind,
{
    Error::new(kind, String::from_str(what).concat(folder))
}

/// Tells whether one of the texts occurs twice.
fn has_duplicate(names: &Vec<String>) -> (twice: bool)
    ensures
        twice == !texts(names@).no_duplicates(),
{
    let ghost given = texts(names@);
    let mut k: usize = 0;
    while k < names.len()
        invariant
            k <= names@.len(),
            given == texts(names@),
            given.subrange(0, k as int).no_duplicates(),
        decreases names@.len() - k,
    {
        let mut j: usize = 0;
        while j < k
            invariant
                j <= k < names@.len(),
                given == texts(names@),
                forall|i: int| 0 <= i < j ==> #[trigger] given[i] != given[k as int],
            decreases k - j,
        {
            if names[j] == names[k] {
                assert(given[j as int] == given[k as int]);
                return true;
            }
            j += 1;
        }
        proof {
            let seen = given.subrange(0, k as int);
            let wider = given.subrange(0, k + 1);
            assert forall|a: int, b: int|
                0 <= a < wider.len() && 0 <= b < wider.len() && a != b implies wider[a]
                != wider[b] by {
                if a < k && b < k {
                    assert(seen[a] != seen[b]);
                }
            }
        }
        k += 1;
    }
    assert(given.subrange(0, k as int) =~= given);
    false
}

/// The unit that a group stands for, or the error that its defect calls for.
fn unit_of(group: &Group) -> (result: Result<FileMigration, Error>)
    ensures
        match result {
            Ok(unit) => {
                &&& group@.defect() is None
                &&& unit.wf()
                &&& unit.stamp_of() is Some
                &&& found_of(unit) == group@.unit()
            },
            Err(e) => group@.defect() == Some(e.kind_of()),
        },
{
    let name = match &group.name {
        None => {
            return Err(
                defective(
                    ErrorKind::PathError,
                    "Error extracting file-name from: ",
                    group.folder.as_str(),
                ),
            );
        },
        Some(name) => name.as_str(),
    };
    if !generated_tag_form(name) {
        return Err(defective(ErrorKind::TagError, "Invalid tag format: ", name));
    }
    let len = name.unicode_len();
    let stamp = match Stamp::parse(name.substring_char(0, STAMP_LEN)) {
        Err(_) => {
            return Err(defective(ErrorKind::TagError, "Invalid tag format: ", name));
        },
        Ok(stamp) => stamp,
    };
    if group.unreadable {
        return Err(
            defective(ErrorKind::PathError, "Error extracting file-stem from: ", name),
        );
    }
    let up = match &group.up {
        None => {
            return Err(
                defective(
                    ErrorKind::MigrationNotFound,
                    "Up migration not found for tag: ",
                    name,
                ),
            );
        },
        Some(up) => up.as_str(),
    };
    let down = match &group.down {
        None => {
            return Err(
                defective(
                    ErrorKind::MigrationNotFound,
                    "Down migration not found for tag: ",
                    name,
                ),
            );
        },
        Some(down) => down.as_str(),
    };
    let ghost stamp_text = stamp.text();
    match FileMigration::found(stamp, name.substring_char(STAMP_LEN + 1, len), up, down) {
        Ok(unit) => {
            proof {
                assert(unit.tag_text() =~= name@);
            }
            Ok(unit)
        },
        Err(e) => {
            assert(false);
            Err(e)
        },
    }
}

/// The place at which a unit with the given number goes into sorted units:
/// behind every unit whose number is not larger.
fn place_for(sorted: &Vec<FileMigration>, stamp: &Stamp) -> (place: usize)
    requires
        sorted_by_stamp(sorted@),
    ensures
        place <= sorted@.len(),
        forall|i: int| 0 <= i < place ==> number_of(#[trigger] sorted@[i]) <= stamp.number(),
        forall|i: int|
            place <= i < sorted@.len() ==> stamp.number() < number_of(#[trigger] sorted@[i]),
{
    let mut p: usize = 0;
    while p < sorted.len()
        invariant
            p <= sorted@.len(),
            sorted_by_stamp(sorted@),
            forall|i: int| 0 <= i < p ==> number_of(#[trigger] sorted@[i]) <= stamp.number(),
        decreases sorted@.len() - p,
    {
        let other = sorted[p].stamp();
        match other {
            Some(other) => {
                if stamp.before(other) {
                    assert forall|i: int| p <= i < sorted@.len() implies stamp.number()
                        < number_of(#[trigger] sorted@[i]) by {
                        if p < i {
                            assert(number_of(sorted@[p as int]) <= number_of(sorted@[i]));
                        }
                    }
                    return p;
                }
            },
            None => {
                assert(sorted@[p as int].stamp_of() is Some);
            },
        }
        p += 1;
    }
    p
}

/// Units that are the units of folders with different names have different tags.
proof fn lemma_tags_differ(units: Seq<FileMigration>, folders: Seq<Folder>)
    requires
        founds(units).to_multiset() == units_of(folders).to_multiset(),
        names_of(folders).no_duplicates(),
    ensures
        unit_tags(units).no_duplicates(),
{
    let expected = units_of(folders);
    assert(expected.no_duplicates()) by {
        assert forall|a: int, b: int|
            0 <= a < expected.len() && 0 <= b < expected.len() && a != b implies expected[a]
            != expected[b] by {
            assert(names_of(folders)[a] != names_of(folders)[b]);
        }
    }
    expected.lemma_multiset_has_no_duplicates();
    founds(units).lemma_multiset_has_no_duplicates_conv();
    assert forall|i: int, j: int|
        0 <= i < units.len() && 0 <= j < units.len() && i != j implies unit_tags(units)[i]
        != unit_tags(units)[j] by {
        if unit_tags(units)[i] == unit_tags(units)[j] {
            let first = founds(units)[i];
            let second = founds(units)[j];
            assert(first != second);
            vstd::seq_lib::to_multiset_contains(founds(units), first);
            vstd::seq_lib::to_multiset_contains(founds(units), second);
            vstd::seq_lib::to_multiset_contains(expected, first);
            vstd::seq_lib::to_multiset_contains(expected, second);
            assert(founds(units).contains(first));
            assert(founds(units).contains(second));
            let a = choose|a: int| 0 <= a < expected.len() && expected[a] == first;
            let b = choose|b: int| 0 <= b < expected.len() && expected[b] == second;
            assert(names_of(folders)[a] == first.tag);
            assert(names_of(folders)[b] == second.tag);
            assert(a == b);
        }
    }
}

/// The units that script files make up, in the order of their stamps.
///
/// The files are grouped by the folder that holds them. Discovery succeeds
/// where no folder has a defect and no two folders have the same name. It
/// then returns one unit for each folder, with the folder's name for its tag
/// and the folder's `up` and `down` files for its scripts, ordered by stamp.
/// Where a folder has a defect, it fails with the error that the first such
/// folder calls for: `PathError` where the folder's name or the stem of one of
/// its files cannot be read, `TagError` where the name is no generated tag or
/// its stamp is no time, `MigrationNotFound` where the `up` or the `down` file
/// is missing. Where two folders have the same name, it fails with a
/// `TagError`.
pub fn discover(files: &Vec<ScriptFile>) -> (result: Result<Vec<FileMigration>, Error>)
    ensures
        is_discovery(file_views(files@), result),
{
    let groups = grouped(files);
    let ghost folders = folders_of(file_views(files@));
    let mut units: Vec<FileMigration> = Vec::new();
    let mut names: Vec<String> = Vec::new();
    let mut k: usize = 0;
    proof {
        assert(founds(units@) =~= Seq::empty());
        assert(units_of(folders.subrange(0, 0)) =~= Seq::empty());
        assert(texts(names@) =~= names_of(folders.subrange(0, 0)));
    }
    while k < groups.len()
        invariant
            k <= groups@.len(),
            folders == folders_of(file_views(files@)),
            group_views(groups@) == folders,
            sound_before(folders, k as int),
            sorted_by_stamp(units@),
            forall|i: int| 0 <= i < units@.len() ==> (#[trigger] units@[i]).wf(),
            founds(units@).to_multiset() == units_of(folders.subrange(0, k as int)).to_multiset(),
            texts(names@) == names_of(folders.subrange(0, k as int)),
        decreases groups@.len() - k,
    {
        assert(group_views(groups@)[k as int] == groups@[k as int]@);
        let unit = match unit_of(&groups[k]) {
            Err(e) => {
                assert(folders[k as int].defect() == Some(e.kind_of()));
                return Err(e);
            },
            Ok(unit) => unit,
        };
        let place = match unit.stamp() {
            Some(stamp) => place_for(&units, stamp),
            None => 0,
        };
        let ghost before = units@;
        let ghost added = unit;
        let ghost names_before = texts(names@);
        names.push(unit.tag());
        units.insert(place, unit);
        proof {
            assert(units@ == before.insert(place as int, added));
            assert forall|i: int| 0 <= i < units@.len() implies (#[trigger] units@[i]).stamp_of()
                is Some by {
                if i < place {
                    assert(units@[i] == before[i]);
                } else if i > place {
                    assert(units@[i] == before[i - 1]);
                }
            }
            assert forall|i: int, j: int| 0 <= i < j < units@.len() implies number_of(
                #[trigger] units@[i],
            ) <= number_of(#[trigger] units@[j]) by {
                if i < place {
                    assert(units@[i] == before[i]);
                } else if i > place {
                    assert(units@[i] == before[i - 1]);
                }
                if j < place {
                    assert(units@[j] == before[j]);
                } else if j > place {
                    assert(units@[j] == before[j - 1]);
                }
            }
            assert forall|i: int| 0 <= i < units@.len() implies (#[trigger] units@[i]).wf() by {
                if i < place {
                    assert(units@[i] == before[i]);
                } else if i > place {
                    assert(units@[i] == before[i - 1]);
                }
            }
            assert(founds(units@) =~= founds(before).insert(place as int, found_of(added)));
            vstd::seq_lib::to_multiset_insert(founds(before), place as int, found_of(added));
            let done = units_of(folders.subrange(0, k as int));
            let wider = units_of(folders.subrange(0, k + 1));
            assert(wider =~= done.push(folders[k as int].unit()));
            vstd::seq_lib::to_multiset_build(done, folders[k as int].unit());
            assert(texts(names@) =~= names_before.push(folders[k as int].unit().tag));
            assert(names_of(folders.subrange(0, k + 1)) =~= names_before.push(
                folders[k as int].unit().tag,
            ));
        }
        k += 1;
    }
    proof {
        assert(folders.subrange(0, k as int) =~= folders);
    }
    if has_duplicate(&names) {
        return Err(
            Error::TagError(String::from_str("Tags must be unique. Found a folder name twice")),
        );
    }
    proof {
        lemma_tags_differ(units@, folders);
    }
    Ok(units)
}

/// Two stamped units with different numbers have different tags.
pub proof fn lemma_numbers_tell_tags_apart(a: FileMigration, b: FileMigration)
    requires
        a.wf(),
        b.wf(),
        a.stamp_of() is Some,
        b.stamp_of() is Some,
        number_of(a) != number_of(b),
    ensures
        a.tag_text() != b.tag_text(),
{
    a.lemma_wf();
    b.lemma_wf();
    let sa = a.stamp_of().unwrap();
    let sb = b.stamp_of().unwrap();
    sa.lemma_wf();
    sb.lemma_wf();
    if a.tag_text() == b.tag_text() {
        let ta = a.tag_text();
        let tb = b.tag_text();
        assert(ta.subrange(0, STAMP_LEN as int) =~= sa.text());
        assert(tb.subrange(0, STAMP_LEN as int) =~= sb.text());
        assert(digits_value(sa.text()) == digits_value(sb.text()));
    }
}

} // verus!
