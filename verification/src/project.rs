//! Project descriptors: what a directory listing and a package manifest say
//! of a project, once they have been read.

use vstd::prelude::*;

verus! {

/// One entry of a directory.
pub struct DirEntryView {
    pub name: Seq<char>,
    pub is_directory: bool,
}

/// One entry of a directory, as it is handed out.
#[derive(Clone, Debug)]
pub struct DirEntry {
    pub name: String,
    pub is_directory: bool,
}

impl View for DirEntry {
    type V = DirEntryView;

    open spec fn view(&self) -> DirEntryView {
        DirEntryView { name: self.name@, is_directory: self.is_directory }
    }
}

/// One item of a directory as it was read: its name, unless the item could
/// not be read, and whether it is a directory, unless its type could not be
/// read.
pub struct ListedView {
    pub name: Option<Seq<char>>,
    pub is_directory: Option<bool>,
}

/// One item of a directory as it was read.
pub struct Listed {
    pub name: Option<String>,
    pub is_directory: Option<bool>,
}

impl View for Listed {
    type V = ListedView;

    open spec fn view(&self) -> ListedView {
        ListedView {
            name: match self.name {
                Some(name) => Some(name@),
                None => None,
            },
            is_directory: self.is_directory,
        }
    }
}

/// The items of a listing, each as its view.
pub open spec fn listed_views(listing: Seq<Listed>) -> Seq<ListedView> {
    Seq::new(listing.len(), |i: int| listing[i]@)
}

/// The entries of a list, each as its view.
pub open spec fn entry_views(entries: Seq<DirEntry>) -> Seq<DirEntryView> {
    Seq::new(entries.len(), |i: int| entries[i]@)
}

/// The entries that a listing yields: the items of which both the name and
/// the type were read, in the order of the listing.
pub open spec fn kept_entries(listing: Seq<ListedView>) -> Seq<DirEntryView>
    decreases listing.len(),
{
    if listing.len() == 0 {
        Seq::empty()
    } else {
        let before = kept_entries(listing.drop_last());
        match (listing.last().name, listing.last().is_directory) {
            (Some(name), Some(is_directory)) => before.push(DirEntryView { name, is_directory }),
            _ => before,
        }
    }
}

/// Turns a directory listing into entries, passing over the items that
/// could not be read.
pub fn read_dir(listing: &Vec<Listed>) -> (entries: Vec<DirEntry>)
    ensures
        entry_views(entries@) == kept_entries(listed_views(listing@)),
{
    let mut entries: Vec<DirEntry> = Vec::new();
    let mut i: usize = 0;
    let ghost all = listed_views(listing@);
    proof {
        assert(all.take(0) =~= Seq::empty());
        assert(entry_views(entries@) =~= Seq::empty());
    }
    while i < listing.len()
        invariant
            i <= listing.len(),
            all == listed_views(listing@),
            entry_views(entries@) == kept_entries(all.take(i as int)),
        decreases listing.len() - i,
    {
        let item = &listing[i];
        let ghost before = entries@;
        proof {
            assert(all.take(i + 1).drop_last() =~= all.take(i as int));
            assert(all.take(i + 1).last() == item@);
        }
        match (&item.name, item.is_directory) {
            (Some(name), Some(is_directory)) => {
                let entry = DirEntry { name: name.clone(), is_directory };
                entries.push(entry);
                proof {
                    assert(entry_views(entries@) =~= entry_views(before).push(entry@));
                }
            },
            _ => {},
        }
        i = i + 1;
    }
    proof {
        assert(all.take(i as int) =~= all);
    }
    entries
}

/// The lock files that were found beside a manifest.
#[derive(Clone, Copy, Debug, PartialEq, Eq, Structural)]
pub struct LockFiles {
    /// `pnpm-lock.yaml`
    pub pnpm: bool,
    /// `yarn.lock`
    pub yarn: bool,
    /// `package-lock.json`
    pub npm: bool,
}

/// The package manager that the lock files point to: pnpm before yarn
/// before npm, and none without a lock file.
pub open spec fn package_manager_text(locks: LockFiles) -> Option<Seq<char>> {
    if locks.pnpm {
        Some("pnpm"@)
    } else if locks.yarn {
        Some("yarn"@)
    } else if locks.npm {
        Some("npm"@)
    } else {
        None
    }
}

/// What a manifest says as far as a descriptor needs it: the package name
/// and the names of the scripts, in any order. A manifest names each script
/// once; a list that repeats a name is taken as it is.
pub struct PackageJsonView {
    pub name: Option<Seq<char>>,
    pub scripts: Option<Seq<Seq<char>>>,
}

/// What was read of a manifest.
pub struct PackageJson {
    pub name: Option<String>,
    pub scripts: Option<Vec<String>>,
}

/// The strings of a list, each as its text.
pub open spec fn texts_of(strings: Seq<String>) -> Seq<Seq<char>> {
    Seq::new(strings.len(), |i: int| strings[i]@)
}

impl View for PackageJson {
    type V = PackageJsonView;

    open spec fn view(&self) -> PackageJsonView {
        PackageJsonView {
            name: match self.name {
                Some(name) => Some(name@),
                None => None,
            },
            scripts: match self.scripts {
                Some(names) => Some(texts_of(names@)),
                None => None,
            },
        }
    }
}

/// What came of reading `package.json`.
pub enum ManifestView {
    /// There is no such file.
    Missing,
    /// The file could not be read or is not a manifest; the text says why.
    Failed { message: Seq<char> },
    Parsed { manifest: PackageJsonView },
}

/// What came of reading `package.json`, as the reader hands it in.
pub enum Manifest {
    Missing,
    Failed { message: String },
    Parsed { manifest: PackageJson },
}

impl View for Manifest {
    type V = ManifestView;

    open spec fn view(&self) -> ManifestView {
        match self {
            Manifest::Missing => ManifestView::Missing,
            Manifest::Failed { message } => ManifestView::Failed { message: message@ },
            Manifest::Parsed { manifest } => ManifestView::Parsed { manifest: manifest@ },
        }
    }
}

/// A project descriptor.
pub struct ProjectInfoView {
    pub name: Seq<char>,
    pub scripts: Seq<Seq<char>>,
    pub path: Seq<char>,
    pub package_manager: Option<Seq<char>>,
}

/// A project descriptor, as it is handed out.
#[derive(Clone, Debug)]
pub struct ProjectInfo {
    pub name: String,
    pub scripts: Vec<String>,
    pub path: String,
    pub package_manager: Option<String>,
}

impl View for ProjectInfo {
    type V = ProjectInfoView;

    open spec fn view(&self) -> ProjectInfoView {
        ProjectInfoView {
            name: self.name@,
            scripts: texts_of(self.scripts@),
            path: self.path@,
            package_manager: match self.package_manager {
                Some(manager) => Some(manager@),
                None => None,
            },
        }
    }
}

/// The order of texts: by the first character in which they differ, as the
/// code points are numbered, and a text before its extensions.
pub open spec fn text_le(a: Seq<char>, b: Seq<char>) -> bool
    decreases a.len(),
{
    if a.len() == 0 {
        true
    } else if b.len() == 0 {
        false
    } else if a[0] != b[0] {
        (a[0] as u32) < (b[0] as u32)
    } else {
        text_le(a.drop_first(), b.drop_first())
    }
}

/// Whether each text of a list is followed only by texts that it precedes
/// or equals.
pub open spec fn ascending(texts: Seq<Seq<char>>) -> bool {
    forall|i: int, j: int| 0 <= i <= j < texts.len() ==> text_le(#[trigger] texts[i], #[trigger] texts[j])
}

/// Whether each text of a list comes before the texts behind it and differs
/// from them.
pub open spec fn strictly_ascending(texts: Seq<Seq<char>>) -> bool {
    forall|i: int, j: int|
        0 <= i < j < texts.len() ==> text_le(#[trigger] texts[i], #[trigger] texts[j]) && texts[i]
            != texts[j]
}

/// Sorts strings with `sort` of std's slices, which orders `String` as it
/// orders `str`: afterwards the list holds the same texts, each as often as
/// before, in ascending order of their code points.
#[verifier::external_body]
fn sort_texts(texts: &mut Vec<String>)
    ensures
        texts_of(final(texts)@).to_multiset() == texts_of(old(texts)@).to_multiset(),
        ascending(texts_of(final(texts)@)),
{
    texts.sort();
}

/// The script names of a manifest, none where it has no scripts.
pub open spec fn script_names(manifest: PackageJsonView) -> Seq<Seq<char>> {
    match manifest.scripts {
        Some(names) => names,
        None => Seq::empty(),
    }
}

/// The name of a project: that of its manifest, or else that of its folder.
pub open spec fn project_name(manifest: PackageJsonView, folder: Option<Seq<char>>) -> Seq<char> {
    match manifest.name {
        Some(name) => name,
        None => folder->0,
    }
}

fn package_manager(locks: LockFiles) -> (manager: Option<String>)
    ensures
        match manager {
            Some(name) => package_manager_text(locks) == Some(name@),
            None => package_manager_text(locks) is None,
        },
{
    if locks.pnpm {
        Some("pnpm".to_owned())
    } else if locks.yarn {
        Some("yarn".to_owned())
    } else if locks.npm {
        Some("npm".to_owned())
    } else {
        None
    }
}

/// Describes the project at `path` from what was read there: the manifest,
/// the lock files beside it, and the last component of the path (`folder`),
/// which names a project whose manifest has no name.
///
/// Without a manifest there is no descriptor: the error is
/// `package.json not found` where the file is missing, and the reader's own
/// text where it could not be read or parsed. Otherwise the descriptor holds
/// the script names in ascending order: each as often as it was given, so
/// names that differ pairwise come out strictly ascending.
pub fn scan_project(
    path: String,
    folder: Option<String>,
    manifest: Manifest,
    locks: LockFiles,
) -> (result: Result<ProjectInfo, String>)
    requires
        manifest@ matches ManifestView::Parsed { manifest: parsed } ==> parsed.name is Some
            || folder is Some,
    ensures
        match manifest@ {
            ManifestView::Missing => result is Err && result->Err_0@ == "package.json not found"@,
            ManifestView::Failed { message } => result is Err && result->Err_0@ == message,
            ManifestView::Parsed { manifest: parsed } => {
                &&& result is Ok
                &&& result->Ok_0@.name == project_name(
                    parsed,
                    match folder {
                        Some(name) => Some(name@),
                        None => None,
                    },
                )
                &&& result->Ok_0@.path == path@
                &&& result->Ok_0@.package_manager == package_manager_text(locks)
                &&& result->Ok_0@.scripts.to_multiset() == script_names(parsed).to_multiset()
                &&& ascending(result->Ok_0@.scripts)
                &&& script_names(parsed).no_duplicates() ==> strictly_ascending(
                    result->Ok_0@.scripts,
                )
            },
        },
{
    match manifest {
        Manifest::Missing => Err("package.json not found".to_owned()),
        Manifest::Failed { message } => Err(message),
        Manifest::Parsed { manifest } => {
            let mut scripts = match manifest.scripts {
                Some(names) => names,
                None => {
                    let none: Vec<String> = Vec::new();
                    proof {
                        assert(texts_of(none@) =~= Seq::empty());
                    }
                    none
                },
            };
            let ghost given = texts_of(scripts@);
            sort_texts(&mut scripts);
            proof {
                if given.no_duplicates() {
                    lemma_ascending_without_repeats(texts_of(scripts@), given);
                }
            }
            let name = match manifest.name {
                Some(name) => name,
                None => folder.unwrap(),
            };
            Ok(ProjectInfo { name, scripts, path, package_manager: package_manager(locks) })
        },
    }
}

proof fn lemma_ascending_without_repeats(sorted: Seq<Seq<char>>, given: Seq<Seq<char>>)
    requires
        ascending(sorted),
        sorted.to_multiset() == given.to_multiset(),
        given.no_duplicates(),
    ensures
        strictly_ascending(sorted),
{
    given.lemma_multiset_has_no_duplicates();
    sorted.lemma_multiset_has_no_duplicates_conv();
}

proof fn lemma_text_le_antisymmetric(a: Seq<char>, b: Seq<char>)
    requires
        text_le(a, b),
        text_le(b, a),
    ensures
        a == b,
    decreases a.len(),
{
    if a.len() == 0 || b.len() == 0 {
        assert(a =~= b);
    } else {
        lemma_text_le_antisymmetric(a.drop_first(), b.drop_first());
        assert(a =~= seq![a[0]] + a.drop_first());
        assert(b =~= seq![b[0]] + b.drop_first());
    }
}

proof fn lemma_first_is_least(a: Seq<Seq<char>>, b: Seq<Seq<char>>)
    requires
        ascending(a),
        a.to_multiset() == b.to_multiset(),
        b.len() > 0,
    ensures
        a.len() > 0,
        text_le(a[0], b[0]),
{
    vstd::seq_lib::to_multiset_len(a);
    vstd::seq_lib::to_multiset_len(b);
    vstd::seq_lib::to_multiset_contains(a, b[0]);
    vstd::seq_lib::to_multiset_contains(b, b[0]);
    assert(b.contains(b[0]));
    let i = choose|i: int| 0 <= i < a.len() && a[i] == b[0];
    assert(text_le(a[0], a[i]));
}

/// There is one ascending order of given texts: two ascending lists that
/// hold the same texts, each as often, are the same list.
pub proof fn lemma_ascending_unique(a: Seq<Seq<char>>, b: Seq<Seq<char>>)
    requires
        ascending(a),
        ascending(b),
        a.to_multiset() == b.to_multiset(),
    ensures
        a == b,
    decreases a.len(),
{
    vstd::seq_lib::to_multiset_len(a);
    vstd::seq_lib::to_multiset_len(b);
    if a.len() == 0 {
        assert(a =~= b);
    } else {
        lemma_first_is_least(a, b);
        lemma_first_is_least(b, a);
        lemma_text_le_antisymmetric(a[0], b[0]);
        let rest_a = a.remove(0);
        let rest_b = b.remove(0);
        vstd::seq_lib::to_multiset_remove(a, 0);
        vstd::seq_lib::to_multiset_remove(b, 0);
        assert forall|i: int, j: int| 0 <= i <= j < rest_a.len() implies text_le(
            #[trigger] rest_a[i],
            #[trigger] rest_a[j],
        ) by {
            assert(text_le(a[i + 1], a[j + 1]));
        }
        assert forall|i: int, j: int| 0 <= i <= j < rest_b.len() implies text_le(
            #[trigger] rest_b[i],
            #[trigger] rest_b[j],
        ) by {
            assert(text_le(b[i + 1], b[j + 1]));
        }
        lemma_ascending_unique(rest_a, rest_b);
        assert forall|i: int| 0 <= i < a.len() implies a[i] == b[i] by {
            if i > 0 {
                assert(rest_a[i - 1] == a[i]);
                assert(rest_b[i - 1] == b[i]);
            }
        }
        assert(a =~= b);
    }
}

} // verus!
