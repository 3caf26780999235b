//! The Workshop catalog: every playable-looking project directory, described
//! and ordered by title (case-insensitive), then id.

use vstd::prelude::*;

use crate::error::{theme_error, ThemeError};
use crate::paths::{LocalPath, PathView};
use crate::text::{all_digits, chars_lt, chars_of, is_all_digits, lemma_seq_lt_irreflexive,
    lemma_seq_lt_total, lemma_seq_lt_transitive, seq_lt, str_eq};
use crate::workshop::{
    describe_wallpaper_engine_project, spec_describe, MediaLookup, ProjectView,
    WallpaperEngineManifest, WallpaperEngineProject,
};

verus! {

/// Name the Workshop content directory of Wallpaper Engine must have (its
/// Steam app id).
pub const WORKSHOP_APP_ID: &'static str = "431960";

/// `str::to_lowercase` of std: the full Unicode lowercase mapping. Named,
/// not restated: it depends on the string alone.
pub uninterp spec fn unicode_lowercase(s: Seq<char>) -> Seq<char>;

/// Calls `str::to_lowercase`; claims only that the result is the named
/// Unicode lowercase mapping of the argument.
#[verifier::external_body]
fn lowercase(s: &str) -> (r: String)
    ensures
        r@ == unicode_lowercase(s@),
{
    s.to_lowercase()
}

/// One directory entry of the Workshop content directory.
#[derive(Debug, Clone)]
pub struct WorkshopEntry {
    /// The canonical root joined with the entry name.
    pub path: LocalPath,
    pub is_dir: bool,
    pub is_symlink: bool,
    /// The entry's `project.json`, when it could be read and parsed.
    pub manifest: Option<WallpaperEngineManifest>,
    /// The lookup of its declared main file.
    pub media: MediaLookup,
}

/// The scanned Workshop directory.
#[derive(Debug, Clone)]
pub struct WallpaperEngineCatalog {
    pub root: LocalPath,
    pub projects: Vec<WallpaperEngineProject>,
}

/// The Workshop content directory must be named after the app id.
pub fn check_workshop_root(root: &LocalPath) -> (r: Result<(), ThemeError>)
    ensures
        !(root.spec_view().parts.len() > 0 && root.spec_view().parts.last() == WORKSHOP_APP_ID@)
            ==> (r matches Err(e) && e.0@ == "Wallpaper Engine Workshop 目录必须以 431960 结尾"@),
        root.spec_view().parts.len() > 0 && root.spec_view().parts.last() == WORKSHOP_APP_ID@
            ==> r is Ok,
{
    if root.parts.len() == 0 || !str_eq(
        root.parts[root.parts.len() - 1].as_str(),
        WORKSHOP_APP_ID,
    ) {
        return Err(theme_error("Wallpaper Engine Workshop 目录必须以 431960 结尾"));
    }
    Ok(())
}

/// An entry that becomes a catalog project: a real directory (not a link)
/// whose name is all decimal digits and whose manifest could be read.
pub open spec fn entry_kept(e: WorkshopEntry) -> bool {
    &&& e.is_dir
    &&& !e.is_symlink
    &&& e.path.spec_view().parts.len() > 0
    &&& all_digits(e.path.spec_view().parts.last())
    &&& e.manifest is Some
}

/// The catalog project of a kept entry.
pub open spec fn entry_project(e: WorkshopEntry) -> ProjectView {
    spec_describe(e.path.spec_view(), e.path.spec_view().parts.last(), e.manifest->0, e.media)
}

/// The projects of the kept entries, in directory order.
pub open spec fn kept_projects(entries: Seq<WorkshopEntry>) -> Seq<ProjectView>
    decreases entries.len(),
{
    if entries.len() == 0 {
        seq![]
    } else if entry_kept(entries.last()) {
        kept_projects(entries.drop_last()).push(entry_project(entries.last()))
    } else {
        kept_projects(entries.drop_last())
    }
}

/// Catalog order: lowercase title first, then id.
pub open spec fn project_before(a: ProjectView, b: ProjectView) -> bool {
    ||| seq_lt(unicode_lowercase(a.title), unicode_lowercase(b.title))
    ||| unicode_lowercase(a.title) == unicode_lowercase(b.title) && seq_lt(a.id, b.id)
}

/// Two projects share their sort key.
pub open spec fn same_key(a: ProjectView, b: ProjectView) -> bool {
    unicode_lowercase(a.title) == unicode_lowercase(b.title) && a.id == b.id
}

/// No project comes before an earlier one.
pub open spec fn projects_sorted(s: Seq<ProjectView>) -> bool {
    forall|i: int, j: int| 0 <= i < j < s.len() ==> !project_before(#[trigger] s[j], #[trigger] s[i])
}

proof fn lemma_before_order(a: ProjectView, b: ProjectView, c: ProjectView)
    ensures
        !project_before(a, a),
        !(project_before(a, b) && project_before(b, a)),
        project_before(a, b) || same_key(a, b) || project_before(b, a),
        project_before(a, b) && project_before(b, c) ==> project_before(a, c),
        project_before(a, b) && same_key(b, c) ==> project_before(a, c),
{
    let (la, lb, lc) = (
        unicode_lowercase(a.title),
        unicode_lowercase(b.title),
        unicode_lowercase(c.title),
    );
    lemma_seq_lt_irreflexive(la);
    lemma_seq_lt_irreflexive(a.id);
    lemma_seq_lt_total(la, lb);
    lemma_seq_lt_total(a.id, b.id);
    if seq_lt(la, lb) && seq_lt(lb, lc) {
        lemma_seq_lt_transitive(la, lb, lc);
    }
    if seq_lt(a.id, b.id) && seq_lt(b.id, c.id) {
        lemma_seq_lt_transitive(a.id, b.id, c.id);
    }
}

proof fn lemma_insert_multiset<A>(v: Seq<A>, pos: int, x: A)
    requires
        0 <= pos <= v.len(),
    ensures
        v.insert(pos, x).to_multiset() =~= v.to_multiset().insert(x),
{
    broadcast use vstd::seq_lib::group_to_multiset_ensures;

    let w = v.insert(pos, x);
    v.insert_ensures(pos, x);
    assert(w.remove(pos) =~= v);
    assert(w[pos] == x);
    assert(w.contains(x));
}

/// The kept entries have pairwise distinct names (as the entries of one
/// directory listing do).
pub open spec fn names_distinct(entries: Seq<WorkshopEntry>) -> bool {
    forall|a: int, b: int|
        0 <= a < b < entries.len() && entry_kept(#[trigger] entries[a]) && entry_kept(
            #[trigger] entries[b],
        ) ==> entries[a].path.spec_view().parts.last() != entries[b].path.spec_view().parts.last()
}

/// The projects have pairwise distinct ids.
pub open spec fn ids_distinct(s: Seq<ProjectView>) -> bool {
    forall|a: int, b: int| 0 <= a < b < s.len() ==> (#[trigger] s[a]).id != (#[trigger] s[b]).id
}

/// The entry a kept project comes from.
proof fn lemma_kept_origin(es: Seq<WorkshopEntry>, k: int) -> (j: int)
    requires
        0 <= k < kept_projects(es).len(),
    ensures
        0 <= j < es.len(),
        entry_kept(es[j]),
        kept_projects(es)[k] == entry_project(es[j]),
    decreases es.len(),
{
    let rest = es.drop_last();
    if entry_kept(es.last()) && k == kept_projects(rest).len() {
        (es.len() - 1) as int
    } else {
        let j = lemma_kept_origin(rest, k);
        assert(rest[j] == es[j]);
        j
    }
}

/// Entries with distinct names give projects with distinct ids.
proof fn lemma_kept_ids_distinct(es: Seq<WorkshopEntry>)
    requires
        names_distinct(es),
    ensures
        ids_distinct(kept_projects(es)),
    decreases es.len(),
{
    if es.len() > 0 {
        let rest = es.drop_last();
        assert forall|a: int, b: int|
            0 <= a < b < rest.len() && entry_kept(#[trigger] rest[a]) && entry_kept(
                #[trigger] rest[b],
            ) implies rest[a].path.spec_view().parts.last() != rest[b].path.spec_view().parts.last() by {
            assert(rest[a] == es[a] && rest[b] == es[b]);
        }
        lemma_kept_ids_distinct(rest);
        let kr = kept_projects(rest);
        let ke = kept_projects(es);
        if entry_kept(es.last()) {
            assert forall|a: int, b: int| 0 <= a < b < ke.len() implies (#[trigger] ke[a]).id
                != (#[trigger] ke[b]).id by {
                if b == kr.len() {
                    let j = lemma_kept_origin(rest, a);
                    assert(rest[j] == es[j]);
                    assert(entry_kept(es[es.len() - 1]));
                } else {
                    assert(ke[a] == kr[a] && ke[b] == kr[b]);
                }
            }
        }
    }
}

/// A reordering of projects with distinct ids has distinct ids.
proof fn lemma_permuted_ids_distinct(views: Seq<ProjectView>, kept: Seq<ProjectView>)
    requires
        views.to_multiset() == kept.to_multiset(),
        ids_distinct(kept),
    ensures
        ids_distinct(views),
{
    broadcast use vstd::seq_lib::group_to_multiset_ensures;

    assert(kept.no_duplicates()) by {
        assert forall|i: int, j: int|
            0 <= i < kept.len() && 0 <= j < kept.len() && i != j implies kept[i] != kept[j] by {
            if i < j {
                assert(kept[i].id != kept[j].id);
            } else {
                assert(kept[j].id != kept[i].id);
            }
        }
    }
    kept.lemma_multiset_has_no_duplicates();
    views.lemma_multiset_has_no_duplicates_conv();
    assert forall|a: int, b: int| 0 <= a < b < views.len() implies (#[trigger] views[a]).id
        != (#[trigger] views[b]).id by {
        assert(views.to_multiset().count(views[a]) > 0);
        assert(views.to_multiset().count(views[b]) > 0);
        assert(kept.contains(views[a]));
        assert(kept.contains(views[b]));
        let pa = choose|i: int| 0 <= i < kept.len() && kept[i] == views[a];
        let pb = choose|i: int| 0 <= i < kept.len() && kept[i] == views[b];
        assert(views[a] != views[b]);
        if pa < pb {
            assert(kept[pa].id != kept[pb].id);
        } else if pb < pa {
            assert(kept[pb].id != kept[pa].id);
        }
    }
}

/// `entry` is a real, digit-named project directory.
fn is_project_directory(entry: &WorkshopEntry) -> (r: bool)
    ensures
        r == (entry.is_dir && !entry.is_symlink && entry.path.spec_view().parts.len() > 0
            && all_digits(entry.path.spec_view().parts.last())),
{
    if !entry.is_dir || entry.is_symlink || entry.path.parts.len() == 0 {
        return false;
    }
    is_all_digits(entry.path.parts[entry.path.parts.len() - 1].as_str())
}

/// Whether `a` sorts before `b`, given their lowercase titles.
fn before(la: &Vec<char>, a: &WallpaperEngineProject, lb: &Vec<char>, b: &WallpaperEngineProject) -> (r:
    bool)
    requires
        la@ == unicode_lowercase(a.title@),
        lb@ == unicode_lowercase(b.title@),
    ensures
        r == project_before(a.spec_view(), b.spec_view()),
{
    if chars_lt(la, lb) {
        return true;
    }
    if chars_lt(lb, la) {
        return false;
    }
    proof {
        lemma_seq_lt_total(la@, lb@);
    }
    let ia = chars_of(a.id.as_str());
    let ib = chars_of(b.id.as_str());
    chars_lt(&ia, &ib)
}

/// The catalog of a Workshop content directory.
///
/// `root` is the canonical directory, which must be named `431960`;
/// `entries` are its directory entries in the order they were listed.
pub fn wallpaper_engine_catalog(root: LocalPath, entries: Vec<WorkshopEntry>) -> (r: Result<
    WallpaperEngineCatalog,
    ThemeError,
>)
    ensures
        !(root.spec_view().parts.len() > 0 && root.spec_view().parts.last() == WORKSHOP_APP_ID@)
            ==> (r matches Err(e) && e.0@ == "Wallpaper Engine Workshop 目录必须以 431960 结尾"@),
        root.spec_view().parts.len() > 0 && root.spec_view().parts.last() == WORKSHOP_APP_ID@
            ==> (r matches Ok(c) && c.root.spec_view() == root.spec_view() && projects_sorted(
            c.projects@.map_values(|p: WallpaperEngineProject| p.spec_view()),
        ) && c.projects@.map_values(|p: WallpaperEngineProject| p.spec_view()).to_multiset()
            == kept_projects(entries@).to_multiset()),
        names_distinct(entries@) ==> (r matches Ok(c) ==> forall|a: int, b: int|
            0 <= a < b < c.projects.len() ==> (#[trigger] c.projects@[a]).id@ != (
            #[trigger] c.projects@[b]).id@),
{
    check_workshop_root(&root)?;
    let mut projects: Vec<WallpaperEngineProject> = Vec::new();
    let mut lowers: Vec<Vec<char>> = Vec::new();
    let ghost mut views: Seq<ProjectView> = seq![];
    let mut i: usize = 0;
    while i < entries.len()
        invariant
            i <= entries.len(),
            views == projects@.map_values(|p: WallpaperEngineProject| p.spec_view()),
            lowers.len() == projects.len(),
            forall|k: int|
                0 <= k < projects.len() ==> (#[trigger] lowers@[k])@ == unicode_lowercase(
                    projects@[k].title@,
                ),
            projects_sorted(views),
            views.to_multiset() == kept_projects(entries@.take(i as int)).to_multiset(),
        decreases entries.len() - i,
    {
        let entry = &entries[i];
        proof {
            assert(entries@.take(i + 1).drop_last() =~= entries@.take(i as int));
            assert(entries@.take(i + 1).last() == entries@[i as int]);
        }
        if is_project_directory(entry) && entry.manifest.is_some() {
            let manifest = entry.manifest.as_ref().unwrap();
            let id = entry.path.parts[entry.path.parts.len() - 1].clone();
            let project = describe_wallpaper_engine_project(
                &entry.path,
                id,
                manifest,
                entry.media.duplicate(),
            );
            let lower = chars_of(lowercase(project.title.as_str()).as_str());
            let mut pos: usize = 0;
            while pos < projects.len() && !before(&lower, &project, &lowers[pos], &projects[pos])
                invariant
                    pos <= projects.len(),
                    lowers.len() == projects.len(),
                    views == projects@.map_values(|p: WallpaperEngineProject| p.spec_view()),
                    lower@ == unicode_lowercase(project.title@),
                    forall|k: int|
                        0 <= k < projects.len() ==> (#[trigger] lowers@[k])@ == unicode_lowercase(
                            projects@[k].title@,
                        ),
                    forall|k: int|
                        0 <= k < pos ==> !project_before(project.spec_view(), #[trigger] views[k]),
                decreases projects.len() - pos,
            {
                pos = pos + 1;
            }
            let ghost old_views = views;
            let ghost pv = project.spec_view();
            proof {
                assert forall|k: int| pos <= k < old_views.len() implies project_before(
                    pv,
                    #[trigger] old_views[k],
                ) by {
                    lemma_before_order(pv, old_views[pos as int], old_views[k]);
                    lemma_before_order(old_views[pos as int], old_views[k], pv);
                }
                views = old_views.insert(pos as int, pv);
                lemma_insert_multiset(old_views, pos as int, pv);
                old_views.insert_ensures(pos as int, pv);
                assert forall|a: int, b: int| 0 <= a < b < views.len() implies !project_before(
                    #[trigger] views[b],
                    #[trigger] views[a],
                ) by {
                    if a < pos && b == pos {
                        lemma_before_order(pv, old_views[a], pv);
                    } else if a == pos && b > pos {
                        lemma_before_order(pv, old_views[b - 1], pv);
                    } else if a < pos && b > pos {
                        assert(views[b] == old_views[b - 1]);
                    } else if b < pos {
                        assert(views[b] == old_views[b]);
                    } else {
                        assert(views[a] == old_views[a - 1]);
                    }
                }
            }
            proof {
                broadcast use vstd::seq_lib::group_to_multiset_ensures;

                assert(pv == entry_project(entries@[i as int]));
                assert(views.to_multiset() =~= old_views.to_multiset().insert(pv));
            }
            let ghost old_lowers = lowers@;
            let ghost old_projects = projects@;
            lowers.insert(pos, lower);
            projects.insert(pos, project);
            proof {
                assert(views =~= projects@.map_values(|p: WallpaperEngineProject| p.spec_view()));
                assert forall|k: int|
                    0 <= k < projects.len() implies (#[trigger] lowers@[k])@ == unicode_lowercase(
                    projects@[k].title@,
                ) by {
                    if k > pos {
                        assert(lowers@[k] == old_lowers[k - 1]);
                        assert(projects@[k] == old_projects[k - 1]);
                    } else if k < pos {
                        assert(lowers@[k] == old_lowers[k]);
                        assert(projects@[k] == old_projects[k]);
                    }
                }
            }
        }
        i = i + 1;
    }
    assert(entries@.take(entries.len() as int) =~= entries@);
    proof {
        if names_distinct(entries@) {
            lemma_kept_ids_distinct(entries@);
            lemma_permuted_ids_distinct(views, kept_projects(entries@));
            assert forall|a: int, b: int| 0 <= a < b < projects.len() implies (
            #[trigger] projects@[a]).id@ != (#[trigger] projects@[b]).id@ by {
                assert(views[a].id != views[b].id);
            }
        }
    }
    Ok(WallpaperEngineCatalog { root, projects })
}

} // verus!

verus! {

/// The Workshop content directory of Wallpaper Engine below the Program
/// Files directory: `Steam/steamapps/workshop/content/431960`.
pub open spec fn workshop_root_below(program_files: PathView) -> PathView {
    PathView {
        root: program_files.root,
        parts: program_files.parts + seq![
            "Steam"@,
            "steamapps"@,
            "workshop"@,
            "content"@,
            WORKSHOP_APP_ID@,
        ],
    }
}

/// Where the Workshop directory is by default: below the 32-bit Program
/// Files directory `program_files` (the `ProgramFiles(x86)` variable), or
/// below `C:\Program Files (x86)` when it is not set.
pub fn default_wallpaper_engine_root(program_files: Option<LocalPath>) -> (r: LocalPath)
    ensures
        program_files matches Some(p) ==> r.spec_view() == workshop_root_below(p.spec_view()),
        program_files is None ==> r.spec_view() == workshop_root_below(
            PathView { root: "C:\\"@, parts: seq!["Program Files (x86)"@] },
        ),
{
    let base = match program_files {
        Some(p) => p,
        None => {
            let mut parts: Vec<String> = Vec::new();
            parts.push("Program Files (x86)".to_owned());
            let p = LocalPath { root: "C:\\".to_owned(), parts };
            assert(p.parts.deep_view() =~= seq!["Program Files (x86)"@]);
            p
        },
    };
    let r = base.join("Steam").join("steamapps").join("workshop").join("content").join(WORKSHOP_APP_ID);
    assert(r.spec_view().parts =~= base.spec_view().parts + seq![
        "Steam"@,
        "steamapps"@,
        "workshop"@,
        "content"@,
        WORKSHOP_APP_ID@,
    ]);
    r
}

} // verus!
