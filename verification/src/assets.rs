//! Files a theme serves to the ChatGPT page through the local asset service.

use vstd::prelude::*;

use crate::paths::{LocalPath, PathView};
use crate::text::opt_str;

verus! {

/// Where the bytes of an asset come from.
#[derive(Debug, Clone)]
pub enum ThemeRuntimeAssetSource {
    /// Held in memory.
    Memory(Vec<u8>),
    /// Streamed from a file on disk, never copied.
    File(LocalPath),
}

/// How the asset service delivers an asset.
#[derive(Debug, Clone, Copy, PartialEq, Eq, Structural)]
pub enum ThemeAssetPolicy {
    /// Images, audio and video.
    Media,
    /// Files of a Web wallpaper, served inside an offline sandbox.
    SandboxedWeb,
}

/// One asset of a theme.
#[derive(Debug, Clone)]
pub struct ThemeRuntimeAsset {
    /// Logical path the theme refers to it by.
    pub path: String,
    /// MIME type it is served with.
    pub mime: String,
    pub source: ThemeRuntimeAssetSource,
    /// Route below the sandbox origin (Web wallpapers only).
    pub route_path: Option<String>,
    pub policy: ThemeAssetPolicy,
}

/// The value of a [`ThemeRuntimeAssetSource`].
pub enum SourceView {
    Memory(Seq<u8>),
    File(PathView),
}

/// The value of a [`ThemeRuntimeAsset`].
pub struct AssetView {
    pub path: Seq<char>,
    pub mime: Seq<char>,
    pub source: SourceView,
    pub route_path: Option<Seq<char>>,
    pub policy: ThemeAssetPolicy,
}

impl ThemeRuntimeAsset {
    /// The asset as plain values.
    pub open spec fn spec_view(&self) -> AssetView {
        AssetView {
            path: self.path@,
            mime: self.mime@,
            source: match self.source {
                ThemeRuntimeAssetSource::Memory(bytes) => SourceView::Memory(bytes@),
                ThemeRuntimeAssetSource::File(p) => SourceView::File(p.spec_view()),
            },
            route_path: opt_str(self.route_path),
            policy: self.policy,
        }
    }
}

impl ThemeRuntimeAsset {
    /// A copy of the asset.
    pub fn duplicate(&self) -> (r: ThemeRuntimeAsset)
        ensures
            r.spec_view() == self.spec_view(),
    {
        let source = match &self.source {
            ThemeRuntimeAssetSource::Memory(bytes) => {
                let copy = bytes.clone();
                assert(copy@ =~= bytes@);
                ThemeRuntimeAssetSource::Memory(copy)
            },
            ThemeRuntimeAssetSource::File(p) => ThemeRuntimeAssetSource::File(p.duplicate()),
        };
        let route_path = match &self.route_path {
            Some(r) => Some(r.clone()),
            None => None,
        };
        ThemeRuntimeAsset {
            path: self.path.clone(),
            mime: self.mime.clone(),
            source,
            route_path,
            policy: self.policy,
        }
    }

    /// A media asset held in memory.
    pub fn from_memory(path: String, mime: String, source: Vec<u8>) -> (r: Self)
        ensures
            r.path == path,
            r.mime == mime,
            r.source == ThemeRuntimeAssetSource::Memory(source),
            r.route_path is None,
            r.policy == ThemeAssetPolicy::Media,
    {
        Self {
            path,
            mime,
            source: ThemeRuntimeAssetSource::Memory(source),
            route_path: None,
            policy: ThemeAssetPolicy::Media,
        }
    }

    /// A media asset streamed from a file.
    pub fn from_file(path: String, mime: String, source: LocalPath) -> (r: Self)
        ensures
            r.path == path,
            r.mime == mime,
            r.source == ThemeRuntimeAssetSource::File(source),
            r.route_path is None,
            r.policy == ThemeAssetPolicy::Media,
    {
        Self {
            path,
            mime,
            source: ThemeRuntimeAssetSource::File(source),
            route_path: None,
            policy: ThemeAssetPolicy::Media,
        }
    }

    /// A file of a Web wallpaper, served in the sandbox under `route_path`.
    pub fn from_web_file(path: String, mime: String, source: LocalPath, route_path: String) -> (r:
        Self)
        ensures
            r.path == path,
            r.mime == mime,
            r.source == ThemeRuntimeAssetSource::File(source),
            r.route_path == Some(route_path),
            r.policy == ThemeAssetPolicy::SandboxedWeb,
    {
        Self {
            path,
            mime,
            source: ThemeRuntimeAssetSource::File(source),
            route_path: Some(route_path),
            policy: ThemeAssetPolicy::SandboxedWeb,
        }
    }
}

} // verus!

verus! {

/// Index of the first asset with logical path `path`, or -1.
pub open spec fn index_of_path(s: Seq<AssetView>, path: Seq<char>) -> int
    decreases s.len(),
{
    if s.len() == 0 {
        -1
    } else if s.last().path == path && index_of_path(s.drop_last(), path) < 0 {
        s.len() - 1
    } else {
        index_of_path(s.drop_last(), path)
    }
}

/// Assets keyed by logical path after inserting `a`: it replaces the asset
/// with the same path, or is appended.
pub open spec fn insert_by_path(s: Seq<AssetView>, a: AssetView) -> Seq<AssetView> {
    let k = index_of_path(s, a.path);
    if k < 0 {
        s.push(a)
    } else {
        s.update(k, a)
    }
}

/// Where `index_of_path` points, and that no earlier asset has the path.
pub proof fn lemma_index_of_path(s: Seq<AssetView>, path: Seq<char>)
    ensures
        -1 <= index_of_path(s, path) < s.len(),
        index_of_path(s, path) >= 0 ==> s[index_of_path(s, path)].path == path,
        forall|j: int|
            0 <= j < s.len() && (j < index_of_path(s, path) || index_of_path(s, path) < 0)
                ==> s[j].path != path,
    decreases s.len(),
{
    if s.len() > 0 {
        lemma_index_of_path(s.drop_last(), path);
        assert forall|j: int|
            0 <= j < s.len() && (j < index_of_path(s, path) || index_of_path(s, path) < 0) implies s[j].path
            != path by {
            if j < s.len() - 1 {
                assert(s[j] == s.drop_last()[j]);
            }
        }
    }
}

/// Inserts `a` into assets keyed by logical path (`HashMap::insert`).
pub fn insert_asset(assets: &mut Vec<ThemeRuntimeAsset>, a: ThemeRuntimeAsset)
    ensures
        final(assets)@.map_values(|x: ThemeRuntimeAsset| x.spec_view()) == insert_by_path(
            old(assets)@.map_values(|x: ThemeRuntimeAsset| x.spec_view()),
            a.spec_view(),
        ),
{
    let ghost s = assets@.map_values(|x: ThemeRuntimeAsset| x.spec_view());
    proof {
        lemma_index_of_path(s, a.spec_view().path);
    }
    let mut i: usize = 0;
    while i < assets.len()
        invariant
            i <= assets.len(),
            s == assets@.map_values(|x: ThemeRuntimeAsset| x.spec_view()),
            s == old(assets)@.map_values(|x: ThemeRuntimeAsset| x.spec_view()),
            forall|j: int| 0 <= j < i ==> (#[trigger] s[j]).path != a.spec_view().path,
        decreases assets.len() - i,
    {
        if crate::text::str_eq(assets[i].path.as_str(), a.path.as_str()) {
            proof {
                lemma_index_of_path(s, a.spec_view().path);
                let k = index_of_path(s, a.spec_view().path);
                assert(s[i as int].path == a.spec_view().path);
                if k >= 0 && k < i {
                    assert(s[k].path != a.spec_view().path);
                }
                assert(k == i);
            }
            assets.set(i, a);
            proof {
                assert(assets@.map_values(|x: ThemeRuntimeAsset| x.spec_view()) =~= s.update(
                    i as int,
                    a.spec_view(),
                ));
            }
            return;
        }
        i = i + 1;
    }
    assets.push(a);
    proof {
        lemma_index_of_path(s, a.spec_view().path);
        if index_of_path(s, a.spec_view().path) >= 0 {
            let k = index_of_path(s, a.spec_view().path);
            assert(s[k].path != a.spec_view().path);
        }
        assert(assets@.map_values(|x: ThemeRuntimeAsset| x.spec_view()) =~= s.push(a.spec_view()));
    }
}

} // verus!

verus! {

/// No two assets share a logical path.
pub open spec fn paths_unique(s: Seq<AssetView>) -> bool {
    forall|i: int, j: int| #![trigger s[i], s[j]] 0 <= i < j < s.len() ==> s[i].path != s[j].path
}

/// Inserting keyed by path behaves like a map: paths stay unique, the
/// inserted asset is the one found under its path, and every other asset
/// stays.
pub proof fn law_insert_by_path_is_a_map_insert(s: Seq<AssetView>, a: AssetView)
    requires
        paths_unique(s),
    ensures
        paths_unique(insert_by_path(s, a)),
        index_of_path(insert_by_path(s, a), a.path) >= 0,
        insert_by_path(s, a)[index_of_path(insert_by_path(s, a), a.path)] == a,
        forall|i: int|
            0 <= i < s.len() && s[i].path != a.path ==> insert_by_path(s, a).contains(
                #[trigger] s[i],
            ),
{
    lemma_index_of_path(s, a.path);
    let t = insert_by_path(s, a);
    let k = index_of_path(s, a.path);
    assert forall|i: int, j: int| #![trigger t[i], t[j]] 0 <= i < j < t.len() implies t[i].path
        != t[j].path by {
        if k < 0 {
            if j == s.len() {
                assert(s[i].path != a.path);
            } else {
                assert(s[i].path != s[j].path);
            }
        } else {
            if i == k {
                assert(s[j].path != s[k].path);
            } else if j == k {
                assert(s[i].path != s[k].path);
            } else {
                assert(s[i].path != s[j].path);
            }
        }
    }
    lemma_index_of_path(t, a.path);
    let kt = index_of_path(t, a.path);
    if k < 0 {
        assert(t[s.len() as int] == a);
        if kt < s.len() {
            assert(t[kt].path == s[kt].path);
        }
    } else {
        assert(t[k] == a);
        if kt != k {
            assert(t[kt].path == a.path);
        }
    }
    assert forall|i: int| 0 <= i < s.len() && s[i].path != a.path implies t.contains(#[trigger] s[i]) by {
        assert(t[i] == s[i]);
    }
}

} // verus!
