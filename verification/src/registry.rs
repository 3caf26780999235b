//! The registry of installed online themes: for each theme id, the installed
//! version, the digest of the installed archive (which names its encrypted
//! cache file) and the online source it came from. Ids are unique and kept
//! in ascending order, so the registry lists and serialises like an ordered
//! map.

use vstd::prelude::*;

use crate::error::{theme_error, ThemeError};
use crate::versions::{semver_parse_error, semver_precedence, version_parse_error,
    version_precedence};
use crate::text::{chars_eq, chars_lt, chars_of, concat, lemma_seq_lt_irreflexive,
    lemma_seq_lt_total, lemma_seq_lt_transitive, seq_lt, str_eq};

verus! {

/// Where an installed online theme was downloaded from.
#[derive(Debug, Clone)]
pub struct OnlineThemeSource {
    pub slug: String,
}

/// One installed theme.
#[derive(Debug, Clone)]
pub struct InstalledTheme {
    /// The installed semantic version.
    pub version: String,
    /// SHA-256 of the installed archive, in lowercase hex.
    pub digest: String,
    pub online: OnlineThemeSource,
}

/// The value of an [`InstalledTheme`].
pub struct InstalledView {
    pub version: Seq<char>,
    pub digest: Seq<char>,
    pub slug: Seq<char>,
}

impl InstalledTheme {
    /// The record as plain values.
    pub open spec fn spec_view(&self) -> InstalledView {
        InstalledView { version: self.version@, digest: self.digest@, slug: self.online.slug@ }
    }

    /// A copy of the record.
    pub fn duplicate(&self) -> (r: InstalledTheme)
        ensures
            r.spec_view() == self.spec_view(),
    {
        InstalledTheme {
            version: self.version.clone(),
            digest: self.digest.clone(),
            online: OnlineThemeSource { slug: self.online.slug.clone() },
        }
    }
}

/// Registry entries as plain values.
pub open spec fn entry_views(themes: Seq<(String, InstalledTheme)>) -> Seq<
    (Seq<char>, InstalledView),
> {
    themes.map_values(|e: (String, InstalledTheme)| (e.0@, e.1.spec_view()))
}

/// Ids strictly ascending (so each occurs once).
pub open spec fn ids_sorted(s: Seq<(Seq<char>, InstalledView)>) -> bool {
    forall|i: int, j: int| #![trigger s[i], s[j]] 0 <= i < j < s.len() ==> seq_lt(s[i].0, s[j].0)
}

/// Index of the first entry with id `k`, or -1.
pub open spec fn key_index(s: Seq<(Seq<char>, InstalledView)>, k: Seq<char>) -> int
    decreases s.len(),
{
    if s.len() == 0 {
        -1
    } else if s.last().0 == k && key_index(s.drop_last(), k) < 0 {
        s.len() - 1
    } else {
        key_index(s.drop_last(), k)
    }
}

/// The map from id to record that a sequence of entries stands for.
pub open spec fn entries_map(s: Seq<(Seq<char>, InstalledView)>) -> Map<Seq<char>, InstalledView> {
    Map::new(|k: Seq<char>| key_index(s, k) >= 0, |k: Seq<char>| s[key_index(s, k)].1)
}

/// Some installed theme has archive digest `d`.
pub open spec fn digest_in_use(m: Map<Seq<char>, InstalledView>, d: Seq<char>) -> bool {
    exists|k: Seq<char>| m.contains_key(k) && (#[trigger] m[k]).digest == d
}

pub proof fn lemma_key_index(s: Seq<(Seq<char>, InstalledView)>, k: Seq<char>)
    ensures
        -1 <= key_index(s, k) < s.len(),
        key_index(s, k) >= 0 ==> s[key_index(s, k)].0 == k,
        forall|j: int|
            0 <= j < s.len() && (j < key_index(s, k) || key_index(s, k) < 0) ==> (#[trigger] s[j]).0
                != k,
    decreases s.len(),
{
    if s.len() > 0 {
        lemma_key_index(s.drop_last(), k);
        assert forall|j: int|
            0 <= j < s.len() && (j < key_index(s, k) || key_index(s, k) < 0) implies (
            #[trigger] s[j]).0 != k by {
            if j < s.len() - 1 {
                assert(s[j] == s.drop_last()[j]);
            }
        }
    }
}

/// In an ordered registry the entry at `i` is the one found for its id.
pub proof fn lemma_map_entry(s: Seq<(Seq<char>, InstalledView)>, i: int)
    requires
        ids_sorted(s),
        0 <= i < s.len(),
    ensures
        key_index(s, s[i].0) == i,
        entries_map(s).contains_key(s[i].0),
        entries_map(s)[s[i].0] == s[i].1,
{
    lemma_key_index(s, s[i].0);
    let k = key_index(s, s[i].0);
    lemma_seq_lt_irreflexive(s[i].0);
    if k < 0 {
        assert(s[i].0 != s[i].0);
    } else if k < i {
        assert(seq_lt(s[k].0, s[i].0));
    } else if k > i {
        assert(seq_lt(s[i].0, s[k].0));
    }
}

/// Every id of the map is the id of an entry.
pub proof fn lemma_map_key(s: Seq<(Seq<char>, InstalledView)>, k: Seq<char>)
    requires
        entries_map(s).contains_key(k),
    ensures
        0 <= key_index(s, k) < s.len(),
        s[key_index(s, k)].0 == k,
        entries_map(s)[k] == s[key_index(s, k)].1,
{
    lemma_key_index(s, k);
}

/// Replacing the record of an existing id.
proof fn lemma_update_entry(
    s: Seq<(Seq<char>, InstalledView)>,
    i: int,
    e: (Seq<char>, InstalledView),
)
    requires
        ids_sorted(s),
        0 <= i < s.len(),
        s[i].0 == e.0,
    ensures
        ids_sorted(s.update(i, e)),
        entries_map(s.update(i, e)) == entries_map(s).insert(e.0, e.1),
{
    let t = s.update(i, e);
    assert forall|a: int, b: int| #![trigger t[a], t[b]] 0 <= a < b < t.len() implies seq_lt(
        t[a].0,
        t[b].0,
    ) by {
        assert(t[a].0 == s[a].0);
        assert(t[b].0 == s[b].0);
        assert(seq_lt(s[a].0, s[b].0));
    }
    assert(ids_sorted(t));
    let m = entries_map(s).insert(e.0, e.1);
    assert forall|k: Seq<char>| #[trigger] entries_map(t).contains_key(k) implies m.contains_key(k)
        && entries_map(t)[k] == m[k] by {
        lemma_map_key(t, k);
        let j = key_index(t, k);
        if j == i {
            lemma_map_entry(t, i);
        } else {
            assert(t[j] == s[j]);
            lemma_map_entry(s, j);
            lemma_map_entry(t, j);
            lemma_seq_lt_irreflexive(k);
            if j < i {
                assert(seq_lt(s[j].0, s[i].0));
            } else {
                assert(seq_lt(s[i].0, s[j].0));
            }
        }
    }
    assert forall|k: Seq<char>| #[trigger] m.contains_key(k) implies entries_map(t).contains_key(k) by {
        if k == e.0 {
            lemma_map_entry(t, i);
        } else {
            lemma_map_key(s, k);
            let j = key_index(s, k);
            assert(t[j] == s[j]);
            lemma_map_entry(t, j);
        }
    }
    assert(entries_map(t) =~= m);
}

/// Inserting a new id at its place in the order.
proof fn lemma_insert_entry(
    s: Seq<(Seq<char>, InstalledView)>,
    p: int,
    e: (Seq<char>, InstalledView),
)
    requires
        ids_sorted(s),
        0 <= p <= s.len(),
        forall|j: int| 0 <= j < p ==> seq_lt((#[trigger] s[j]).0, e.0),
        forall|j: int| p <= j < s.len() ==> seq_lt(e.0, (#[trigger] s[j]).0),
    ensures
        ids_sorted(s.insert(p, e)),
        entries_map(s.insert(p, e)) == entries_map(s).insert(e.0, e.1),
{
    let t = s.insert(p, e);
    assert forall|a: int, b: int| #![trigger t[a], t[b]] 0 <= a < b < t.len() implies seq_lt(
        t[a].0,
        t[b].0,
    ) by {
        if b < p {
            assert(seq_lt(s[a].0, s[b].0));
        } else if b == p {
            assert(seq_lt(s[a].0, e.0));
        } else if a < p {
            assert(t[b] == s[b - 1]);
            assert(seq_lt(s[a].0, e.0));
            assert(seq_lt(e.0, s[b - 1].0));
            lemma_seq_lt_transitive(s[a].0, e.0, s[b - 1].0);
        } else if a == p {
            assert(t[b] == s[b - 1]);
            assert(seq_lt(e.0, s[b - 1].0));
        } else {
            assert(t[a] == s[a - 1]);
            assert(t[b] == s[b - 1]);
            assert(seq_lt(s[a - 1].0, s[b - 1].0));
        }
    }
    let m = entries_map(s).insert(e.0, e.1);
    assert forall|k: Seq<char>| #[trigger] entries_map(t).contains_key(k) implies m.contains_key(k)
        && entries_map(t)[k] == m[k] by {
        lemma_map_key(t, k);
        let j = key_index(t, k);
        if j == p {
            lemma_map_entry(t, p);
        } else {
            let js = if j < p {
                j
            } else {
                j - 1
            };
            assert(t[j] == s[js]);
            lemma_map_entry(s, js);
            lemma_map_entry(t, j);
            lemma_seq_lt_irreflexive(e.0);
            assert(k != e.0);
        }
    }
    assert forall|k: Seq<char>| #[trigger] m.contains_key(k) implies entries_map(t).contains_key(k) by {
        if k == e.0 {
            lemma_map_entry(t, p);
        } else {
            lemma_map_key(s, k);
            let j = key_index(s, k);
            let jt = if j < p {
                j
            } else {
                j + 1
            };
            assert(t[jt] == s[j]);
            lemma_map_entry(t, jt);
        }
    }
    assert(entries_map(t) =~= m);
}

/// Removing the entry at `p`.
proof fn lemma_remove_entry(s: Seq<(Seq<char>, InstalledView)>, p: int)
    requires
        ids_sorted(s),
        0 <= p < s.len(),
    ensures
        ids_sorted(s.remove(p)),
        entries_map(s.remove(p)) == entries_map(s).remove(s[p].0),
{
    let t = s.remove(p);
    assert forall|a: int, b: int| #![trigger t[a], t[b]] 0 <= a < b < t.len() implies seq_lt(
        t[a].0,
        t[b].0,
    ) by {
        let sa = if a < p {
            a
        } else {
            a + 1
        };
        let sb = if b < p {
            b
        } else {
            b + 1
        };
        assert(t[a] == s[sa]);
        assert(t[b] == s[sb]);
        assert(seq_lt(s[sa].0, s[sb].0));
    }
    let m = entries_map(s).remove(s[p].0);
    assert forall|k: Seq<char>| #[trigger] entries_map(t).contains_key(k) implies m.contains_key(k)
        && entries_map(t)[k] == m[k] by {
        lemma_map_key(t, k);
        let j = key_index(t, k);
        let js = if j < p {
            j
        } else {
            j + 1
        };
        assert(t[j] == s[js]);
        lemma_map_entry(s, js);
        lemma_map_entry(t, j);
        lemma_map_entry(s, p);
        lemma_seq_lt_irreflexive(k);
        if js < p {
            assert(seq_lt(s[js].0, s[p].0));
        } else {
            assert(seq_lt(s[p].0, s[js].0));
        }
    }
    assert forall|k: Seq<char>| #[trigger] m.contains_key(k) implies entries_map(t).contains_key(k) by {
        lemma_map_key(s, k);
        let j = key_index(s, k);
        lemma_map_entry(s, p);
        assert(j != p);
        let jt = if j < p {
            j
        } else {
            j - 1
        };
        assert(t[jt] == s[j]);
        lemma_map_entry(t, jt);
    }
    assert(entries_map(t) =~= m);
}

/// The registry of installed themes.
#[derive(Debug)]
pub struct ThemeRegistry {
    themes: Vec<(String, InstalledTheme)>,
}

impl ThemeRegistry {
    /// The entries in ascending id order.
    pub closed spec fn entries(&self) -> Seq<(Seq<char>, InstalledView)> {
        entry_views(self.themes@)
    }

    /// Well-formed: ids strictly ascending.
    pub open spec fn wf(&self) -> bool {
        ids_sorted(self.entries())
    }
}

impl View for ThemeRegistry {
    type V = Map<Seq<char>, InstalledView>;

    open spec fn view(&self) -> Map<Seq<char>, InstalledView> {
        entries_map(self.entries())
    }
}

} // verus!

verus! {

impl ThemeRegistry {
    /// The empty registry.
    pub fn new() -> (r: ThemeRegistry)
        ensures
            r.wf(),
            r.entries() == Seq::<(Seq<char>, InstalledView)>::empty(),
            r@ == Map::<Seq<char>, InstalledView>::empty(),
    {
        let r = ThemeRegistry { themes: Vec::new() };
        assert(r.entries() =~= Seq::<(Seq<char>, InstalledView)>::empty());
        assert(r@ =~= Map::<Seq<char>, InstalledView>::empty());
        r
    }

    /// Number of installed themes.
    pub fn len(&self) -> (n: usize)
        ensures
            n == self.entries().len(),
    {
        self.themes.len()
    }

    /// Id of the `i`-th theme in ascending id order.
    pub fn id_at(&self, i: usize) -> (id: &String)
        requires
            i < self.entries().len(),
        ensures
            id@ == self.entries()[i as int].0,
    {
        &self.themes[i].0
    }

    /// Record of the `i`-th theme in ascending id order.
    pub fn theme_at(&self, i: usize) -> (t: &InstalledTheme)
        requires
            i < self.entries().len(),
        ensures
            t.spec_view() == self.entries()[i as int].1,
    {
        &self.themes[i].1
    }

    /// Where `id` is (`Ok`), or where it would go (`Err`).
    fn position(&self, id: &str) -> (r: Result<usize, usize>)
        requires
            self.wf(),
        ensures
            r matches Ok(i) ==> i < self.entries().len() && self.entries()[i as int].0 == id@,
            r matches Err(p) ==> p <= self.entries().len() && (forall|j: int|
                0 <= j < p ==> seq_lt((#[trigger] self.entries()[j]).0, id@)) && (forall|j: int|
                p <= j < self.entries().len() ==> seq_lt(id@, (#[trigger] self.entries()[j]).0)),
    {
        let key = chars_of(id);
        let mut i: usize = 0;
        while i < self.themes.len()
            invariant
                self.wf(),
                key@ == id@,
                i <= self.entries().len(),
                self.entries().len() == self.themes.len(),
                forall|j: int| 0 <= j < i ==> seq_lt((#[trigger] self.entries()[j]).0, id@),
            decreases self.themes.len() - i,
        {
            let k = chars_of(self.themes[i].0.as_str());
            assert(k@ == self.entries()[i as int].0);
            if chars_lt(&k, &key) {
                i = i + 1;
            } else if chars_eq(&k, &key) {
                return Ok(i);
            } else {
                proof {
                    lemma_seq_lt_total(k@, id@);
                    assert forall|j: int| i <= j < self.entries().len() implies seq_lt(
                        id@,
                        (#[trigger] self.entries()[j]).0,
                    ) by {
                        if j > i {
                            assert(seq_lt(self.entries()[i as int].0, self.entries()[j].0));
                            lemma_seq_lt_transitive(id@, k@, self.entries()[j].0);
                        }
                    }
                }
                return Err(i);
            }
        }
        Err(i)
    }

    /// The record of theme `id`, if it is installed.
    pub fn get(&self, id: &str) -> (r: Option<&InstalledTheme>)
        requires
            self.wf(),
        ensures
            match r {
                Some(t) => self@.contains_key(id@) && self@[id@] == t.spec_view(),
                None => !self@.contains_key(id@),
            },
    {
        match self.position(id) {
            Ok(i) => {
                proof {
                    lemma_map_entry(self.entries(), i as int);
                }
                Some(&self.themes[i].1)
            },
            Err(p) => {
                proof {
                    if self@.contains_key(id@) {
                        lemma_map_key(self.entries(), id@);
                        let j = key_index(self.entries(), id@);
                        lemma_seq_lt_irreflexive(id@);
                        if j < p {
                            assert(seq_lt(self.entries()[j].0, id@));
                        } else {
                            assert(seq_lt(id@, self.entries()[j].0));
                        }
                    }
                }
                None
            },
        }
    }

    /// Whether theme `id` is installed.
    pub fn contains(&self, id: &str) -> (r: bool)
        requires
            self.wf(),
        ensures
            r == self@.contains_key(id@),
    {
        self.get(id).is_some()
    }

    /// Records `theme` under `id`, replacing an earlier record of the id.
    pub fn insert(&mut self, id: String, theme: InstalledTheme)
        requires
            old(self).wf(),
        ensures
            final(self).wf(),
            final(self)@ == old(self)@.insert(id@, theme.spec_view()),
    {
        let ghost s = self.entries();
        let ghost e = (id@, theme.spec_view());
        match self.position(id.as_str()) {
            Ok(i) => {
                self.themes.set(i, (id, theme));
                proof {
                    assert(self.entries() =~= s.update(i as int, e));
                    lemma_update_entry(s, i as int, e);
                }
            },
            Err(p) => {
                self.themes.insert(p, (id, theme));
                proof {
                    assert(self.entries() =~= s.insert(p as int, e));
                    lemma_insert_entry(s, p as int, e);
                }
            },
        }
    }

    /// Removes theme `id`, returning its record if it was installed.
    pub fn remove(&mut self, id: &str) -> (r: Option<InstalledTheme>)
        requires
            old(self).wf(),
        ensures
            final(self).wf(),
            final(self)@ == old(self)@.remove(id@),
            match r {
                Some(t) => old(self)@.contains_key(id@) && old(self)@[id@] == t.spec_view(),
                None => !old(self)@.contains_key(id@),
            },
    {
        let ghost s = self.entries();
        match self.position(id) {
            Ok(i) => {
                proof {
                    lemma_map_entry(s, i as int);
                }
                let (_, theme) = self.themes.remove(i);
                proof {
                    assert(self.entries() =~= s.remove(i as int));
                    lemma_remove_entry(s, i as int);
                }
                Some(theme)
            },
            Err(p) => {
                proof {
                    if self@.contains_key(id@) {
                        lemma_map_key(s, id@);
                        let j = key_index(s, id@);
                        lemma_seq_lt_irreflexive(id@);
                        if j < p {
                            assert(seq_lt(s[j].0, id@));
                        } else {
                            assert(seq_lt(id@, s[j].0));
                        }
                    }
                    assert(self@ =~= old(self)@.remove(id@));
                }
                None
            },
        }
    }

    /// Whether some installed theme has archive digest `digest`.
    pub fn digest_in_use(&self, digest: &str) -> (r: bool)
        requires
            self.wf(),
        ensures
            r == digest_in_use(self@, digest@),
    {
        let mut i: usize = 0;
        while i < self.themes.len()
            invariant
                self.wf(),
                i <= self.themes.len(),
                self.entries().len() == self.themes.len(),
                forall|j: int| 0 <= j < i ==> (#[trigger] self.entries()[j]).1.digest != digest@,
            decreases self.themes.len() - i,
        {
            if str_eq(self.themes[i].1.digest.as_str(), digest) {
                proof {
                    lemma_map_entry(self.entries(), i as int);
                    let k = self.entries()[i as int].0;
                    assert(self@.contains_key(k) && self@[k].digest == digest@);
                }
                return true;
            }
            i = i + 1;
        }
        proof {
            assert forall|k: Seq<char>| self@.contains_key(k) implies (#[trigger] self@[k]).digest
                != digest@ by {
                lemma_map_key(self.entries(), k);
                let j = key_index(self.entries(), k);
                assert(self.entries()[j].1.digest != digest@);
            }
        }
        false
    }
}

} // verus!

verus! {

/// The map after inserting `entries` one after the other (a later entry for
/// an id replaces an earlier one).
pub open spec fn inserted_all(
    m: Map<Seq<char>, InstalledView>,
    entries: Seq<(Seq<char>, InstalledView)>,
) -> Map<Seq<char>, InstalledView>
    decreases entries.len(),
{
    if entries.len() == 0 {
        m
    } else {
        inserted_all(m, entries.drop_last()).insert(entries.last().0, entries.last().1)
    }
}

/// The map after removing `ids` one after the other.
pub open spec fn removed_all(m: Map<Seq<char>, InstalledView>, ids: Seq<Seq<char>>) -> Map<
    Seq<char>,
    InstalledView,
>
    decreases ids.len(),
{
    if ids.len() == 0 {
        m
    } else {
        removed_all(m, ids.drop_last()).remove(ids.last())
    }
}

/// Digests of the records that removing `ids` one after the other takes out
/// (an id that is not, or no longer, installed takes out nothing).
pub open spec fn removed_digests(m: Map<Seq<char>, InstalledView>, ids: Seq<Seq<char>>) -> Seq<
    Seq<char>,
>
    decreases ids.len(),
{
    if ids.len() == 0 {
        seq![]
    } else {
        let before = removed_all(m, ids.drop_last());
        removed_digests(m, ids.drop_last()) + if before.contains_key(ids.last()) {
            seq![before[ids.last()].digest]
        } else {
            seq![]
        }
    }
}

/// The digests of `ds` that no theme of `m` uses, in order.
pub open spec fn unused_digests(ds: Seq<Seq<char>>, m: Map<Seq<char>, InstalledView>) -> Seq<
    Seq<char>,
>
    decreases ds.len(),
{
    if ds.len() == 0 {
        seq![]
    } else {
        unused_digests(ds.drop_last(), m) + if digest_in_use(m, ds.last()) {
            seq![]
        } else {
            seq![ds.last()]
        }
    }
}

/// What uninstalling a theme took out of the registry.
#[derive(Debug)]
pub struct Uninstalled {
    /// The record of the uninstalled theme.
    pub theme: InstalledTheme,
    /// Another installed theme still uses the same archive, so its cache
    /// file stays.
    pub cache_is_shared: bool,
}

impl ThemeRegistry {
    /// The registry holding `entries`, read in order (a later entry for an
    /// id replaces an earlier one).
    pub fn from_entries(entries: Vec<(String, InstalledTheme)>) -> (r: ThemeRegistry)
        ensures
            r.wf(),
            r@ == inserted_all(Map::empty(), entry_views(entries@)),
    {
        let ghost all = entry_views(entries@);
        let ghost src = entries@;
        let mut rest = entries;
        let mut r = ThemeRegistry::new();
        let n = rest.len();
        let mut i: usize = 0;
        proof {
            assert(rest@ =~= src.skip(0));
            assert(all.take(0) =~= Seq::<(Seq<char>, InstalledView)>::empty());
        }
        while i < n
            invariant
                r.wf(),
                i <= n,
                n == src.len(),
                all == entry_views(src),
                rest@ == src.skip(i as int),
                r@ == inserted_all(Map::empty(), all.take(i as int)),
            decreases n - i,
        {
            let (id, theme) = rest.remove(0);
            proof {
                assert(rest@ =~= src.skip(i + 1));
                assert(all.take(i + 1).drop_last() =~= all.take(i as int));
                assert(all.take(i + 1).last() == (id@, theme.spec_view()));
            }
            r.insert(id, theme);
            i = i + 1;
        }
        assert(all.take(n as int) =~= all);
        r
    }

    /// The entries in ascending id order.
    pub fn to_entries(&self) -> (r: Vec<(String, InstalledTheme)>)
        ensures
            entry_views(r@) == self.entries(),
    {
        let mut r: Vec<(String, InstalledTheme)> = Vec::new();
        let mut i: usize = 0;
        while i < self.themes.len()
            invariant
                i <= self.themes.len(),
                r@.len() == i,
                self.entries().len() == self.themes.len(),
                entry_views(r@) == self.entries().take(i as int),
            decreases self.themes.len() - i,
        {
            let id = self.themes[i].0.clone();
            let theme = self.themes[i].1.duplicate();
            assert(id@ == self.entries()[i as int].0);
            assert(theme.spec_view() == self.entries()[i as int].1);
            let ghost before = r@;
            r.push((id, theme));
            proof {
                assert forall|k: int| 0 <= k < i + 1 implies #[trigger] entry_views(r@)[k]
                    == self.entries().take(i + 1)[k] by {
                    if k < i {
                        assert(r@[k] == before[k]);
                        assert(entry_views(before)[k] == self.entries().take(i as int)[k]);
                    }
                }
            }
            i = i + 1;
            assert(entry_views(r@) =~= self.entries().take(i as int));
        }
        assert(self.entries().take(i as int) =~= self.entries());
        r
    }

    /// The record of theme `id`, or the error `未知主题：<id>`.
    pub fn find(&self, id: &str) -> (r: Result<&InstalledTheme, ThemeError>)
        requires
            self.wf(),
        ensures
            self@.contains_key(id@) ==> (r matches Ok(t) && t.spec_view() == self@[id@]),
            !self@.contains_key(id@) ==> (r matches Err(e) && e.0@ == "未知主题："@ + id@),
    {
        match self.get(id) {
            Some(t) => Ok(t),
            None => Err(ThemeError(concat("未知主题：", id))),
        }
    }

    /// The online slug theme `id` was installed from.
    pub fn online_slug(&self, id: &str) -> (r: Result<String, ThemeError>)
        requires
            self.wf(),
        ensures
            self@.contains_key(id@) ==> (r matches Ok(s) && s@ == self@[id@].slug),
            !self@.contains_key(id@) ==> (r matches Err(e) && e.0@ == "未知主题："@ + id@),
    {
        let t = self.find(id)?;
        Ok(t.online.slug.clone())
    }

    /// Takes theme `id` out of the registry; says whether another theme
    /// still uses its archive. Fails with `主题未安装：<id>` when it is not
    /// installed, leaving the registry as it was.
    pub fn uninstall(&mut self, id: &str) -> (r: Result<Uninstalled, ThemeError>)
        requires
            old(self).wf(),
        ensures
            final(self).wf(),
            !old(self)@.contains_key(id@) ==> (r matches Err(e) && e.0@ == "主题未安装："@ + id@
                && final(self)@ == old(self)@),
            old(self)@.contains_key(id@) ==> (r matches Ok(u) && final(self)@ == old(self)@.remove(
                id@,
            ) && u.theme.spec_view() == old(self)@[id@] && u.cache_is_shared == digest_in_use(
                final(self)@,
                u.theme.digest@,
            )),
    {
        match self.remove(id) {
            Some(theme) => {
                let cache_is_shared = self.digest_in_use(theme.digest.as_str());
                Ok(Uninstalled { theme, cache_is_shared })
            },
            None => Err(ThemeError(concat("主题未安装：", id))),
        }
    }

    /// Drops the themes `ids` (those that failed to load) and returns the
    /// digests whose cache files no remaining theme uses, in removal order.
    pub fn prune(&mut self, ids: &Vec<String>) -> (doomed: Vec<String>)
        requires
            old(self).wf(),
        ensures
            final(self).wf(),
            final(self)@ == removed_all(old(self)@, ids@.map_values(|s: String| s@)),
            doomed@.map_values(|s: String| s@) == unused_digests(
                removed_digests(old(self)@, ids@.map_values(|s: String| s@)),
                final(self)@,
            ),
    {
        let ghost keys = ids@.map_values(|s: String| s@);
        let ghost start = self@;
        let mut removed: Vec<String> = Vec::new();
        let mut i: usize = 0;
        while i < ids.len()
            invariant
                self.wf(),
                i <= ids.len(),
                keys == ids@.map_values(|s: String| s@),
                self@ == removed_all(start, keys.take(i as int)),
                removed@.map_values(|s: String| s@) == removed_digests(start, keys.take(i as int)),
            decreases ids.len() - i,
        {
            proof {
                assert(keys.take(i + 1).drop_last() =~= keys.take(i as int));
                assert(keys.take(i + 1).last() == ids@[i as int]@);
            }
            let ghost before = self@;
            match self.remove(ids[i].as_str()) {
                Some(theme) => {
                    removed.push(theme.digest);
                    proof {
                        assert(removed@.map_values(|s: String| s@) =~= removed_digests(
                            start,
                            keys.take(i as int),
                        ) + seq![before[keys[i as int]].digest]);
                    }
                },
                None => {
                    proof {
                        assert(removed@.map_values(|s: String| s@) =~= removed_digests(
                            start,
                            keys.take(i as int),
                        ) + Seq::<Seq<char>>::empty());
                    }
                },
            }
            i = i + 1;
        }
        proof {
            assert(keys.take(i as int) =~= keys);
        }
        let ghost ds = removed@.map_values(|s: String| s@);
        let mut doomed: Vec<String> = Vec::new();
        let mut j: usize = 0;
        while j < removed.len()
            invariant
                self.wf(),
                j <= removed.len(),
                ds == removed@.map_values(|s: String| s@),
                doomed@.map_values(|s: String| s@) == unused_digests(ds.take(j as int), self@),
            decreases removed.len() - j,
        {
            proof {
                assert(ds.take(j + 1).drop_last() =~= ds.take(j as int));
                assert(ds.take(j + 1).last() == removed@[j as int]@);
            }
            if !self.digest_in_use(removed[j].as_str()) {
                doomed.push(removed[j].clone());
                proof {
                    assert(doomed@.map_values(|s: String| s@) =~= unused_digests(
                        ds.take(j as int),
                        self@,
                    ) + seq![ds[j as int]]);
                }
            } else {
                proof {
                    assert(doomed@.map_values(|s: String| s@) =~= unused_digests(
                        ds.take(j as int),
                        self@,
                    ) + Seq::<Seq<char>>::empty());
                }
            }
            j = j + 1;
        }
        proof {
            assert(ds.take(j as int) =~= ds);
        }
        doomed
    }
}

} // verus!

verus! {

/// Whether a package of theme `id` at version `next` with archive digest
/// `digest` may be installed over the registry `m`: `Ok(replaced)`, or the
/// refusal. A theme that is not installed is always admitted; an installed
/// one only by a version that does not precede the installed one, and by
/// the same version only with the same archive.
pub open spec fn install_verdict(
    m: Map<Seq<char>, InstalledView>,
    id: Seq<char>,
    next: Seq<char>,
    digest: Seq<char>,
) -> Result<bool, Seq<char>> {
    if !m.contains_key(id) {
        Ok(false)
    } else {
        let current = m[id];
        match semver_parse_error(current.version) {
            Some(e) => Err("已安装主题版本损坏："@ + e),
            None => match semver_parse_error(next) {
                Some(e) => Err("主题版本无效："@ + e),
                None => {
                    let p = semver_precedence(next, current.version);
                    if p < 0 {
                        Err("不能用较旧版本覆盖已安装主题"@)
                    } else if p == 0 && digest != current.digest {
                        Err("同一主题版本发布后不可覆盖内容"@)
                    } else {
                        Ok(true)
                    }
                },
            },
        }
    }
}

impl ThemeRegistry {
    /// Decides whether a package of theme `id` at version `version` with
    /// archive digest `digest` may be installed; `Ok(true)` when it replaces
    /// an installed one.
    pub fn admit_install(&self, id: &str, version: &str, digest: &str) -> (r: Result<
        bool,
        ThemeError,
    >)
        requires
            self.wf(),
        ensures
            match r {
                Ok(replaced) => install_verdict(self@, id@, version@, digest@) == Ok::<
                    bool,
                    Seq<char>,
                >(replaced),
                Err(e) => install_verdict(self@, id@, version@, digest@) == Err::<bool, Seq<char>>(
                    e.0@,
                ),
            },
            self@.contains_key(id@) && self@[id@].version == version@ && self@[id@].digest
                == digest@ && semver_parse_error(version@) is None ==> r matches Ok(true),
    {
        let current = match self.get(id) {
            Some(t) => t,
            None => {
                return Ok(false);
            },
        };
        match version_parse_error(current.version.as_str()) {
            Some(e) => {
                return Err(ThemeError(concat("已安装主题版本损坏：", e.as_str())));
            },
            None => {},
        }
        match version_parse_error(version) {
            Some(e) => {
                return Err(ThemeError(concat("主题版本无效：", e.as_str())));
            },
            None => {},
        }
        let p = version_precedence(version, current.version.as_str());
        if p < 0 {
            return Err(theme_error("不能用较旧版本覆盖已安装主题"));
        }
        if p == 0 && !str_eq(digest, current.digest.as_str()) {
            return Err(theme_error("同一主题版本发布后不可覆盖内容"));
        }
        Ok(true)
    }

    /// Records the installation of theme `id` at `version` from archive
    /// `digest`, downloaded as `slug`.
    pub fn record_install(&mut self, id: String, version: String, digest: String, slug: String)
        requires
            old(self).wf(),
        ensures
            final(self).wf(),
            final(self)@ == old(self)@.insert(
                id@,
                InstalledView { version: version@, digest: digest@, slug: slug@ },
            ),
    {
        self.insert(id, InstalledTheme { version, digest, online: OnlineThemeSource { slug } });
    }
}

} // verus!

verus! {

/// Uninstalling a theme right after installing it leaves every other theme
/// as it was; when the theme was new, the registry is back where it
/// started.
pub proof fn law_uninstall_undoes_install(
    m: Map<Seq<char>, InstalledView>,
    id: Seq<char>,
    t: InstalledView,
)
    ensures
        m.insert(id, t).remove(id) == m.remove(id),
        !m.contains_key(id) ==> m.insert(id, t).remove(id) == m,
{
    assert(m.insert(id, t).remove(id) =~= m.remove(id));
    if !m.contains_key(id) {
        assert(m.remove(id) =~= m);
    }
}

/// After an installation is recorded, the theme is found with the recorded
/// version, digest and online slug, and no other theme changes.
pub proof fn law_recorded_install_is_found(
    m: Map<Seq<char>, InstalledView>,
    id: Seq<char>,
    t: InstalledView,
    other: Seq<char>,
)
    requires
        other != id,
    ensures
        m.insert(id, t).contains_key(id),
        m.insert(id, t)[id] == t,
        m.insert(id, t).contains_key(other) == m.contains_key(other),
        m.contains_key(other) ==> m.insert(id, t)[other] == m[other],
{
}

/// Pruning never deletes the cache of a theme that stays installed: no
/// digest it reports is used by a remaining theme.
pub proof fn law_pruned_digests_are_unused(ds: Seq<Seq<char>>, m: Map<Seq<char>, InstalledView>)
    ensures
        forall|i: int|
            0 <= i < unused_digests(ds, m).len() ==> !digest_in_use(
                m,
                #[trigger] unused_digests(ds, m)[i],
            ),
    decreases ds.len(),
{
    if ds.len() > 0 {
        law_pruned_digests_are_unused(ds.drop_last(), m);
        let prev = unused_digests(ds.drop_last(), m);
        assert forall|i: int|
            0 <= i < unused_digests(ds, m).len() implies !digest_in_use(
            m,
            #[trigger] unused_digests(ds, m)[i],
        ) by {
            if i < prev.len() {
                assert(unused_digests(ds, m)[i] == prev[i]);
            }
        }
    }
}

} // verus!
