//! The runtime configuration a theme hands to the page script: the
//! declarative experience of the theme with every asset path replaced by its
//! session URL.

use vstd::prelude::*;

use crate::error::ThemeError;
use crate::text::{concat, opt_str};
use crate::urls::{find_url, lookup_url, url_table};

verus! {

/// Divider below the home hero.
#[derive(Debug, Clone)]
pub struct HeroDivider {
    pub label: String,
    pub asset: Option<String>,
}

/// The large banner of the home page.
#[derive(Debug, Clone)]
pub struct HomeHero {
    pub eyebrow: String,
    pub title: String,
    pub description: String,
    pub asset: String,
    pub foreground: Option<String>,
    pub fit: String,
    pub position: String,
    pub divider: Option<HeroDivider>,
}

/// The compact banner of conversations.
#[derive(Debug, Clone)]
pub struct ConversationBanner {
    pub eyebrow: String,
    pub title: String,
    pub description: String,
    pub asset: String,
    pub foreground: Option<String>,
    pub fit: String,
    pub position: String,
}

/// An image decorating a slot.
#[derive(Debug, Clone)]
pub struct Decoration {
    pub slot: String,
    pub asset: String,
}

/// An image mounted in a controlled asset slot, with optional light and dark
/// variants.
#[derive(Debug, Clone)]
pub struct AssetSlot {
    pub slot: String,
    pub asset: String,
    pub light_asset: Option<String>,
    pub dark_asset: Option<String>,
}

/// The declarative experience of a theme manifest.
#[derive(Debug, Clone)]
pub struct ThemeExperience {
    pub home_hero: HomeHero,
    /// Title of the home prompt.
    pub home_prompt: Option<String>,
    pub conversation_banner: Option<ConversationBanner>,
    pub decorations: Vec<Decoration>,
    /// Asset of the composer submit button.
    pub composer_submit: Option<String>,
    pub composer_decoration: Option<String>,
    pub conversation_summary_decoration: Option<String>,
    pub sidebar_section_decoration: Option<String>,
    pub assets: Vec<AssetSlot>,
    /// Translations by locale: each locale with the JSON text of its
    /// translation, in locale order.
    pub locales: Vec<(String, String)>,
}

/// Resolved divider.
#[derive(Debug, Clone)]
pub struct DividerConfig {
    pub label: String,
    pub asset_url: Option<String>,
}

/// Resolved home hero.
#[derive(Debug, Clone)]
pub struct HeroConfig {
    pub eyebrow: String,
    pub title: String,
    pub description: String,
    pub asset_url: String,
    pub foreground_asset_url: Option<String>,
    pub fit: String,
    pub position: String,
    pub divider: Option<DividerConfig>,
}

/// Resolved conversation banner.
#[derive(Debug, Clone)]
pub struct BannerConfig {
    pub eyebrow: String,
    pub title: String,
    pub description: String,
    pub asset_url: String,
    pub foreground_asset_url: Option<String>,
    pub fit: String,
    pub position: String,
}

/// Resolved decoration.
#[derive(Debug, Clone)]
pub struct DecorationConfig {
    pub slot: String,
    pub asset_url: String,
}

/// Resolved asset slot.
#[derive(Debug, Clone)]
pub struct AssetSlotConfig {
    pub slot: String,
    pub asset_url: String,
    pub light_asset_url: Option<String>,
    pub dark_asset_url: Option<String>,
}

/// The wallpaper of a live wallpaper theme.
#[derive(Debug, Clone)]
pub struct WallpaperConfig {
    pub kind: String,
    pub asset_url: String,
    pub fit: String,
    pub position: String,
    pub brightness: u8,
    pub interface_transparency: u8,
}

/// The runtime configuration of a theme.
#[derive(Debug, Clone)]
pub struct RuntimeConfig {
    pub hero: HeroConfig,
    pub home_prompt: Option<String>,
    pub conversation_banner: Option<BannerConfig>,
    pub composer_submit: Option<String>,
    pub composer_decoration: Option<String>,
    pub conversation_summary_decoration: Option<String>,
    pub sidebar_section_decoration: Option<String>,
    pub assets: Vec<AssetSlotConfig>,
    pub decorations: Vec<DecorationConfig>,
    pub wallpaper: Option<WallpaperConfig>,
    /// The theme's translations, as the theme declares them.
    pub locales: Vec<(String, String)>,
}

/// The path of an optional asset, as a sequence of zero or one paths.
pub open spec fn opt_paths(o: Option<String>) -> Seq<Seq<char>> {
    match o {
        Some(p) => seq![p@],
        None => seq![],
    }
}

/// Paths of the decorations, in order.
pub open spec fn decoration_paths(d: Seq<Decoration>) -> Seq<Seq<char>>
    decreases d.len(),
{
    if d.len() == 0 {
        seq![]
    } else {
        decoration_paths(d.drop_last()).push(d.last().asset@)
    }
}

/// Paths of the asset slots (asset, light, dark), in order.
pub open spec fn slot_paths(a: Seq<AssetSlot>) -> Seq<Seq<char>>
    decreases a.len(),
{
    if a.len() == 0 {
        seq![]
    } else {
        slot_paths(a.drop_last()) + seq![a.last().asset@] + opt_paths(a.last().light_asset)
            + opt_paths(a.last().dark_asset)
    }
}

/// Every asset path an experience refers to, in the order they are resolved.
pub open spec fn experience_paths(e: ThemeExperience) -> Seq<Seq<char>> {
    seq![e.home_hero.asset@] + opt_paths(e.home_hero.foreground) + match e.conversation_banner {
        Some(b) => seq![b.asset@] + opt_paths(b.foreground),
        None => seq![],
    } + match e.home_hero.divider {
        Some(d) => opt_paths(d.asset),
        None => seq![],
    } + decoration_paths(e.decorations@) + opt_paths(e.composer_submit) + opt_paths(
        e.composer_decoration,
    ) + opt_paths(e.conversation_summary_decoration) + opt_paths(e.sidebar_section_decoration)
        + slot_paths(e.assets@)
}

/// Index of the first path without a URL, or `paths.len()`.
pub open spec fn first_unresolved(
    table: Seq<(Seq<char>, Seq<char>)>,
    paths: Seq<Seq<char>>,
) -> int
    decreases paths.len(),
{
    if paths.len() == 0 {
        0
    } else if lookup_url(table, paths[0]) is None {
        0
    } else {
        1 + first_unresolved(table, paths.drop_first())
    }
}

/// The URL of a path that has one.
pub open spec fn url_of(table: Seq<(Seq<char>, Seq<char>)>, path: Seq<char>) -> Seq<char> {
    lookup_url(table, path)->0
}

/// The URL of an optional path.
pub open spec fn opt_url(table: Seq<(Seq<char>, Seq<char>)>, o: Option<String>) -> Option<
    Seq<char>,
> {
    match o {
        Some(p) => Some(url_of(table, p@)),
        None => None,
    }
}

/// Pairs of strings as plain values.
pub open spec fn text_pairs(s: Seq<(String, String)>) -> Seq<(Seq<char>, Seq<char>)> {
    s.map_values(|p: (String, String)| (p.0@, p.1@))
}

/// A copy of the pairs.
fn copy_text_pairs(v: &Vec<(String, String)>) -> (r: Vec<(String, String)>)
    ensures
        text_pairs(r@) == text_pairs(v@),
{
    let mut r: Vec<(String, String)> = Vec::new();
    let mut i: usize = 0;
    while i < v.len()
        invariant
            i <= v.len(),
            text_pairs(r@) == text_pairs(v@.take(i as int)),
        decreases v.len() - i,
    {
        let pair = (v[i].0.clone(), v[i].1.clone());
        let ghost before = r@;
        r.push(pair);
        proof {
            assert(v@.take(i + 1) =~= v@.take(i as int).push(v@[i as int]));
            assert(text_pairs(r@) =~= text_pairs(before).push((v@[i as int].0@, v@[i as int].1@)));
            assert(text_pairs(v@.take(i + 1)) =~= text_pairs(v@.take(i as int)).push(
                (v@[i as int].0@, v@[i as int].1@),
            ));
        }
        i = i + 1;
    }
    assert(v@.take(v.len() as int) =~= v@);
    r
}

/// `config` is `e` with every path replaced by its URL from `table`.
pub open spec fn config_resolves(
    config: RuntimeConfig,
    e: ThemeExperience,
    table: Seq<(Seq<char>, Seq<char>)>,
) -> bool {
    &&& config.hero.eyebrow@ == e.home_hero.eyebrow@
    &&& config.hero.title@ == e.home_hero.title@
    &&& config.hero.description@ == e.home_hero.description@
    &&& config.hero.asset_url@ == url_of(table, e.home_hero.asset@)
    &&& opt_str(config.hero.foreground_asset_url) == opt_url(table, e.home_hero.foreground)
    &&& config.hero.fit@ == e.home_hero.fit@
    &&& config.hero.position@ == e.home_hero.position@
    &&& match (config.hero.divider, e.home_hero.divider) {
        (Some(c), Some(d)) => c.label@ == d.label@ && opt_str(c.asset_url) == opt_url(
            table,
            d.asset,
        ),
        (None, None) => true,
        _ => false,
    }
    &&& opt_str(config.home_prompt) == opt_str(e.home_prompt)
    &&& match (config.conversation_banner, e.conversation_banner) {
        (Some(c), Some(b)) => c.eyebrow@ == b.eyebrow@ && c.title@ == b.title@ && c.description@
            == b.description@ && c.asset_url@ == url_of(table, b.asset@) && opt_str(
            c.foreground_asset_url,
        ) == opt_url(table, b.foreground) && c.fit@ == b.fit@ && c.position@ == b.position@,
        (None, None) => true,
        _ => false,
    }
    &&& opt_str(config.composer_submit) == opt_url(table, e.composer_submit)
    &&& opt_str(config.composer_decoration) == opt_url(table, e.composer_decoration)
    &&& opt_str(config.conversation_summary_decoration) == opt_url(
        table,
        e.conversation_summary_decoration,
    )
    &&& opt_str(config.sidebar_section_decoration) == opt_url(table, e.sidebar_section_decoration)
    &&& config.decorations.len() == e.decorations.len()
    &&& forall|k: int|
        0 <= k < e.decorations.len() ==> (#[trigger] config.decorations@[k]).slot@
            == e.decorations@[k].slot@ && config.decorations@[k].asset_url@ == url_of(
            table,
            e.decorations@[k].asset@,
        )
    &&& config.assets.len() == e.assets.len()
    &&& forall|k: int|
        0 <= k < e.assets.len() ==> (#[trigger] config.assets@[k]).slot@ == e.assets@[k].slot@
            && config.assets@[k].asset_url@ == url_of(table, e.assets@[k].asset@) && opt_str(
            config.assets@[k].light_asset_url,
        ) == opt_url(table, e.assets@[k].light_asset) && opt_str(config.assets@[k].dark_asset_url)
            == opt_url(table, e.assets@[k].dark_asset)
    &&& config.wallpaper is None
    &&& text_pairs(config.locales@) == text_pairs(e.locales@)
}

} // verus!

verus! {

/// Every path of `paths` has a URL.
pub open spec fn all_resolved(table: Seq<(Seq<char>, Seq<char>)>, paths: Seq<Seq<char>>) -> bool {
    forall|i: int| 0 <= i < paths.len() ==> (#[trigger] lookup_url(table, paths[i])) is Some
}

proof fn lemma_first_unresolved(table: Seq<(Seq<char>, Seq<char>)>, paths: Seq<Seq<char>>)
    ensures
        0 <= first_unresolved(table, paths) <= paths.len(),
        forall|i: int|
            0 <= i < first_unresolved(table, paths) ==> (#[trigger] lookup_url(table, paths[i])) is Some,
        first_unresolved(table, paths) < paths.len() ==> lookup_url(
            table,
            paths[first_unresolved(table, paths)],
        ) is None,
    decreases paths.len(),
{
    if paths.len() > 0 && lookup_url(table, paths[0]) is Some {
        lemma_first_unresolved(table, paths.drop_first());
        assert forall|i: int|
            0 <= i < first_unresolved(table, paths) implies (#[trigger] lookup_url(
            table,
            paths[i],
        )) is Some by {
            if i > 0 {
                assert(paths[i] == paths.drop_first()[i - 1]);
            }
        }
    }
}

proof fn lemma_all_resolved_add(
    table: Seq<(Seq<char>, Seq<char>)>,
    a: Seq<Seq<char>>,
    b: Seq<Seq<char>>,
)
    requires
        all_resolved(table, a + b),
    ensures
        all_resolved(table, a),
        all_resolved(table, b),
{
    assert forall|i: int| 0 <= i < a.len() implies (#[trigger] lookup_url(table, a[i])) is Some by {
        assert((a + b)[i] == a[i]);
    }
    assert forall|i: int| 0 <= i < b.len() implies (#[trigger] lookup_url(table, b[i])) is Some by {
        assert((a + b)[a.len() + i] == b[i]);
    }
}

proof fn lemma_decorations_resolved(table: Seq<(Seq<char>, Seq<char>)>, d: Seq<Decoration>)
    requires
        all_resolved(table, decoration_paths(d)),
    ensures
        forall|k: int| 0 <= k < d.len() ==> (#[trigger] lookup_url(table, d[k].asset@)) is Some,
    decreases d.len(),
{
    if d.len() > 0 {
        assert(decoration_paths(d) =~= decoration_paths(d.drop_last()) + seq![d.last().asset@]);
        lemma_all_resolved_add(table, decoration_paths(d.drop_last()), seq![d.last().asset@]);
        lemma_decorations_resolved(table, d.drop_last());
        assert(lookup_url(table, seq![d.last().asset@][0]) is Some);
        assert forall|k: int| 0 <= k < d.len() implies (#[trigger] lookup_url(
            table,
            d[k].asset@,
        )) is Some by {
            if k < d.len() - 1 {
                assert(d[k] == d.drop_last()[k]);
            }
        }
    }
}

/// The slot and its variants have URLs.
pub open spec fn slot_resolved(table: Seq<(Seq<char>, Seq<char>)>, s: AssetSlot) -> bool {
    &&& lookup_url(table, s.asset@) is Some
    &&& s.light_asset is Some ==> lookup_url(table, s.light_asset->0@) is Some
    &&& s.dark_asset is Some ==> lookup_url(table, s.dark_asset->0@) is Some
}

proof fn lemma_slots_resolved(table: Seq<(Seq<char>, Seq<char>)>, a: Seq<AssetSlot>)
    requires
        all_resolved(table, slot_paths(a)),
    ensures
        forall|k: int| 0 <= k < a.len() ==> #[trigger] slot_resolved(table, a[k]),
    decreases a.len(),
{
    if a.len() > 0 {
        let last = a.last();
        let p1 = slot_paths(a.drop_last());
        let p2 = seq![last.asset@];
        let p3 = opt_paths(last.light_asset);
        let p4 = opt_paths(last.dark_asset);
        lemma_all_resolved_add(table, p1 + p2 + p3, p4);
        lemma_all_resolved_add(table, p1 + p2, p3);
        lemma_all_resolved_add(table, p1, p2);
        lemma_slots_resolved(table, a.drop_last());
        assert(lookup_url(table, p2[0]) is Some);
        if last.light_asset is Some {
            assert(lookup_url(table, p3[0]) is Some);
        }
        if last.dark_asset is Some {
            assert(lookup_url(table, p4[0]) is Some);
        }
        assert forall|k: int| 0 <= k < a.len() implies #[trigger] slot_resolved(table, a[k]) by {
            if k < a.len() - 1 {
                assert(a[k] == a.drop_last()[k]);
            }
        }
    }
}

fn push_opt_path(v: &mut Vec<String>, o: &Option<String>)
    ensures
        final(v).deep_view() == old(v).deep_view() + opt_paths(*o),
{
    match o {
        Some(p) => {
            v.push(p.clone());
        },
        None => {},
    }
    proof {
        assert(final(v).deep_view() =~= old(v).deep_view() + opt_paths(*o));
    }
}

/// Every asset path `e` refers to, in resolution order.
pub fn referenced_paths(e: &ThemeExperience) -> (v: Vec<String>)
    ensures
        v.deep_view() == experience_paths(*e),
{
    let mut v: Vec<String> = Vec::new();
    v.push(e.home_hero.asset.clone());
    push_opt_path(&mut v, &e.home_hero.foreground);
    let ghost p1 = v.deep_view();
    match &e.conversation_banner {
        Some(b) => {
            v.push(b.asset.clone());
            push_opt_path(&mut v, &b.foreground);
        },
        None => {},
    }
    proof {
        assert(v.deep_view() =~= p1 + match e.conversation_banner {
            Some(b) => seq![b.asset@] + opt_paths(b.foreground),
            None => seq![],
        });
    }
    let ghost p2 = v.deep_view();
    match &e.home_hero.divider {
        Some(d) => {
            push_opt_path(&mut v, &d.asset);
        },
        None => {},
    }
    proof {
        assert(v.deep_view() =~= p2 + match e.home_hero.divider {
            Some(d) => opt_paths(d.asset),
            None => seq![],
        });
    }
    let ghost p3 = v.deep_view();
    let mut i: usize = 0;
    while i < e.decorations.len()
        invariant
            i <= e.decorations.len(),
            v.deep_view() == p3 + decoration_paths(e.decorations@.take(i as int)),
        decreases e.decorations.len() - i,
    {
        let ghost before = v.deep_view();
        v.push(e.decorations[i].asset.clone());
        proof {
            assert(v.deep_view() =~= before.push(e.decorations@[i as int].asset@));
            assert(e.decorations@.take(i + 1).drop_last() =~= e.decorations@.take(i as int));
            assert(e.decorations@.take(i + 1).last() == e.decorations@[i as int]);
            assert(v.deep_view() =~= p3 + decoration_paths(e.decorations@.take(i + 1)));
        }
        i = i + 1;
    }
    assert(e.decorations@.take(e.decorations.len() as int) =~= e.decorations@);
    push_opt_path(&mut v, &e.composer_submit);
    push_opt_path(&mut v, &e.composer_decoration);
    push_opt_path(&mut v, &e.conversation_summary_decoration);
    push_opt_path(&mut v, &e.sidebar_section_decoration);
    let ghost p4 = v.deep_view();
    let mut j: usize = 0;
    while j < e.assets.len()
        invariant
            j <= e.assets.len(),
            v.deep_view() == p4 + slot_paths(e.assets@.take(j as int)),
        decreases e.assets.len() - j,
    {
        let ghost before = v.deep_view();
        v.push(e.assets[j].asset.clone());
        proof {
            assert(v.deep_view() =~= before + seq![e.assets@[j as int].asset@]);
        }
        push_opt_path(&mut v, &e.assets[j].light_asset);
        push_opt_path(&mut v, &e.assets[j].dark_asset);
        proof {
            assert(e.assets@.take(j + 1).drop_last() =~= e.assets@.take(j as int));
            assert(e.assets@.take(j + 1).last() == e.assets@[j as int]);
            assert(v.deep_view() =~= p4 + slot_paths(e.assets@.take(j + 1)));
        }
        j = j + 1;
    }
    assert(e.assets@.take(e.assets.len() as int) =~= e.assets@);
    proof {
        assert(v.deep_view() =~= experience_paths(*e));
    }
    v
}

/// Index of the first path without a URL.
fn first_missing(urls: &Vec<(String, String)>, paths: &Vec<String>) -> (r: Option<usize>)
    ensures
        match r {
            Some(i) => i == first_unresolved(url_table(urls@), paths.deep_view()) && i
                < paths.len(),
            None => first_unresolved(url_table(urls@), paths.deep_view()) == paths.len(),
        },
{
    let ghost table = url_table(urls@);
    let mut i: usize = 0;
    assert(paths.deep_view().skip(0) =~= paths.deep_view());
    while i < paths.len()
        invariant
            i <= paths.len(),
            table == url_table(urls@),
            first_unresolved(table, paths.deep_view()) == i + first_unresolved(
                table,
                paths.deep_view().skip(i as int),
            ),
        decreases paths.len() - i,
    {
        let u = find_url(urls, paths[i].as_str());
        assert(paths.deep_view().skip(i as int)[0] == paths@[i as int]@);
        if u.is_none() {
            return Some(i);
        }
        assert(paths.deep_view().skip(i as int).drop_first() =~= paths.deep_view().skip(i + 1));
        i = i + 1;
    }
    None
}

fn resolve(urls: &Vec<(String, String)>, path: &String) -> (r: String)
    requires
        lookup_url(url_table(urls@), path@) is Some,
    ensures
        r@ == url_of(url_table(urls@), path@),
{
    find_url(urls, path.as_str()).unwrap()
}

fn resolve_opt(urls: &Vec<(String, String)>, path: &Option<String>) -> (r: Option<String>)
    requires
        path is Some ==> lookup_url(url_table(urls@), path->0@) is Some,
    ensures
        opt_str(r) == opt_url(url_table(urls@), *path),
{
    match path {
        Some(p) => Some(resolve(urls, p)),
        None => None,
    }
}

/// The runtime configuration of `e`, with asset URLs from `urls`; fails on
/// the first referenced asset that has none.
pub fn build_runtime_config_with(e: &ThemeExperience, urls: &Vec<(String, String)>) -> (r: Result<
    RuntimeConfig,
    ThemeError,
>)
    ensures
        ({
            let table = url_table(urls@);
            let paths = experience_paths(*e);
            let f = first_unresolved(table, paths);
            &&& f < paths.len() ==> (r matches Err(err) && err.0@ == "主题资源 URL 缺失："@
                + paths[f])
            &&& f >= paths.len() ==> (r matches Ok(c) && config_resolves(c, *e, table))
        }),
{
    let ghost table = url_table(urls@);
    let paths = referenced_paths(e);
    proof {
        lemma_first_unresolved(table, paths.deep_view());
    }
    match first_missing(urls, &paths) {
        Some(i) => {
            assert(paths.deep_view()[i as int] == paths@[i as int]@);
            return Err(ThemeError(concat("主题资源 URL 缺失：", paths[i].as_str())));
        },
        None => {},
    }
    proof {
        let p = experience_paths(*e);
        assert(all_resolved(table, p));
        let b = match &e.conversation_banner {
            Some(b) => seq![b.asset@] + opt_paths(b.foreground),
            None => seq![],
        };
        let d = match &e.home_hero.divider {
            Some(d) => opt_paths(d.asset),
            None => seq![],
        };
        let a0 = seq![e.home_hero.asset@];
        let a1 = opt_paths(e.home_hero.foreground);
        let a4 = decoration_paths(e.decorations@);
        let a5 = opt_paths(e.composer_submit);
        let a6 = opt_paths(e.composer_decoration);
        let a7 = opt_paths(e.conversation_summary_decoration);
        let a8 = opt_paths(e.sidebar_section_decoration);
        let a9 = slot_paths(e.assets@);
        lemma_all_resolved_add(table, a0 + a1 + b + d + a4 + a5 + a6 + a7 + a8, a9);
        lemma_all_resolved_add(table, a0 + a1 + b + d + a4 + a5 + a6 + a7, a8);
        lemma_all_resolved_add(table, a0 + a1 + b + d + a4 + a5 + a6, a7);
        lemma_all_resolved_add(table, a0 + a1 + b + d + a4 + a5, a6);
        lemma_all_resolved_add(table, a0 + a1 + b + d + a4, a5);
        lemma_all_resolved_add(table, a0 + a1 + b + d, a4);
        lemma_all_resolved_add(table, a0 + a1 + b, d);
        lemma_all_resolved_add(table, a0 + a1, b);
        lemma_all_resolved_add(table, a0, a1);
        assert(lookup_url(table, a0[0]) is Some);
        if e.home_hero.foreground is Some {
            assert(lookup_url(table, a1[0]) is Some);
        }
        match &e.conversation_banner {
            Some(bn) => {
                lemma_all_resolved_add(table, seq![bn.asset@], opt_paths(bn.foreground));
                assert(lookup_url(table, seq![bn.asset@][0]) is Some);
                if bn.foreground is Some {
                    assert(lookup_url(table, opt_paths(bn.foreground)[0]) is Some);
                }
            },
            None => {},
        }
        match &e.home_hero.divider {
            Some(dv) => {
                if dv.asset is Some {
                    assert(lookup_url(table, d[0]) is Some);
                }
            },
            None => {},
        }
        if e.composer_submit is Some {
            assert(lookup_url(table, a5[0]) is Some);
        }
        if e.composer_decoration is Some {
            assert(lookup_url(table, a6[0]) is Some);
        }
        if e.conversation_summary_decoration is Some {
            assert(lookup_url(table, a7[0]) is Some);
        }
        if e.sidebar_section_decoration is Some {
            assert(lookup_url(table, a8[0]) is Some);
        }
        lemma_decorations_resolved(table, e.decorations@);
        lemma_slots_resolved(table, e.assets@);
    }
    let hero = &e.home_hero;
    let divider = match &hero.divider {
        Some(d) => Some(DividerConfig { label: d.label.clone(), asset_url: resolve_opt(urls, &d.asset) }),
        None => None,
    };
    let hero_config = HeroConfig {
        eyebrow: hero.eyebrow.clone(),
        title: hero.title.clone(),
        description: hero.description.clone(),
        asset_url: resolve(urls, &hero.asset),
        foreground_asset_url: resolve_opt(urls, &hero.foreground),
        fit: hero.fit.clone(),
        position: hero.position.clone(),
        divider,
    };
    let banner = match &e.conversation_banner {
        Some(b) => Some(
            BannerConfig {
                eyebrow: b.eyebrow.clone(),
                title: b.title.clone(),
                description: b.description.clone(),
                asset_url: resolve(urls, &b.asset),
                foreground_asset_url: resolve_opt(urls, &b.foreground),
                fit: b.fit.clone(),
                position: b.position.clone(),
            },
        ),
        None => None,
    };
    let mut decorations: Vec<DecorationConfig> = Vec::new();
    let mut i: usize = 0;
    while i < e.decorations.len()
        invariant
            i <= e.decorations.len(),
            decorations.len() == i,
            forall|k: int|
                0 <= k < e.decorations.len() ==> (#[trigger] lookup_url(
                    url_table(urls@),
                    e.decorations@[k].asset@,
                )) is Some,
            forall|k: int|
                0 <= k < i ==> (#[trigger] decorations@[k]).slot@ == e.decorations@[k].slot@
                    && decorations@[k].asset_url@ == url_of(
                    url_table(urls@),
                    e.decorations@[k].asset@,
                ),
        decreases e.decorations.len() - i,
    {
        assert(lookup_url(url_table(urls@), e.decorations@[i as int].asset@) is Some);
        let d = DecorationConfig {
            slot: e.decorations[i].slot.clone(),
            asset_url: resolve(urls, &e.decorations[i].asset),
        };
        decorations.push(d);
        i = i + 1;
    }
    let mut assets: Vec<AssetSlotConfig> = Vec::new();
    let mut j: usize = 0;
    while j < e.assets.len()
        invariant
            j <= e.assets.len(),
            assets.len() == j,
            forall|k: int|
                0 <= k < e.assets.len() ==> #[trigger] slot_resolved(
                    url_table(urls@),
                    e.assets@[k],
                ),
            forall|k: int|
                0 <= k < j ==> (#[trigger] assets@[k]).slot@ == e.assets@[k].slot@
                    && assets@[k].asset_url@ == url_of(url_table(urls@), e.assets@[k].asset@)
                    && opt_str(assets@[k].light_asset_url) == opt_url(
                    url_table(urls@),
                    e.assets@[k].light_asset,
                ) && opt_str(assets@[k].dark_asset_url) == opt_url(
                    url_table(urls@),
                    e.assets@[k].dark_asset,
                ),
        decreases e.assets.len() - j,
    {
        assert(slot_resolved(url_table(urls@), e.assets@[j as int]));
        let s = &e.assets[j];
        let c = AssetSlotConfig {
            slot: s.slot.clone(),
            asset_url: resolve(urls, &s.asset),
            light_asset_url: resolve_opt(urls, &s.light_asset),
            dark_asset_url: resolve_opt(urls, &s.dark_asset),
        };
        assets.push(c);
        j = j + 1;
    }
    let home_prompt = match &e.home_prompt {
        Some(t) => Some(t.clone()),
        None => None,
    };
    Ok(
        RuntimeConfig {
            hero: hero_config,
            home_prompt,
            conversation_banner: banner,
            composer_submit: resolve_opt(urls, &e.composer_submit),
            composer_decoration: resolve_opt(urls, &e.composer_decoration),
            conversation_summary_decoration: resolve_opt(urls, &e.conversation_summary_decoration),
            sidebar_section_decoration: resolve_opt(urls, &e.sidebar_section_decoration),
            assets,
            decorations,
            wallpaper: None,
            locales: copy_text_pairs(&e.locales),
        },
    )
}

} // verus!
