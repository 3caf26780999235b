use retheme::assets::{insert_asset, ThemeAssetPolicy, ThemeRuntimeAsset, ThemeRuntimeAssetSource};
use retheme::paths::LocalPath;

fn file(name: &str) -> LocalPath {
    LocalPath { root: "/".into(), parts: vec!["w".into(), name.into()] }
}

#[test]
fn assets_are_keyed_by_logical_path() {
    let mut assets = Vec::new();
    insert_asset(&mut assets, ThemeRuntimeAsset::from_memory("a".into(), "image/png".into(), vec![1]));
    insert_asset(&mut assets, ThemeRuntimeAsset::from_file("b".into(), "video/mp4".into(), file("b.mp4")));
    insert_asset(
        &mut assets,
        ThemeRuntimeAsset::from_web_file("a".into(), "text/html".into(), file("a.html"), "web/a.html".into()),
    );
    assert_eq!(assets.len(), 2);
    assert_eq!(assets[0].path, "a");
    assert_eq!(assets[0].policy, ThemeAssetPolicy::SandboxedWeb);
    assert_eq!(assets[0].route_path.as_deref(), Some("web/a.html"));
    assert!(matches!(&assets[1].source, ThemeRuntimeAssetSource::File(p) if p.parts == vec!["w", "b.mp4"]));
}

#[test]
fn asset_constructors() {
    let memory = ThemeRuntimeAsset::from_memory("p".into(), "image/jpeg".into(), vec![]);
    assert_eq!(memory.policy, ThemeAssetPolicy::Media);
    assert!(memory.route_path.is_none());
    let web = ThemeRuntimeAsset::from_web_file("q".into(), "text/css".into(), file("q.css"), "web/q.css".into());
    assert_eq!(web.policy, ThemeAssetPolicy::SandboxedWeb);
    let copy = web.duplicate();
    assert_eq!(copy.path, "q");
    assert_eq!(copy.route_path.as_deref(), Some("web/q.css"));
}
