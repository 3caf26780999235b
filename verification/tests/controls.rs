use retheme::controls::WallpaperControls;

#[test]
fn rejects_wallpaper_controls_above_one_hundred() {
    let error = WallpaperControls::new(101, 32).expect_err("brightness above 100 must fail");
    assert!(error.to_string().contains("0 到 100"));
    let error =
        WallpaperControls::new(68, 101).expect_err("interface transparency above 100 must fail");
    assert!(error.to_string().contains("0 到 100"));
}

#[test]
fn accepts_controls_up_to_one_hundred() {
    let c = WallpaperControls::new(100, 0).expect("limits are accepted");
    assert_eq!(c.wallpaper_brightness, 100);
    assert_eq!(c.interface_transparency, 0);
    assert_eq!(
        WallpaperControls::new(101, 101).expect_err("both invalid").to_string(),
        "壁纸亮度必须在 0 到 100 之间"
    );
    assert_eq!(
        WallpaperControls::new(0, 255).expect_err("transparency invalid").to_string(),
        "界面透明度必须在 0 到 100 之间"
    );
}

#[test]
fn default_controls() {
    let c = WallpaperControls::default();
    assert_eq!(c.wallpaper_brightness, 68);
    assert_eq!(c.interface_transparency, 32);
}
