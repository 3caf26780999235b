use retheme::tray::{should_hide_main_window, tray_action, tray_labels, TrayAction, TRAY_OPEN_ID,
    TRAY_QUIT_ID, TRAY_RESTORE_ID};

#[test]
fn parses_supported_tray_actions() {
    assert_eq!(tray_action("open"), Some(TrayAction::Open));
    assert_eq!(tray_action("restore"), Some(TrayAction::Restore));
    assert_eq!(tray_action("quit"), Some(TrayAction::Quit));
}

#[test]
fn ignores_informational_and_unknown_tray_items() {
    assert_eq!(tray_action("unknown"), None);
}

#[test]
fn localizes_short_tray_labels() {
    assert_eq!(tray_labels("zh-CN").restore, "恢复主题");
    assert_eq!(tray_labels("en").restore, "Restore Theme");
}

#[test]
fn hides_only_the_main_window_on_close() {
    assert!(should_hide_main_window("main", true));
    assert!(!should_hide_main_window("main", false));
    assert!(!should_hide_main_window("account", true));
}

#[test]
fn every_menu_id_maps_back_to_its_action() {
    assert_eq!(tray_action(TRAY_OPEN_ID), Some(TrayAction::Open));
    assert_eq!(tray_action(TRAY_RESTORE_ID), Some(TrayAction::Restore));
    assert_eq!(tray_action(TRAY_QUIT_ID), Some(TrayAction::Quit));
    assert_eq!(tray_action(""), None);
    assert_eq!(tray_action("Open"), None);
}

#[test]
fn labels_of_all_chinese_locales_and_others() {
    let zh = tray_labels("zh-TW");
    assert_eq!(zh.open, "打开 ReTheme");
    assert_eq!(zh.quit, "退出 ReTheme");
    let other = tray_labels("fr");
    assert_eq!(other.open, "Open ReTheme");
    assert_eq!(other.quit, "Quit ReTheme");
    assert_eq!(tray_labels("").restore, "Restore Theme");
}
