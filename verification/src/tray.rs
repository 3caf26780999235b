//! Tray menu vocabulary: the menu identifiers, their localized labels and
//! which window closes are turned into hides.

use vstd::prelude::*;

use crate::text::{has_prefix, starts_with, str_eq};

verus! {

/// Menu identifier of "open the main window".
pub const TRAY_OPEN_ID: &'static str = "open";

/// Menu identifier of "restore the default ChatGPT look".
pub const TRAY_RESTORE_ID: &'static str = "restore";

/// Menu identifier of "restore and quit".
pub const TRAY_QUIT_ID: &'static str = "quit";

/// Identifier of the tray icon itself.
pub const TRAY_ID: &'static str = "retheme";

/// Labels of the three tray menu entries.
pub struct TrayLabels {
    pub open: &'static str,
    pub restore: &'static str,
    pub quit: &'static str,
}

/// A tray menu entry the application reacts to.
#[derive(Debug, Clone, Copy, PartialEq, Eq, Structural)]
pub enum TrayAction {
    Open,
    Restore,
    Quit,
}

/// The locale asks for Chinese labels.
pub open spec fn is_chinese_locale(locale: Seq<char>) -> bool {
    has_prefix(locale, "zh"@)
}

/// Chinese labels for locales starting with `zh`, English labels otherwise.
pub fn tray_labels(locale: &str) -> (labels: TrayLabels)
    ensures
        is_chinese_locale(locale@) ==> labels.open@ == "打开 ReTheme"@ && labels.restore@
            == "恢复主题"@ && labels.quit@ == "退出 ReTheme"@,
        !is_chinese_locale(locale@) ==> labels.open@ == "Open ReTheme"@ && labels.restore@
            == "Restore Theme"@ && labels.quit@ == "Quit ReTheme"@,
{
    if starts_with(locale, "zh") {
        TrayLabels { open: "打开 ReTheme", restore: "恢复主题", quit: "退出 ReTheme" }
    } else {
        TrayLabels { open: "Open ReTheme", restore: "Restore Theme", quit: "Quit ReTheme" }
    }
}

/// The action a menu identifier stands for.
pub open spec fn spec_tray_action(menu_id: Seq<char>) -> Option<TrayAction> {
    if menu_id == TRAY_OPEN_ID@ {
        Some(TrayAction::Open)
    } else if menu_id == TRAY_RESTORE_ID@ {
        Some(TrayAction::Restore)
    } else if menu_id == TRAY_QUIT_ID@ {
        Some(TrayAction::Quit)
    } else {
        None
    }
}

/// Maps a clicked menu identifier to its action; other identifiers are ignored.
pub fn tray_action(menu_id: &str) -> (action: Option<TrayAction>)
    ensures
        action == spec_tray_action(menu_id@),
{
    if str_eq(menu_id, TRAY_OPEN_ID) {
        Some(TrayAction::Open)
    } else if str_eq(menu_id, TRAY_RESTORE_ID) {
        Some(TrayAction::Restore)
    } else if str_eq(menu_id, TRAY_QUIT_ID) {
        Some(TrayAction::Quit)
    } else {
        None
    }
}

/// Closing the main window hides it; every other window closes normally.
pub fn should_hide_main_window(label: &str, close_requested: bool) -> (hide: bool)
    ensures
        hide == (label@ == "main"@ && close_requested),
{
    str_eq(label, "main") && close_requested
}

} // verus!
