//! The two user controls of a live wallpaper theme.

use vstd::prelude::*;

use crate::error::{theme_error, ThemeError};

verus! {

/// Largest accepted value of either control (a percentage).
pub const CONTROL_MAX: u8 = 100;

/// Brightness of the wallpaper and transparency of the ChatGPT interface,
/// both percentages.
#[derive(Debug, Clone, Copy, PartialEq, Eq, Structural)]
pub struct WallpaperControls {
    pub wallpaper_brightness: u8,
    pub interface_transparency: u8,
}

/// Both percentages are at most 100.
pub open spec fn controls_valid(controls: WallpaperControls) -> bool {
    controls.wallpaper_brightness <= 100 && controls.interface_transparency <= 100
}

impl WallpaperControls {
    /// Validated controls; brightness is checked before transparency.
    pub fn new(wallpaper_brightness: u8, interface_transparency: u8) -> (r: Result<
        Self,
        ThemeError,
    >)
        ensures
            wallpaper_brightness > 100 ==> (r matches Err(e) && e.0@
                == "壁纸亮度必须在 0 到 100 之间"@),
            wallpaper_brightness <= 100 && interface_transparency > 100 ==> (r matches Err(e)
                && e.0@ == "界面透明度必须在 0 到 100 之间"@),
            wallpaper_brightness <= 100 && interface_transparency <= 100 ==> r == Ok::<
                WallpaperControls,
                ThemeError,
            >(WallpaperControls { wallpaper_brightness, interface_transparency }),
    {
        if wallpaper_brightness > CONTROL_MAX {
            return Err(theme_error("壁纸亮度必须在 0 到 100 之间"));
        }
        if interface_transparency > CONTROL_MAX {
            return Err(theme_error("界面透明度必须在 0 到 100 之间"));
        }
        Ok(Self { wallpaper_brightness, interface_transparency })
    }
}

impl Default for WallpaperControls {
    /// Brightness 68 %, transparency 32 %.
    fn default() -> (r: Self)
        ensures
            r.wallpaper_brightness == 68 && r.interface_transparency == 32,
    {
        Self { wallpaper_brightness: 68, interface_transparency: 32 }
    }
}

} // verus!
