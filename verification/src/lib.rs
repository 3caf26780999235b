//! Verified core of the ReTheme desktop client: tray menu rules, Wallpaper
//! Engine workshop classification, theme registry bookkeeping, the online
//! theme cache format, the scene capture helpers and the Scene start steps.

pub mod text;
pub mod tray;
pub mod error;
pub mod controls;
pub mod paths;
pub mod assets;
pub mod workshop;
pub mod catalog;
pub mod css;
pub mod webwall;
pub mod wallpaper;
pub mod urls;
pub mod runtime;
pub mod versions;
pub mod registry;
pub mod digest;
pub mod integrity;
pub mod cache;
pub mod capture;
pub mod engine;
pub mod summary;
pub mod repository;
pub mod scene;
