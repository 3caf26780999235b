//! What the client lists about a theme.

use vstd::prelude::*;

verus! {

/// The three colours of a theme's preview card.
#[derive(Debug, Clone)]
pub struct ThemePreview {
    pub background: String,
    pub surface: String,
    pub accent: String,
}

/// A localized name and description of a theme.
#[derive(Debug, Clone)]
pub struct ThemeSummaryLocalization {
    pub name: Option<String>,
    pub description: Option<String>,
}

/// A theme as the client lists it.
#[derive(Debug, Clone)]
pub struct ThemeSummary {
    pub id: String,
    pub name: String,
    pub description: String,
    pub version: String,
    /// Display name of the author.
    pub author: String,
    pub preview: ThemePreview,
    pub built_in: bool,
    /// Slug of the online theme it was installed from.
    pub online_slug: Option<String>,
    pub requires_account: bool,
    /// Localized texts by locale, in ascending locale order.
    pub locales: Vec<(String, ThemeSummaryLocalization)>,
}

} // verus!
