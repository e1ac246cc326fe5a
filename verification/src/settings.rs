//! The user's preferences: one record, read and written as a whole.

use vstd::prelude::*;

verus! {

/// The ribbon strip: whether it is shown, and its size in pixels.
#[derive(Clone, Copy, Debug, PartialEq, Eq)]
pub struct Ribbon {
    pub enabled: bool,
    pub width: i32,
    pub height: i32,
}

/// The user's preferences.
#[derive(Clone, Debug, PartialEq, Eq)]
pub struct Settings {
    /// Language tag of the interface.
    pub lang: String,
    pub show_address: bool,
    pub show_tabs: bool,
    pub on_top: bool,
    pub remember_session: bool,
    /// Width of the window border in pixels.
    pub border_px: u8,
    pub ribbon: Ribbon,
    /// Whether the heads-up display is shown.
    pub hud: bool,
    /// Whether the window snaps to screen edges.
    pub snap: bool,
    /// Bookmarked addresses, in the user's order; one may occur twice.
    pub bookmarks: Vec<String>,
}

/// A `Settings` record as plain mathematical values.
pub ghost struct SettingsView {
    pub lang: Seq<char>,
    pub show_address: bool,
    pub show_tabs: bool,
    pub on_top: bool,
    pub remember_session: bool,
    pub border_px: u8,
    pub ribbon: Ribbon,
    pub hud: bool,
    pub snap: bool,
    pub bookmarks: Seq<Seq<char>>,
}

impl View for Settings {
    type V = SettingsView;

    open spec fn view(&self) -> SettingsView {
        SettingsView {
            lang: self.lang@,
            show_address: self.show_address,
            show_tabs: self.show_tabs,
            on_top: self.on_top,
            remember_session: self.remember_session,
            border_px: self.border_px,
            ribbon: self.ribbon,
            hud: self.hud,
            snap: self.snap,
            bookmarks: self.bookmarks.deep_view(),
        }
    }
}

/// The preferences of a first run: Russian interface, address bar and tabs
/// shown, not always on top, session remembered, a border of 3 pixels, the
/// ribbon off at 480 by 120, no heads-up display, no snapping, and one
/// bookmark.
pub open spec fn default_settings() -> SettingsView {
    SettingsView {
        lang: "ru"@,
        show_address: true,
        show_tabs: true,
        on_top: false,
        remember_session: true,
        border_px: 3,
        ribbon: Ribbon { enabled: false, width: 480, height: 120 },
        hud: false,
        snap: false,
        bookmarks: seq!["https://www.google.com"@],
    }
}

impl Default for Settings {
    /// The preferences of a first run.
    fn default() -> (settings: Settings)
        ensures
            settings@ == default_settings(),
    {
        let mut bookmarks: Vec<String> = Vec::new();
        bookmarks.push(String::from_str("https://www.google.com"));
        let settings = Settings {
            lang: String::from_str("ru"),
            show_address: true,
            show_tabs: true,
            on_top: false,
            remember_session: true,
            border_px: 3,
            ribbon: Ribbon { enabled: false, width: 480, height: 120 },
            hud: false,
            snap: false,
            bookmarks,
        };
        assert(settings.bookmarks.deep_view() =~= seq!["https://www.google.com"@]);
        settings
    }
}

} // verus!
