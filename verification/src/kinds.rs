//! The closed set of window kinds, as a tagged union.
//!
//! This is the closed-set alternative to registering arbitrary
//! [`Window`](crate::capability::Window) implementations: every kind the
//! application can open is declared here, one variant per kind, and
//! dispatch is a single exhaustive match the compiler checks for
//! completeness. Equality on the union is structural — two values are equal
//! exactly when they are the same variant with equal content — which is
//! sound precisely because the set of kinds is closed. The [`window`]
//! helper wraps a kind's instance into the union from the instance alone,
//! so call sites need not spell out the variant path.

use vstd::prelude::*;
use vstd::string::StringExecFns;

use crate::capability::Window;
use crate::handle::WindowHandle;
use crate::settings::WindowSettings;

verus! {

/// The shared application state the declared window kinds read.
#[derive(Clone, Copy, PartialEq, Eq, Debug, Structural)]
pub struct AppState {
    /// Whether the application is in dark mode.
    pub dark_mode: bool,
    /// How many log entries the application holds.
    pub log_lines: u64,
}

/// The drawable content a declared window kind hands back, as plain values
/// for the host's renderer to lay out.
#[derive(Clone, Copy, PartialEq, Eq, Debug, Structural)]
pub enum Content {
    /// The settings panel, opened on one tab.
    SettingsPanel { tab: u64, dark_mode: bool },
    /// A scrolled view of the application log.
    LogView { first_line: u64, lines_total: u64 },
    /// The about page, numbered by the window it sits in.
    AboutPage { window_number: u64 },
}

/// The theme a window renders with.
#[derive(Clone, Copy, PartialEq, Eq, Debug, Structural)]
pub enum ThemeChoice {
    Light,
    Dark,
}

/// The identity of the settings kind.
pub open spec fn settings_kind() -> Seq<char> {
    "Settings"@
}

/// The identity of the log kind.
pub open spec fn log_kind() -> Seq<char> {
    "Log"@
}

/// The identity of the about kind.
pub open spec fn about_kind() -> Seq<char> {
    "About"@
}

/// Law: the declared kinds have pairwise distinct identities, so kind
/// queries never confuse two of them.
pub proof fn lemma_kind_identities_distinct()
    ensures
        settings_kind() != log_kind(),
        settings_kind() != about_kind(),
        log_kind() != about_kind(),
{
    reveal_strlit("Settings");
    reveal_strlit("Log");
    reveal_strlit("About");
    assert(settings_kind().len() == 8);
    assert(log_kind().len() == 3);
    assert(about_kind().len() == 5);
}

/// The settings window: shows the application's settings, opened on one
/// tab.
#[derive(Clone, Copy, PartialEq, Eq, Debug, Structural)]
pub struct SettingsWindow {
    /// Which settings tab the window is opened on.
    pub tab: u64,
}

/// The log window: shows the application log from a first visible line on.
#[derive(Clone, Copy, PartialEq, Eq, Debug, Structural)]
pub struct LogWindow {
    /// The first visible log line.
    pub first_line: u64,
}

/// The about window: shows the application's about page.
#[derive(Clone, Copy, PartialEq, Eq, Debug, Structural)]
pub struct AboutWindow {}

impl Window for SettingsWindow {
    type App = AppState;

    type Content = Content;

    type Theme = ThemeChoice;

    open spec fn kind_spec(&self) -> Seq<char> {
        settings_kind()
    }

    open spec fn settings_spec(&self) -> WindowSettings {
        WindowSettings { width: 420, height: 540, resizable: false, decorations: true }
    }

    open spec fn content_spec(&self, app: &AppState, handle: WindowHandle) -> Content {
        Content::SettingsPanel { tab: self.tab, dark_mode: app.dark_mode }
    }

    open spec fn title_spec(&self, app: &AppState, handle: WindowHandle) -> Seq<char> {
        "Settings"@
    }

    open spec fn theme_spec(&self, app: &AppState, handle: WindowHandle) -> ThemeChoice {
        if app.dark_mode {
            ThemeChoice::Dark
        } else {
            ThemeChoice::Light
        }
    }

    fn content(&self, app: &AppState, handle: WindowHandle) -> Content {
        Content::SettingsPanel { tab: self.tab, dark_mode: app.dark_mode }
    }

    fn title(&self, app: &AppState, handle: WindowHandle) -> String {
        String::from_str("Settings")
    }

    fn theme(&self, app: &AppState, handle: WindowHandle) -> ThemeChoice {
        if app.dark_mode {
            ThemeChoice::Dark
        } else {
            ThemeChoice::Light
        }
    }

    fn settings(&self) -> WindowSettings {
        WindowSettings { width: 420, height: 540, resizable: false, decorations: true }
    }

    fn kind(&self) -> &'static str {
        "Settings"
    }

    fn matches_kind(&self, other: &SettingsWindow) -> bool {
        true
    }

    fn duplicate(&self) -> SettingsWindow {
        *self
    }
}

impl Window for LogWindow {
    type App = AppState;

    type Content = Content;

    type Theme = ThemeChoice;

    open spec fn kind_spec(&self) -> Seq<char> {
        log_kind()
    }

    open spec fn settings_spec(&self) -> WindowSettings {
        WindowSettings { width: 800, height: 600, resizable: true, decorations: true }
    }

    open spec fn content_spec(&self, app: &AppState, handle: WindowHandle) -> Content {
        Content::LogView { first_line: self.first_line, lines_total: app.log_lines }
    }

    open spec fn title_spec(&self, app: &AppState, handle: WindowHandle) -> Seq<char> {
        "Log"@
    }

    open spec fn theme_spec(&self, app: &AppState, handle: WindowHandle) -> ThemeChoice {
        ThemeChoice::Dark
    }

    fn content(&self, app: &AppState, handle: WindowHandle) -> Content {
        Content::LogView { first_line: self.first_line, lines_total: app.log_lines }
    }

    fn title(&self, app: &AppState, handle: WindowHandle) -> String {
        String::from_str("Log")
    }

    fn theme(&self, app: &AppState, handle: WindowHandle) -> ThemeChoice {
        ThemeChoice::Dark
    }

    fn settings(&self) -> WindowSettings {
        WindowSettings { width: 800, height: 600, resizable: true, decorations: true }
    }

    fn kind(&self) -> &'static str {
        "Log"
    }

    fn matches_kind(&self, other: &LogWindow) -> bool {
        true
    }

    fn duplicate(&self) -> LogWindow {
        *self
    }
}

impl Window for AboutWindow {
    type App = AppState;

    type Content = Content;

    type Theme = ThemeChoice;

    open spec fn kind_spec(&self) -> Seq<char> {
        about_kind()
    }

    open spec fn settings_spec(&self) -> WindowSettings {
        WindowSettings { width: 300, height: 180, resizable: false, decorations: false }
    }

    open spec fn content_spec(&self, app: &AppState, handle: WindowHandle) -> Content {
        Content::AboutPage { window_number: handle.raw }
    }

    open spec fn title_spec(&self, app: &AppState, handle: WindowHandle) -> Seq<char> {
        "About"@
    }

    open spec fn theme_spec(&self, app: &AppState, handle: WindowHandle) -> ThemeChoice {
        if app.dark_mode {
            ThemeChoice::Dark
        } else {
            ThemeChoice::Light
        }
    }

    fn content(&self, app: &AppState, handle: WindowHandle) -> Content {
        Content::AboutPage { window_number: handle.raw }
    }

    fn title(&self, app: &AppState, handle: WindowHandle) -> String {
        String::from_str("About")
    }

    fn theme(&self, app: &AppState, handle: WindowHandle) -> ThemeChoice {
        if app.dark_mode {
            ThemeChoice::Dark
        } else {
            ThemeChoice::Light
        }
    }

    fn settings(&self) -> WindowSettings {
        WindowSettings { width: 300, height: 180, resizable: false, decorations: false }
    }

    fn kind(&self) -> &'static str {
        "About"
    }

    fn matches_kind(&self, other: &AboutWindow) -> bool {
        true
    }

    fn duplicate(&self) -> AboutWindow {
        *self
    }
}

/// A window of one of the declared kinds: one variant per kind, dispatched
/// by a single exhaustive match. Equality is structural: same variant,
/// equal content.
#[derive(Clone, Copy, PartialEq, Eq, Debug, Structural)]
pub enum WindowUnion {
    Settings(SettingsWindow),
    Log(LogWindow),
    About(AboutWindow),
}

impl Window for WindowUnion {
    type App = AppState;

    type Content = Content;

    type Theme = ThemeChoice;

    open spec fn kind_spec(&self) -> Seq<char> {
        match self {
            WindowUnion::Settings(w) => w.kind_spec(),
            WindowUnion::Log(w) => w.kind_spec(),
            WindowUnion::About(w) => w.kind_spec(),
        }
    }

    open spec fn settings_spec(&self) -> WindowSettings {
        match self {
            WindowUnion::Settings(w) => w.settings_spec(),
            WindowUnion::Log(w) => w.settings_spec(),
            WindowUnion::About(w) => w.settings_spec(),
        }
    }

    open spec fn content_spec(&self, app: &AppState, handle: WindowHandle) -> Content {
        match self {
            WindowUnion::Settings(w) => w.content_spec(app, handle),
            WindowUnion::Log(w) => w.content_spec(app, handle),
            WindowUnion::About(w) => w.content_spec(app, handle),
        }
    }

    open spec fn title_spec(&self, app: &AppState, handle: WindowHandle) -> Seq<char> {
        match self {
            WindowUnion::Settings(w) => w.title_spec(app, handle),
            WindowUnion::Log(w) => w.title_spec(app, handle),
            WindowUnion::About(w) => w.title_spec(app, handle),
        }
    }

    open spec fn theme_spec(&self, app: &AppState, handle: WindowHandle) -> ThemeChoice {
        match self {
            WindowUnion::Settings(w) => w.theme_spec(app, handle),
            WindowUnion::Log(w) => w.theme_spec(app, handle),
            WindowUnion::About(w) => w.theme_spec(app, handle),
        }
    }

    fn content(&self, app: &AppState, handle: WindowHandle) -> Content {
        match self {
            WindowUnion::Settings(w) => w.content(app, handle),
            WindowUnion::Log(w) => w.content(app, handle),
            WindowUnion::About(w) => w.content(app, handle),
        }
    }

    fn title(&self, app: &AppState, handle: WindowHandle) -> String {
        match self {
            WindowUnion::Settings(w) => w.title(app, handle),
            WindowUnion::Log(w) => w.title(app, handle),
            WindowUnion::About(w) => w.title(app, handle),
        }
    }

    fn theme(&self, app: &AppState, handle: WindowHandle) -> ThemeChoice {
        match self {
            WindowUnion::Settings(w) => w.theme(app, handle),
            WindowUnion::Log(w) => w.theme(app, handle),
            WindowUnion::About(w) => w.theme(app, handle),
        }
    }

    fn settings(&self) -> WindowSettings {
        match self {
            WindowUnion::Settings(w) => w.settings(),
            WindowUnion::Log(w) => w.settings(),
            WindowUnion::About(w) => w.settings(),
        }
    }

    fn kind(&self) -> &'static str {
        match self {
            WindowUnion::Settings(w) => w.kind(),
            WindowUnion::Log(w) => w.kind(),
            WindowUnion::About(w) => w.kind(),
        }
    }

    fn matches_kind(&self, other: &WindowUnion) -> (r: bool) {
        proof {
            lemma_kind_identities_distinct();
        }
        match (self, other) {
            (WindowUnion::Settings(_), WindowUnion::Settings(_)) => true,
            (WindowUnion::Log(_), WindowUnion::Log(_)) => true,
            (WindowUnion::About(_), WindowUnion::About(_)) => true,
            _ => false,
        }
    }

    fn duplicate(&self) -> WindowUnion {
        *self
    }
}

/// A kind whose instances can be wrapped into the union from the instance
/// alone.
pub trait IntoWindowUnion: Sized {
    /// The union value wrapping this instance.
    spec fn union_spec(self) -> WindowUnion;

    /// Wrap this instance into its union variant.
    fn into_union(self) -> (r: WindowUnion)
        ensures
            r == self.union_spec(),
    ;
}

impl IntoWindowUnion for SettingsWindow {
    open spec fn union_spec(self) -> WindowUnion {
        WindowUnion::Settings(self)
    }

    fn into_union(self) -> WindowUnion {
        WindowUnion::Settings(self)
    }
}

impl IntoWindowUnion for LogWindow {
    open spec fn union_spec(self) -> WindowUnion {
        WindowUnion::Log(self)
    }

    fn into_union(self) -> WindowUnion {
        WindowUnion::Log(self)
    }
}

impl IntoWindowUnion for AboutWindow {
    open spec fn union_spec(self) -> WindowUnion {
        WindowUnion::About(self)
    }

    fn into_union(self) -> WindowUnion {
        WindowUnion::About(self)
    }
}

/// Wraps a declared kind's instance into the union, so call sites build "a
/// window of kind K" from the instance alone instead of spelling out the
/// variant path.
pub fn window<T: IntoWindowUnion>(instance: T) -> (r: WindowUnion)
    ensures
        r == instance.union_spec(),
{
    instance.into_union()
}

/// Law: a union value built for the settings kind routes every operation to
/// the settings kind's own implementation.
pub proof fn lemma_union_routes_settings(w: SettingsWindow, app: AppState, handle: WindowHandle)
    ensures
        w.union_spec().kind_spec() == w.kind_spec(),
        w.union_spec().settings_spec() == w.settings_spec(),
        w.union_spec().content_spec(&app, handle) == w.content_spec(&app, handle),
        w.union_spec().title_spec(&app, handle) == w.title_spec(&app, handle),
        w.union_spec().theme_spec(&app, handle) == w.theme_spec(&app, handle),
{
}

/// Law: a union value built for the log kind routes every operation to the
/// log kind's own implementation.
pub proof fn lemma_union_routes_log(w: LogWindow, app: AppState, handle: WindowHandle)
    ensures
        w.union_spec().kind_spec() == w.kind_spec(),
        w.union_spec().settings_spec() == w.settings_spec(),
        w.union_spec().content_spec(&app, handle) == w.content_spec(&app, handle),
        w.union_spec().title_spec(&app, handle) == w.title_spec(&app, handle),
        w.union_spec().theme_spec(&app, handle) == w.theme_spec(&app, handle),
{
}

/// Law: a union value built for the about kind routes every operation to
/// the about kind's own implementation.
pub proof fn lemma_union_routes_about(w: AboutWindow, app: AppState, handle: WindowHandle)
    ensures
        w.union_spec().kind_spec() == w.kind_spec(),
        w.union_spec().settings_spec() == w.settings_spec(),
        w.union_spec().content_spec(&app, handle) == w.content_spec(&app, handle),
        w.union_spec().title_spec(&app, handle) == w.title_spec(&app, handle),
        w.union_spec().theme_spec(&app, handle) == w.theme_spec(&app, handle),
{
}

} // verus!
