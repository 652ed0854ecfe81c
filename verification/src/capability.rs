//! The capability contract every window kind must satisfy.
//!
//! A window instance can, given the shared application state and its own
//! handle, produce the content to draw, a title and a theme; it can report
//! its spawn-time settings; and it exposes a stable, per-kind identity used
//! for kind queries. Identity deliberately ignores instance content: two
//! differently configured instances of the same kind count as the same kind
//! of window, so "is a window of kind K open" is decoupled from "is this
//! exact configured window open".

use vstd::prelude::*;

use crate::handle::WindowHandle;
use crate::settings::WindowSettings;

verus! {

/// A kind of window: given shared application state and the handle under
/// which the instance is registered, it yields drawable content, a title and
/// a theme; it also reports spawn settings, a stable kind identity, and can
/// duplicate itself so registry queries may return owned instances.
///
/// Every operation is a pure function of the instance, the application state
/// and the handle: each executable method is pinned to its spec counterpart,
/// so calling it never mutates anything and always returns the same value
/// for the same inputs.
pub trait Window: Sized {
    /// The shared application state the windows read.
    type App;

    /// What a window hands back to be drawn.
    type Content;

    /// The theme value a window selects.
    type Theme;

    /// The stable identity of this instance's kind: constant across all
    /// instances of one kind and distinct across kinds.
    spec fn kind_spec(&self) -> Seq<char>;

    /// The spawn-time settings this instance asks for.
    spec fn settings_spec(&self) -> WindowSettings;

    /// The content this instance shows for a given application state, as
    /// the instance registered under `handle`.
    spec fn content_spec(&self, app: &Self::App, handle: WindowHandle) -> Self::Content;

    /// The title this instance shows for a given application state.
    spec fn title_spec(&self, app: &Self::App, handle: WindowHandle) -> Seq<char>;

    /// The theme this instance selects for a given application state.
    spec fn theme_spec(&self, app: &Self::App, handle: WindowHandle) -> Self::Theme;

    /// Produce the content to draw. May be called arbitrarily often.
    fn content(&self, app: &Self::App, handle: WindowHandle) -> (r: Self::Content)
        ensures
            r == self.content_spec(app, handle),
    ;

    /// Produce the window title.
    fn title(&self, app: &Self::App, handle: WindowHandle) -> (r: String)
        ensures
            r@ == self.title_spec(app, handle),
    ;

    /// Produce the theme to render with.
    fn theme(&self, app: &Self::App, handle: WindowHandle) -> (r: Self::Theme)
        ensures
            r == self.theme_spec(app, handle),
    ;

    /// The settings the host should create this window's native window
    /// with; consulted once, at spawn time.
    fn settings(&self) -> (r: WindowSettings)
        ensures
            r == self.settings_spec(),
    ;

    /// The stable identity string of this instance's kind.
    fn kind(&self) -> (r: &'static str)
        ensures
            r@ == self.kind_spec(),
    ;

    /// Whether `self` and `other` are instances of the same kind. Equality
    /// of kinds, not of content: instances with different content still
    /// match when their kind identities agree.
    fn matches_kind(&self, other: &Self) -> (r: bool)
        ensures
            r == (self.kind_spec() == other.kind_spec()),
    ;

    /// An independent copy with identical state, so registry queries can
    /// return owned instances without consuming the registered ones.
    fn duplicate(&self) -> (r: Self)
        ensures
            r == *self,
    ;
}

} // verus!
