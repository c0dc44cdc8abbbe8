//! The loader animation of `ratatui_opentui_loader`, as the logic uses it: its
//! built-in themes by position, their names, and theme changes.
use vstd::prelude::*;

use ratatui_opentui_loader::{KittLoader, Theme};

use crate::theme::THEME_COUNT;

verus! {

/// The animated loader; its frame state is not read by the logic.
#[verifier::external_type_specification]
#[verifier::external_body]
pub struct ExKittLoader(KittLoader);

/// The loader crate's theme enum; the logic only carries it to the loader.
#[verifier::external_type_specification]
#[verifier::external_body]
pub struct ExTheme(Theme);

/// `KittLoader::new` builds a loader in the OpenCode theme at its first frame;
/// nothing about its animation state is stated.
pub assume_specification[ KittLoader::new ]() -> KittLoader;

/// What `KittLoader::tick` leaves of `loader`: the same loader one frame on.
pub uninterp spec fn loader_ticked(loader: KittLoader) -> KittLoader;

/// `KittLoader::tick` advances the animation by one frame (it sets the frame to
/// the next one, modulo the frame count, and changes nothing else); the state it
/// leaves is named, not restated.
pub assume_specification[ KittLoader::tick ](loader: &mut KittLoader)
    ensures
        *final(loader) == loader_ticked(*old(loader)),
;

/// What `KittLoader::set_theme` with the built-in theme at `index` of
/// `Theme::all()` leaves of `loader`: the accent, trail and dimmed colors
/// recomputed from that theme's accent, everything else as it was.
pub uninterp spec fn loader_with_theme(loader: KittLoader, index: int) -> KittLoader;

/// `KittLoader::set_theme` with the built-in theme at `index`: the loader's
/// colors are recomputed from that theme's accent alone (through `set_color`,
/// which keeps the trail's length, the dimming factor and the frame), so a
/// later theme change gives the same loader as if this one had not been made.
/// The recolored loader is named, not restated.
#[verifier::external_body]
fn set_builtin_theme(loader: &mut KittLoader, index: usize)
    requires
        index < THEME_COUNT,
    ensures
        *final(loader) == loader_with_theme(*old(loader), index as int),
        forall|j: int|
            0 <= j < THEME_COUNT ==> #[trigger] loader_with_theme(*final(loader), j) == loader_with_theme(
                *old(loader),
                j,
            ),
{
    loader.set_theme(Theme::all()[index])
}

/// `Theme::all` lists the crate's built-in themes; the crate's source lists 34 of
/// them, in the order the theme picker shows.
pub assume_specification[ Theme::all ]() -> (r: &'static [Theme])
    ensures
        r@.len() == THEME_COUNT,
;

/// What `Theme::name` returns for the built-in theme at `index` of `Theme::all()`.
pub uninterp spec fn builtin_theme_name(index: int) -> Seq<char>;

/// `Theme::name` of the built-in theme at `index` of `Theme::all()`: the theme's
/// identifier, such as "opencode" or "one-dark". The result is named, not
/// restated; the crate's table gives every built-in theme a different name.
#[verifier::external_body]
fn builtin_theme_name_at(index: usize) -> (s: &'static str)
    requires
        index < THEME_COUNT,
    ensures
        s@ == builtin_theme_name(index as int),
        forall|j: int| 0 <= j < THEME_COUNT && j != index ==> #[trigger] builtin_theme_name(j) != s@,
{
    Theme::all()[index].name()
}

/// One of the loader's built-in themes, by its position in `Theme::all()`.
#[derive(Clone, Copy, Debug)]
pub struct LoaderTheme {
    index: usize,
}

impl View for LoaderTheme {
    type V = nat;

    closed spec fn view(&self) -> nat {
        self.index as nat
    }
}

impl LoaderTheme {
    #[verifier::type_invariant]
    spec fn inv(self) -> bool {
        self.index < THEME_COUNT
    }

    /// The theme at `index` of the built-in list.
    pub fn at(index: usize) -> (t: LoaderTheme)
        requires
            index < THEME_COUNT,
        ensures
            t@ == index,
    {
        LoaderTheme { index }
    }

    /// The OpenCode theme, the first of the list.
    pub fn opencode() -> (t: LoaderTheme)
        ensures
            t@ == 0,
    {
        LoaderTheme { index: 0 }
    }

    /// The position of the theme in the built-in list.
    pub fn index(&self) -> (i: usize)
        ensures
            i == self@,
            i < THEME_COUNT,
    {
        proof {
            use_type_invariant(self);
        }
        self.index
    }

    /// The theme's identifier, as the loader crate names it; no other built-in
    /// theme has it.
    pub fn name(&self) -> (s: &'static str)
        ensures
            s@ == builtin_theme_name(self@ as int),
            forall|j: int| 0 <= j < THEME_COUNT && j != self@ ==> #[trigger] builtin_theme_name(j) != s@,
    {
        builtin_theme_name_at(self.index())
    }

    /// The loader crate's value for this theme: the entry at this theme's position
    /// in `Theme::all()`. `Theme` is declared opaque, so no clause says which
    /// variant comes back.
    pub fn to_loader(&self) -> Theme {
        let all = Theme::all();
        all[self.index()]
    }
}

/// Recolors `loader` to `theme` through `KittLoader::set_theme`.
pub fn set_loader_theme(loader: &mut KittLoader, theme: LoaderTheme)
    ensures
        *final(loader) == loader_with_theme(*old(loader), theme@ as int),
        forall|j: int|
            0 <= j < THEME_COUNT ==> #[trigger] loader_with_theme(*final(loader), j) == loader_with_theme(
                *old(loader),
                j,
            ),
{
    set_builtin_theme(loader, theme.index());
}

} // verus!
