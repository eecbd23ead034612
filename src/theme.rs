//! The colour theme the user chose, and the theme it resolves to.
use vstd::prelude::*;

verus! {

#[derive(Clone, Copy, Debug, PartialEq, Eq, Structural)]
pub enum Theme {
    Light,
    Dark,
    /// Follow the system's preference.
    Auto,
}

impl Theme {
    /// The theme to show: the system's where the choice is `Auto`.
    pub fn effective(self, system: Theme) -> (r: Theme)
        ensures
            r == (if self == Theme::Auto {
                system
            } else {
                self
            }),
    {
        match self {
            Theme::Auto => system,
            other => other,
        }
    }

    /// The choice after the toggle: dark becomes light, anything else dark.
    pub fn toggled(self) -> (r: Theme)
        ensures
            r == (if self == Theme::Dark {
                Theme::Light
            } else {
                Theme::Dark
            }),
    {
        match self {
            Theme::Dark => Theme::Light,
            _ => Theme::Dark,
        }
    }

    /// The value of the document's `data-theme` attribute; `Auto`, which
    /// should have been resolved, shows as light.
    pub fn attribute(self) -> (r: &'static str)
        ensures
            r@ == (if self == Theme::Dark {
                "dark"@
            } else {
                "light"@
            }),
    {
        match self {
            Theme::Dark => "dark",
            _ => "light",
        }
    }
}

} // verus!
