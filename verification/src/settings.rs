//! Non-secret user-interface preferences. They are stored in plain text, so
//! vault entries and the master password never go here.

use vstd::prelude::*;

verus! {

/// The colour theme.
#[derive(Debug, Clone, Copy, PartialEq, Eq, Structural)]
pub enum Theme {
    Light,
    Dark,
    System,
}

/// The user's preferences.
#[derive(Debug, Clone, Copy, PartialEq, Eq, Structural)]
pub struct Settings {
    pub theme: Theme,
    pub always_on_top: bool,
}

impl Default for Settings {
    /// Follow the system theme; do not keep the window on top.
    fn default() -> (r: Self)
        ensures
            r.theme == Theme::System,
            !r.always_on_top,
    {
        Settings { theme: Theme::System, always_on_top: false }
    }
}

impl Settings {
    /// The stored preferences when they could be read back, the defaults
    /// otherwise.
    pub fn from_stored(stored: Option<Settings>) -> (r: Settings)
        ensures
            stored is Some ==> r == stored->Some_0,
            stored is None ==> r.theme == Theme::System && !r.always_on_top,
    {
        match stored {
            Some(s) => s,
            None => Settings::default(),
        }
    }
}

} // verus!
