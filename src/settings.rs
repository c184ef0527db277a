//! The settings that the tool keeps: the text of the global shortcut.
use vstd::prelude::*;

verus! {

/// The shortcut used until another is saved.
pub const DEFAULT_SHORTCUT: &'static str = "Command+Option+N";

/// The stored settings.
#[derive(Clone, Debug)]
pub struct Settings {
    pub shortcut: String,
}

impl Default for Settings {
    fn default() -> (r: Settings)
        ensures
            r.shortcut@ == DEFAULT_SHORTCUT@,
    {
        Settings { shortcut: String::from_str(DEFAULT_SHORTCUT) }
    }
}

/// The settings that were stored and could be read, else the defaults.
pub fn settings_or_default(stored: Option<Settings>) -> (r: Settings)
    ensures
        match stored {
            Some(s) => r == s,
            None => r.shortcut@ == DEFAULT_SHORTCUT@,
        },
{
    match stored {
        Some(s) => s,
        None => Settings::default(),
    }
}

} // verus!
