//! The persisted settings and their fallback rule.
//!
//! Reading and writing the settings file, and the on-disk format, belong to
//! the persistence collaborator outside this library. The library owns the
//! value itself and the rule that a failed read degrades to the default.

use vstd::prelude::*;

use crate::i18n::Language;

verus! {

/// The persisted settings of the application.
#[derive(Debug, Clone, Copy, PartialEq, Eq, Structural)]
pub struct Setting {
    pub language: Language,
}

impl Default for Setting {
    /// The default settings select Chinese.
    fn default() -> (s: Self)
        ensures
            s.language == Language::Chinese,
    {
        Setting { language: Language::Chinese }
    }
}

/// The settings a read outcome yields: the value read, or the default on
/// any read or parse failure.
pub open spec fn spec_setting_or_default(loaded: Option<Setting>) -> Setting {
    match loaded {
        Some(s) => s,
        None => Setting { language: Language::Chinese },
    }
}

/// The settings read from a file degrade to the default on any read or
/// parse failure; the collaborator that did the read hands in its outcome.
pub fn setting_or_default(loaded: Option<Setting>) -> (s: Setting)
    ensures
        s == spec_setting_or_default(loaded),
{
    match loaded {
        Some(s) => s,
        None => Setting::default(),
    }
}

/// The path of the settings file, resolved by the host at startup.
#[derive(Debug, Clone)]
pub struct ConfigPath(String);

impl ConfigPath {
    /// The characters of the path.
    pub closed spec fn view(self) -> Seq<char> {
        self.0@
    }

    /// Wraps a resolved path.
    pub fn new(path: String) -> (p: Self)
        ensures
            p@ == path@,
    {
        ConfigPath(path)
    }

    /// The path as a string slice.
    pub fn as_str(&self) -> (s: &str)
        ensures
            s@ == self@,
    {
        self.0.as_str()
    }
}

/// Registration marker for the settings subsystem; the host application
/// installs a default `Setting` when it sees this.
#[derive(Debug, Clone, Copy)]
pub struct ConfigPlugin;

} // verus!
