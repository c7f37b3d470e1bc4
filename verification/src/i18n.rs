//! Language selection and translation lookup.
//!
//! The shell supports a closed set of languages and a closed set of
//! translation keys. Every key is covered for every language, so a lookup
//! never fails. The manager keeps the active language together with a
//! change flag; the flag drives the edge-triggered synchronization of the
//! selectable language controls (see `setting`).

use vstd::prelude::*;

verus! {

/// All available languages.
#[derive(Debug, Clone, Copy, PartialEq, Eq, Structural)]
pub enum Language {
    English,
    Chinese,
}

/// Every string of the interface that needs a translation.
#[derive(Debug, Clone, Copy, PartialEq, Eq, Structural)]
pub enum LanguageKey {
    Title,
    Function,
    Language,
    About,
    Setting,
    RealtimePlot,
}

/// Holds the active language and a flag recording that it changed since
/// the settings controls were last synchronized to it.
#[derive(Debug, Clone, Copy, PartialEq, Eq, Structural)]
pub struct LanguageManager {
    current_language: Language,
    changed: bool,
}

impl LanguageManager {
    /// The view of a manager is the pair of its fields; the fields are
    /// private, so contracts elsewhere speak through these spec functions.
    pub closed spec fn spec_current_language(self) -> Language {
        self.current_language
    }

    /// Whether the language changed since the last synchronization pass
    /// consumed the flag.
    pub closed spec fn spec_changed(self) -> bool {
        self.changed
    }

    /// Returns the current language.
    pub fn current_language(&self) -> (lang: Language)
        ensures
            lang == self.spec_current_language(),
    {
        self.current_language
    }

    /// Sets the current language and raises the change flag.
    pub fn set_current_language(&mut self, language: Language)
        ensures
            final(self).spec_current_language() == language,
            final(self).spec_changed(),
    {
        self.current_language = language;
        self.changed = true;
    }

    /// Whether the language changed since the flag was last taken.
    pub fn is_changed(&self) -> (c: bool)
        ensures
            c == self.spec_changed(),
    {
        self.changed
    }

    /// Consumes the change flag: returns whether it was set and clears it.
    /// The synchronization pass runs exactly when this returns true.
    pub fn take_changed(&mut self) -> (c: bool)
        ensures
            c == old(self).spec_changed(),
            final(self).spec_current_language() == old(self).spec_current_language(),
            !final(self).spec_changed(),
    {
        let c = self.changed;
        self.changed = false;
        c
    }

    /// Looks up a translation key in the current language.
    pub fn lookup(&self, key: LanguageKey) -> (text: &'static str)
        ensures
            text@ == spec_translation(self.spec_current_language(), key),
    {
        match self.current_language {
            Language::English => crate::locale_en::lookup(key),
            Language::Chinese => crate::locale_zh::lookup(key),
        }
    }
}

impl Default for LanguageManager {
    /// The language defaults to Chinese, with no pending change.
    fn default() -> (m: Self)
        ensures
            m.spec_current_language() == Language::Chinese,
            !m.spec_changed(),
    {
        LanguageManager { current_language: Language::Chinese, changed: false }
    }
}

/// The translation of a key in a language.
pub open spec fn spec_translation(lang: Language, key: LanguageKey) -> Seq<char> {
    match lang {
        Language::English => crate::locale_en::spec_en_text(key),
        Language::Chinese => crate::locale_zh::spec_zh_text(key),
    }
}

/// Registration marker for the translation subsystem; the host application
/// installs a default `LanguageManager` when it sees this.
#[derive(Debug, Clone, Copy)]
pub struct I18nPlugin;

} // verus!
