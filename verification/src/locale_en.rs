//! The English translation table.

use vstd::prelude::*;

use crate::i18n::LanguageKey;

verus! {

/// The English text of each key.
pub open spec fn spec_en_text(key: LanguageKey) -> Seq<char> {
    match key {
        LanguageKey::Title => "Rust Package Survey"@,
        LanguageKey::Function => "Function"@,
        LanguageKey::Language => "Language"@,
        LanguageKey::About => "About"@,
        LanguageKey::Setting => "Settings"@,
        LanguageKey::RealtimePlot => "Realtime Plot"@,
    }
}

/// Looks up the English translation of a key.
pub fn lookup(language_key: LanguageKey) -> (text: &'static str)
    ensures
        text@ == spec_en_text(language_key),
{
    match language_key {
        LanguageKey::Title => "Rust Package Survey",
        LanguageKey::Function => "Function",
        LanguageKey::Language => "Language",
        LanguageKey::About => "About",
        LanguageKey::Setting => "Settings",
        LanguageKey::RealtimePlot => "Realtime Plot",
    }
}

} // verus!
