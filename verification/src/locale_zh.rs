//! The Chinese translation table.

use vstd::prelude::*;

use crate::i18n::LanguageKey;

verus! {

/// The Chinese text of each key.
pub open spec fn spec_zh_text(key: LanguageKey) -> Seq<char> {
    match key {
        LanguageKey::Title => "Rust包调研"@,
        LanguageKey::Function => "功能"@,
        LanguageKey::Language => "语言"@,
        LanguageKey::About => "关于"@,
        LanguageKey::Setting => "设置"@,
        LanguageKey::RealtimePlot => "实时绘图"@,
    }
}

/// Looks up the Chinese translation of a key.
pub fn lookup(language_key: LanguageKey) -> (text: &'static str)
    ensures
        text@ == spec_zh_text(language_key),
{
    match language_key {
        LanguageKey::Title => "Rust包调研",
        LanguageKey::Function => "功能",
        LanguageKey::Language => "语言",
        LanguageKey::About => "关于",
        LanguageKey::Setting => "设置",
        LanguageKey::RealtimePlot => "实时绘图",
    }
}

} // verus!
