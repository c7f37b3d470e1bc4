use shell_core::i18n::{Language, LanguageKey, LanguageManager};
use shell_core::{locale_en, locale_zh};

#[test]
fn english_lookup_covers_every_key() {
    assert_eq!(locale_en::lookup(LanguageKey::Title), "Rust Package Survey");
    assert_eq!(locale_en::lookup(LanguageKey::Function), "Function");
    assert_eq!(locale_en::lookup(LanguageKey::Language), "Language");
    assert_eq!(locale_en::lookup(LanguageKey::About), "About");
    assert_eq!(locale_en::lookup(LanguageKey::Setting), "Settings");
    assert_eq!(locale_en::lookup(LanguageKey::RealtimePlot), "Realtime Plot");
}

#[test]
fn chinese_lookup_covers_every_key() {
    assert_eq!(locale_zh::lookup(LanguageKey::Title), "Rust包调研");
    assert_eq!(locale_zh::lookup(LanguageKey::Function), "功能");
    assert_eq!(locale_zh::lookup(LanguageKey::Language), "语言");
    assert_eq!(locale_zh::lookup(LanguageKey::About), "关于");
    assert_eq!(locale_zh::lookup(LanguageKey::Setting), "设置");
    assert_eq!(locale_zh::lookup(LanguageKey::RealtimePlot), "实时绘图");
}

#[test]
fn manager_defaults_to_chinese_without_pending_change() {
    let manager = LanguageManager::default();
    assert_eq!(manager.current_language(), Language::Chinese);
    assert!(!manager.is_changed());
    assert_eq!(manager.lookup(LanguageKey::Title), "Rust包调研");
}

#[test]
fn manager_lookup_follows_the_set_language() {
    let mut manager = LanguageManager::default();
    manager.set_current_language(Language::English);
    assert_eq!(manager.current_language(), Language::English);
    assert_eq!(manager.lookup(LanguageKey::Setting), "Settings");
    manager.set_current_language(Language::Chinese);
    assert_eq!(manager.lookup(LanguageKey::Setting), "设置");
}

#[test]
fn set_language_raises_the_change_flag_and_take_consumes_it() {
    let mut manager = LanguageManager::default();
    manager.set_current_language(Language::English);
    assert!(manager.is_changed());
    assert!(manager.take_changed());
    assert!(!manager.is_changed());
    assert!(!manager.take_changed());
    assert_eq!(manager.current_language(), Language::English);
}
