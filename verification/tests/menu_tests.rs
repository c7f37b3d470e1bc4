use shell_core::homepage::Functions;
use shell_core::i18n::Language;
use shell_core::menu_bar::{
    MenuAction, MenuAnchor, MenuBarState, PopoverAlign, PopoverSide, activate_function_item,
    activate_language_item, build_menu_bar, function_menu_items, language_menu_items,
    on_function_menu_event, on_language_menu_event, popup_placements, reveal_popup,
    spawn_function_menu,
};

#[test]
fn the_menu_bar_starts_without_popups_or_focus() {
    let menu = build_menu_bar();
    assert!(menu.function_popup.is_none());
    assert!(menu.language_popup.is_none());
    assert!(menu.focus.is_none());
}

#[test]
fn two_consecutive_opens_yield_exactly_one_popup() {
    // Popup singleton: a second Open with no intervening Close is a no-op.
    let mut menu = build_menu_bar();
    on_function_menu_event(MenuAction::Open, &mut menu);
    let first = menu.function_popup;
    assert!(first.is_some());
    on_function_menu_event(MenuAction::Open, &mut menu);
    assert_eq!(menu.function_popup, first);
    let popup_count = menu.function_popup.iter().count();
    assert_eq!(popup_count, 1);
}

#[test]
fn toggle_flips_the_popup_existence() {
    let mut menu = build_menu_bar();
    on_function_menu_event(MenuAction::Toggle, &mut menu);
    assert!(menu.function_popup.is_some());
    on_function_menu_event(MenuAction::Toggle, &mut menu);
    assert!(menu.function_popup.is_none());
}

#[test]
fn close_removes_the_popup_if_present() {
    let mut menu = build_menu_bar();
    on_language_menu_event(MenuAction::Close, &mut menu);
    assert!(menu.language_popup.is_none());
    on_language_menu_event(MenuAction::Open, &mut menu);
    assert!(menu.language_popup.is_some());
    on_language_menu_event(MenuAction::CloseAll, &mut menu);
    assert!(menu.language_popup.is_none());
}

#[test]
fn the_two_anchors_own_independent_popups() {
    let mut menu = build_menu_bar();
    on_function_menu_event(MenuAction::Open, &mut menu);
    on_language_menu_event(MenuAction::Open, &mut menu);
    assert!(menu.function_popup.is_some());
    assert!(menu.language_popup.is_some());
    on_function_menu_event(MenuAction::Close, &mut menu);
    assert!(menu.function_popup.is_none());
    assert!(menu.language_popup.is_some());
}

#[test]
fn focus_root_returns_focus_to_the_anchor() {
    let mut menu = build_menu_bar();
    on_function_menu_event(MenuAction::FocusRoot, &mut menu);
    assert_eq!(menu.focus, Some(MenuAnchor::FunctionMenu));
    on_language_menu_event(MenuAction::FocusRoot, &mut menu);
    assert_eq!(menu.focus, Some(MenuAnchor::LanguageMenu));
}

#[test]
fn a_new_popup_starts_hidden_and_is_revealed_after_placement() {
    let mut popup = spawn_function_menu();
    assert!(!popup.visible);
    reveal_popup(&mut popup);
    assert!(popup.visible);
}

#[test]
fn placement_prefers_below_then_above_with_a_fixed_gap() {
    let placements = popup_placements();
    assert_eq!(placements.len(), 2);
    assert_eq!(placements[0].side, PopoverSide::Bottom);
    assert_eq!(placements[0].align, PopoverAlign::Start);
    assert_eq!(placements[0].gap_px, 2);
    assert_eq!(placements[1].side, PopoverSide::Top);
    assert_eq!(placements[1].gap_px, 2);
    assert_eq!(shell_core::menu_bar::POPUP_WINDOW_MARGIN_PX, 10);
}

#[test]
fn the_menus_offer_their_fixed_item_lists() {
    assert_eq!(function_menu_items(), vec![Functions::About, Functions::Test]);
    assert_eq!(language_menu_items(), vec![Language::English, Language::Chinese]);
}

#[test]
fn activating_a_function_item_emits_its_message_and_closes_the_popup() {
    let mut menu = MenuBarState { function_popup: None, language_popup: None, focus: None };
    on_function_menu_event(MenuAction::Open, &mut menu);
    let msg = activate_function_item(Functions::Test, &mut menu);
    assert_eq!(msg.0, Functions::Test);
    assert!(menu.function_popup.is_none());
}

#[test]
fn activating_a_language_item_emits_its_message_and_closes_the_popup() {
    let mut menu = build_menu_bar();
    on_language_menu_event(MenuAction::Open, &mut menu);
    let msg = activate_language_item(Language::English, &mut menu);
    assert_eq!(msg.0, Language::English);
    assert!(menu.language_popup.is_none());
}
