//! The popup menu controller: anchored, single-instance ephemeral panels
//! for the function and language menus.
//!
//! Each anchor owns at most one popup. Open is a no-op when the anchor's
//! popup already exists; Toggle closes an existing popup and opens one
//! otherwise; Close and CloseAll close the anchor's popup if present;
//! FocusRoot returns input focus to the anchor. A new popup starts
//! hidden: the host's placement solver computes its geometry first and
//! only then enables visibility, avoiding a one-cycle flash at an
//! unresolved position. This controller owns existence and lifetime only,
//! never geometry.

use vstd::prelude::*;

use crate::homepage::{ChangeFunctionMessage, ChangeLanguageMessage, Functions};
use crate::i18n::Language;

verus! {

/// An operation on an anchor's popup.
#[derive(Debug, Clone, Copy, PartialEq, Eq, Structural)]
pub enum MenuAction {
    Open,
    Toggle,
    Close,
    CloseAll,
    FocusRoot,
}

/// The two menu anchors of the menu bar.
#[derive(Debug, Clone, Copy, PartialEq, Eq, Structural)]
pub enum MenuAnchor {
    FunctionMenu,
    LanguageMenu,
}

/// Which side of the anchor a popup prefers.
#[derive(Debug, Clone, Copy, PartialEq, Eq, Structural)]
pub enum PopoverSide {
    Bottom,
    Top,
}

/// How a popup aligns with its anchor along the chosen side.
#[derive(Debug, Clone, Copy, PartialEq, Eq, Structural)]
pub enum PopoverAlign {
    Start,
}

/// One placement preference handed to the host's placement solver.
#[derive(Debug, Clone, Copy, PartialEq, Eq, Structural)]
pub struct PopoverPlacement {
    pub side: PopoverSide,
    pub align: PopoverAlign,
    /// The gap between anchor and popup, in pixels.
    pub gap_px: u64,
}

/// The margin a popup keeps from the window edge, in pixels.
pub const POPUP_WINDOW_MARGIN_PX: u64 = 10;

/// The gap between an anchor and its popup, in pixels.
pub const POPUP_GAP_PX: u64 = 2;

/// One ephemeral popup panel; it exists only between its open and close.
#[derive(Debug, Clone, Copy, PartialEq, Eq, Structural)]
pub struct MenuPopup {
    /// Hidden until the placement solver has produced a geometry.
    pub visible: bool,
}

/// The menu bar's retained state: at most one popup per anchor, and the
/// anchor holding input focus, if any.
#[derive(Debug, Clone, Copy, PartialEq, Eq, Structural)]
pub struct MenuBarState {
    pub function_popup: Option<MenuPopup>,
    pub language_popup: Option<MenuPopup>,
    pub focus: Option<MenuAnchor>,
}

/// Builds the menu bar: two anchors, no popup, no focus claim.
pub fn build_menu_bar() -> (m: MenuBarState)
    ensures
        m == (MenuBarState { function_popup: None, language_popup: None, focus: None }),
{
    MenuBarState { function_popup: None, language_popup: None, focus: None }
}

/// The placement preferences of every popup, in solver order: primary
/// below the anchor, start-aligned; fallback above the anchor,
/// start-aligned.
pub fn popup_placements() -> (p: Vec<PopoverPlacement>)
    ensures
        p@ == seq![
            PopoverPlacement {
                side: PopoverSide::Bottom,
                align: PopoverAlign::Start,
                gap_px: POPUP_GAP_PX,
            },
            PopoverPlacement {
                side: PopoverSide::Top,
                align: PopoverAlign::Start,
                gap_px: POPUP_GAP_PX,
            },
        ],
{
    let mut p: Vec<PopoverPlacement> = Vec::new();
    p.push(
        PopoverPlacement {
            side: PopoverSide::Bottom,
            align: PopoverAlign::Start,
            gap_px: POPUP_GAP_PX,
        },
    );
    p.push(
        PopoverPlacement { side: PopoverSide::Top, align: PopoverAlign::Start, gap_px: POPUP_GAP_PX },
    );
    proof {
        assert(p@ =~= seq![
            PopoverPlacement {
                side: PopoverSide::Bottom,
                align: PopoverAlign::Start,
                gap_px: POPUP_GAP_PX,
            },
            PopoverPlacement {
                side: PopoverSide::Top,
                align: PopoverAlign::Start,
                gap_px: POPUP_GAP_PX,
            },
        ]);
    }
    p
}

/// The fixed item list of the function menu: the page targets it offers.
pub fn function_menu_items() -> (items: Vec<Functions>)
    ensures
        items@ == seq![Functions::About, Functions::Test],
{
    let mut items: Vec<Functions> = Vec::new();
    items.push(Functions::About);
    items.push(Functions::Test);
    proof {
        assert(items@ =~= seq![Functions::About, Functions::Test]);
    }
    items
}

/// The fixed item list of the language menu: the languages it offers.
pub fn language_menu_items() -> (items: Vec<Language>)
    ensures
        items@ == seq![Language::English, Language::Chinese],
{
    let mut items: Vec<Language> = Vec::new();
    items.push(Language::English);
    items.push(Language::Chinese);
    proof {
        assert(items@ =~= seq![Language::English, Language::Chinese]);
    }
    items
}

/// Spawns the function menu popup, hidden until placed.
pub fn spawn_function_menu() -> (p: MenuPopup)
    ensures
        !p.visible,
{
    MenuPopup { visible: false }
}

/// Spawns the language menu popup, hidden until placed.
pub fn spawn_language_menu() -> (p: MenuPopup)
    ensures
        !p.visible,
{
    MenuPopup { visible: false }
}

/// Enables a popup's visibility once the placement solver has produced
/// its geometry.
pub fn reveal_popup(p: &mut MenuPopup)
    ensures
        final(p).visible,
{
    p.visible = true;
}

/// An anchor's popup after one menu action: Open creates one only when
/// none exists, Toggle flips existence, Close and CloseAll remove it, and
/// FocusRoot leaves it alone. A created popup starts hidden.
pub open spec fn spec_popup_after(popup: Option<MenuPopup>, action: MenuAction) -> Option<
    MenuPopup,
> {
    match action {
        MenuAction::Open => if popup is None {
            Some(MenuPopup { visible: false })
        } else {
            popup
        },
        MenuAction::Toggle => if popup is Some {
            None
        } else {
            Some(MenuPopup { visible: false })
        },
        MenuAction::Close => None,
        MenuAction::CloseAll => None,
        MenuAction::FocusRoot => popup,
    }
}

/// The focus after one menu action on an anchor: only FocusRoot claims
/// it.
pub open spec fn spec_focus_after(
    focus: Option<MenuAnchor>,
    anchor: MenuAnchor,
    action: MenuAction,
) -> Option<MenuAnchor> {
    if action is FocusRoot {
        Some(anchor)
    } else {
        focus
    }
}

/// Handles one menu event on the function menu's anchor.
pub fn on_function_menu_event(action: MenuAction, state: &mut MenuBarState)
    ensures
        final(state).function_popup == spec_popup_after(old(state).function_popup, action),
        final(state).language_popup == old(state).language_popup,
        final(state).focus == spec_focus_after(old(state).focus, MenuAnchor::FunctionMenu, action),
{
    match action {
        MenuAction::Open => {
            if state.function_popup.is_none() {
                state.function_popup = Some(spawn_function_menu());
            }
        },
        MenuAction::Toggle => {
            match state.function_popup {
                Some(_) => {
                    state.function_popup = None;
                },
                None => {
                    state.function_popup = Some(spawn_function_menu());
                },
            }
        },
        MenuAction::Close => {
            state.function_popup = None;
        },
        MenuAction::CloseAll => {
            state.function_popup = None;
        },
        MenuAction::FocusRoot => {
            state.focus = Some(MenuAnchor::FunctionMenu);
        },
    }
}

/// Handles one menu event on the language menu's anchor.
pub fn on_language_menu_event(action: MenuAction, state: &mut MenuBarState)
    ensures
        final(state).language_popup == spec_popup_after(old(state).language_popup, action),
        final(state).function_popup == old(state).function_popup,
        final(state).focus == spec_focus_after(old(state).focus, MenuAnchor::LanguageMenu, action),
{
    match action {
        MenuAction::Open => {
            if state.language_popup.is_none() {
                state.language_popup = Some(spawn_language_menu());
            }
        },
        MenuAction::Toggle => {
            match state.language_popup {
                Some(_) => {
                    state.language_popup = None;
                },
                None => {
                    state.language_popup = Some(spawn_language_menu());
                },
            }
        },
        MenuAction::Close => {
            state.language_popup = None;
        },
        MenuAction::CloseAll => {
            state.language_popup = None;
        },
        MenuAction::FocusRoot => {
            state.focus = Some(MenuAnchor::LanguageMenu);
        },
    }
}

/// Activating a function menu item emits the navigation message for its
/// page target and closes the popup that held it.
pub fn activate_function_item(item: Functions, state: &mut MenuBarState) -> (msg:
    ChangeFunctionMessage)
    ensures
        msg.0 == item,
        final(state).function_popup is None,
        final(state).language_popup == old(state).language_popup,
        final(state).focus == old(state).focus,
{
    state.function_popup = None;
    ChangeFunctionMessage(item)
}

/// Activating a language menu item emits the language-change message for
/// its language and closes the popup that held it.
pub fn activate_language_item(item: Language, state: &mut MenuBarState) -> (msg:
    ChangeLanguageMessage)
    ensures
        msg.0 == item,
        final(state).language_popup is None,
        final(state).function_popup == old(state).function_popup,
        final(state).focus == old(state).focus,
{
    state.language_popup = None;
    ChangeLanguageMessage(item)
}

/// An anchor's popup after a batch of menu actions, applied in order.
pub open spec fn spec_popup_after_all(
    popup: Option<MenuPopup>,
    actions: Seq<MenuAction>,
) -> Option<MenuPopup>
    decreases actions.len(),
{
    if actions.len() == 0 {
        popup
    } else {
        spec_popup_after(spec_popup_after_all(popup, actions.drop_last()), actions.last())
    }
}

/// The focus after a batch of menu actions on one anchor.
pub open spec fn spec_focus_after_all(
    focus: Option<MenuAnchor>,
    anchor: MenuAnchor,
    actions: Seq<MenuAction>,
) -> Option<MenuAnchor>
    decreases actions.len(),
{
    if actions.len() == 0 {
        focus
    } else {
        spec_focus_after(
            spec_focus_after_all(focus, anchor, actions.drop_last()),
            anchor,
            actions.last(),
        )
    }
}

/// Handles one cycle's batch of menu events on the function menu's
/// anchor, in arrival order.
pub fn process_function_menu_events(actions: &Vec<MenuAction>, state: &mut MenuBarState)
    ensures
        final(state).function_popup == spec_popup_after_all(old(state).function_popup, actions@),
        final(state).language_popup == old(state).language_popup,
        final(state).focus == spec_focus_after_all(
            old(state).focus,
            MenuAnchor::FunctionMenu,
            actions@,
        ),
{
    let n = actions.len();
    let mut i: usize = 0;
    while i < n
        invariant
            n == actions@.len(),
            i <= n,
            state.function_popup == spec_popup_after_all(
                old(state).function_popup,
                actions@.subrange(0, i as int),
            ),
            state.language_popup == old(state).language_popup,
            state.focus == spec_focus_after_all(
                old(state).focus,
                MenuAnchor::FunctionMenu,
                actions@.subrange(0, i as int),
            ),
        decreases n - i,
    {
        proof {
            assert(actions@.subrange(0, i as int + 1).drop_last() =~= actions@.subrange(
                0,
                i as int,
            ));
        }
        on_function_menu_event(actions[i], state);
        i = i + 1;
    }
    proof {
        assert(actions@.subrange(0, n as int) =~= actions@);
    }
}

/// Handles one cycle's batch of menu events on the language menu's
/// anchor, in arrival order.
pub fn process_language_menu_events(actions: &Vec<MenuAction>, state: &mut MenuBarState)
    ensures
        final(state).language_popup == spec_popup_after_all(old(state).language_popup, actions@),
        final(state).function_popup == old(state).function_popup,
        final(state).focus == spec_focus_after_all(
            old(state).focus,
            MenuAnchor::LanguageMenu,
            actions@,
        ),
{
    let n = actions.len();
    let mut i: usize = 0;
    while i < n
        invariant
            n == actions@.len(),
            i <= n,
            state.language_popup == spec_popup_after_all(
                old(state).language_popup,
                actions@.subrange(0, i as int),
            ),
            state.function_popup == old(state).function_popup,
            state.focus == spec_focus_after_all(
                old(state).focus,
                MenuAnchor::LanguageMenu,
                actions@.subrange(0, i as int),
            ),
        decreases n - i,
    {
        proof {
            assert(actions@.subrange(0, i as int + 1).drop_last() =~= actions@.subrange(
                0,
                i as int,
            ));
        }
        on_language_menu_event(actions[i], state);
        i = i + 1;
    }
    proof {
        assert(actions@.subrange(0, n as int) =~= actions@);
    }
}

/// Popup singleton: two consecutive Open operations on one anchor, with
/// no intervening Close, yield exactly one popup — the second Open is a
/// no-op on the popup the first created.
pub proof fn lemma_popup_singleton(popup: Option<MenuPopup>)
    ensures
        spec_popup_after(spec_popup_after(popup, MenuAction::Open), MenuAction::Open)
            == spec_popup_after(popup, MenuAction::Open),
        spec_popup_after(popup, MenuAction::Open) is Some,
{
}

} // verus!
