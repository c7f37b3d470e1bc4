//! The shell's state and its update cycle.
//!
//! All controllers execute as ordered passes within one update cycle per
//! rendered frame, single-threaded and without preemption: the window
//! chrome passes (drag, clicks, focus recovery), the menu passes, the
//! activation passes, the navigation pass, the generic reactive updaters,
//! and last the direct settings synchronization, which therefore wins
//! whenever both it and an updater would apply. All waiting is retained
//! cross-cycle state (the cooldown timer, the was-minimized flag, the
//! language change flag) re-evaluated every cycle.
//!
//! The host performs the returned requests (platform window calls,
//! settings persistence) and feeds the next cycle's scene input back in.

use vstd::prelude::*;

use crate::config::Setting;
use crate::homepage::{
    ChangeFunctionMessage, ContentNode, ContentRegion, Functions, PageTransition,
    spec_current_after, spec_enter_nodes, spec_nodes_after, spec_region_inv, spec_targets,
    spec_transitions_after,
};
use crate::i18n::{Language, LanguageManager};
use crate::menu_bar::{
    MenuAction, MenuAnchor, MenuBarState, spec_focus_after_all, spec_popup_after_all,
};
use crate::setting::{
    spec_radios_converged, spec_resolve_control, spec_synced_node, spec_updaters_applied,
};
use crate::title_bar::{
    BUTTON_COOLDOWN_MS, Interaction, LeftClickAction, MouseButtonState, PlatformRequest,
    PreviousInteraction, TitleBarButton, TitleBarButtonCooldown, TitleBarButtonEnum, WindowState,
    spec_any_focus_gained, spec_clicks_pass, spec_drag_buttons, spec_drag_issued,
};

verus! {

/// All retained state of the shell, owned by the controllers that run as
/// the cycle's passes.
pub struct ShellState {
    /// The active page.
    pub current: Functions,
    /// The single content mount point.
    pub region: ContentRegion,
    /// The shared language value with its change flag.
    pub language_manager: LanguageManager,
    /// The persisted settings, kept in memory.
    pub setting: Setting,
    /// The was-minimized flag for focus recovery.
    pub window_state: WindowState,
    /// The click cooldown of the title-bar buttons.
    pub cooldown: TitleBarButtonCooldown,
    /// The title-bar control buttons.
    pub buttons: Vec<TitleBarButton>,
    /// The menu bar with its popups.
    pub menu_bar: MenuBarState,
    /// The retained primary pointer-button input.
    pub mouse_left: MouseButtonState,
    /// What a left click on the title bar does.
    pub left_click_action: LeftClickAction,
}

/// One cycle's scene input, as the engine reports it.
pub struct CycleInput {
    /// Milliseconds since the previous cycle.
    pub delta_ms: u64,
    /// Whether the primary window exists this cycle; without it the click
    /// pass is skipped, non-fatally.
    pub window_present: bool,
    /// Whether the content region exists this cycle; without it content
    /// construction is skipped, non-fatally.
    pub region_present: bool,
    /// Whether the primary button has its press edge this cycle.
    pub left_just_pressed: bool,
    /// Whether the pointer is over any chrome button.
    pub pointer_over_chrome_button: bool,
    /// Whether the pointer is over the title region.
    pub pointer_over_title_bar: bool,
    /// The window focus notifications of this cycle, true for gained.
    pub focus_events: Vec<bool>,
    /// The menu events on the function menu's anchor, in order.
    pub function_menu_actions: Vec<MenuAction>,
    /// The menu events on the language menu's anchor, in order.
    pub language_menu_actions: Vec<MenuAction>,
    /// An activated function menu item, if any.
    pub activated_function_item: Option<Functions>,
    /// An activated language menu item, if any.
    pub activated_language_item: Option<Language>,
    /// An activated selectable control, as its node index, if any.
    pub activated_control: Option<usize>,
    /// Navigation messages published by other components.
    pub nav_messages: Vec<ChangeFunctionMessage>,
}

/// What one cycle asks of the host.
pub struct CycleOutput {
    /// Platform window requests, in emission order.
    pub platform_requests: Vec<PlatformRequest>,
    /// Settings values to persist, in emission order.
    pub save_requests: Vec<Setting>,
    /// The page transitions the navigation pass accepted.
    pub transitions: Vec<PageTransition>,
    /// Whether focus recovery reset the retained pointer input.
    pub pointer_was_reset: bool,
}

/// The navigation messages the navigation pass sees this cycle: the ones
/// other components published, then the one an activated function menu
/// item emitted, if any.
pub open spec fn spec_messages_total(input: CycleInput) -> Seq<ChangeFunctionMessage> {
    input.nav_messages@ + (match input.activated_function_item {
        Some(f) => seq![ChangeFunctionMessage(f)],
        None => Seq::empty(),
    })
}

/// The language an activated control resolves to this cycle, if any.
pub open spec fn spec_resolved_activation(
    input: CycleInput,
    ns: Seq<ContentNode>,
) -> Option<Language> {
    if input.region_present {
        match input.activated_control {
            Some(v) => spec_resolve_control(ns, v as int),
            None => None,
        }
    } else {
        None
    }
}

/// The shared language at the end of the cycle: a resolved control
/// activation wins over a language menu item, which wins over the value
/// the cycle started with.
pub open spec fn spec_language_after(
    input: CycleInput,
    ns: Seq<ContentNode>,
    before: Language,
) -> Language {
    match spec_resolved_activation(input, ns) {
        Some(l) => l,
        None => match input.activated_language_item {
            Some(l) => l,
            None => before,
        },
    }
}

/// The settings-controls invariant between cycles: either a language
/// change is still pending, or every control agrees with the current
/// language.
pub open spec fn spec_settings_inv(lm: LanguageManager, ns: Seq<ContentNode>) -> bool {
    lm.spec_changed() || spec_radios_converged(ns, lm.spec_current_language())
}

/// Builds the shell's startup state from the outcome of the settings
/// read: the settings degrade to the default on a failed read, the
/// language manager takes the persisted language (leaving its change flag
/// set, so the first cycle synchronizes), the title bar gets its three
/// control buttons with a fresh cooldown, the menu bar has no popup, and
/// the About page is entered under the content region.
pub fn setup(loaded: Option<Setting>) -> (state: ShellState)
    ensures
        state.setting == crate::config::spec_setting_or_default(loaded),
        state.language_manager.spec_current_language() == state.setting.language,
        state.language_manager.spec_changed(),
        state.current == Functions::About,
        state.region.nodes@ == spec_enter_nodes(Functions::About, state.setting.language),
        state.region.top_px == crate::homepage::TITLE_BAR_HEIGHT_PX,
        state.buttons@ == spec_initial_buttons(),
        state.cooldown == (TitleBarButtonCooldown { duration_ms: BUTTON_COOLDOWN_MS, elapsed_ms: 0 }),
        state.window_state == (WindowState { was_minimized: false }),
        state.menu_bar == (MenuBarState { function_popup: None, language_popup: None, focus: None }),
        state.mouse_left == (MouseButtonState { pressed: false, just_pressed: false }),
        state.left_click_action == LeftClickAction::Move,
        spec_region_inv(state.current, state.region.nodes@),
        spec_settings_inv(state.language_manager, state.region.nodes@),
        state.cooldown.wf(),
{
    let setting = crate::config::setting_or_default(loaded);
    let mut language_manager = LanguageManager::default();
    language_manager.set_current_language(setting.language);

    let mut buttons: Vec<TitleBarButton> = Vec::new();
    buttons.push(
        TitleBarButton {
            kind: TitleBarButtonEnum::Minimize,
            interaction: Interaction::Idle,
            previous: PreviousInteraction { interaction: None },
        },
    );
    buttons.push(
        TitleBarButton {
            kind: TitleBarButtonEnum::Maximize,
            interaction: Interaction::Idle,
            previous: PreviousInteraction { interaction: None },
        },
    );
    buttons.push(
        TitleBarButton {
            kind: TitleBarButtonEnum::Close,
            interaction: Interaction::Idle,
            previous: PreviousInteraction { interaction: None },
        },
    );
    proof {
        assert(buttons@ =~= spec_initial_buttons());
    }

    let mut region = ContentRegion::new();
    crate::homepage::run_enter_hook(Functions::About, &mut region, &language_manager);
    proof {
        assert(region.nodes@ =~= spec_enter_nodes(Functions::About, setting.language));
        crate::homepage::lemma_enter_nodes_inv(Functions::About, setting.language);
    }

    ShellState {
        current: Functions::About,
        region,
        language_manager,
        setting,
        window_state: WindowState { was_minimized: false },
        cooldown: TitleBarButtonCooldown::default(),
        buttons,
        menu_bar: crate::menu_bar::build_menu_bar(),
        mouse_left: MouseButtonState { pressed: false, just_pressed: false },
        left_click_action: LeftClickAction::Move,
    }
}

/// Runs one update cycle: the ordered passes of all controllers over the
/// shell state, for one frame's scene input. Returns what the host must
/// perform. The last two clauses are the cross-cycle laws: the content
/// region always holds exactly the current page's nodes, and after any
/// interleaving of control activations and language writes the cycle ends
/// with every control agreeing with the current language.
#[verifier::rlimit(100)]
pub fn run_update_cycle(state: &mut ShellState, input: CycleInput) -> (out: CycleOutput)
    requires
        old(state).cooldown.wf(),
    ensures
        final(state).cooldown.wf(),
        ({
            let st0 = *old(state);
            let drag = spec_drag_issued(
                input.left_just_pressed,
                input.window_present,
                input.pointer_over_chrome_button,
                input.pointer_over_title_bar,
            );
            let buttons1 = spec_drag_buttons(st0.buttons@, drag);
            let clicks = spec_clicks_pass(buttons1, st0.window_state, st0.cooldown, input.delta_ms);
            let buttons2 = if input.window_present { clicks.0 } else { buttons1 };
            let ws1 = if input.window_present { clicks.1 } else { st0.window_state };
            let cd1 = if input.window_present { clicks.2 } else { st0.cooldown };
            let click_reqs = if input.window_present { clicks.3 } else {
                Seq::<PlatformRequest>::empty()
            };
            let focus_gained = spec_any_focus_gained(input.focus_events@);
            let did_reset = ws1.was_minimized && focus_gained;
            let ws2 = WindowState { was_minimized: ws1.was_minimized && !focus_gained };
            let mouse1 = if did_reset {
                MouseButtonState { pressed: false, just_pressed: false }
            } else {
                st0.mouse_left
            };
            let fpopup1 = spec_popup_after_all(
                st0.menu_bar.function_popup,
                input.function_menu_actions@,
            );
            let focus1 = spec_focus_after_all(
                st0.menu_bar.focus,
                MenuAnchor::FunctionMenu,
                input.function_menu_actions@,
            );
            let lpopup1 = spec_popup_after_all(
                st0.menu_bar.language_popup,
                input.language_menu_actions@,
            );
            let focus2 = spec_focus_after_all(
                focus1,
                MenuAnchor::LanguageMenu,
                input.language_menu_actions@,
            );
            let fpopup2 = if input.activated_function_item is Some { None } else { fpopup1 };
            let lpopup2 = if input.activated_language_item is Some { None } else { lpopup1 };
            let resolved = spec_resolved_activation(input, st0.region.nodes@);
            let lang2 = spec_language_after(
                input,
                st0.region.nodes@,
                st0.language_manager.spec_current_language(),
            );
            let setting2 = match resolved {
                Some(l) => Setting { language: l },
                None => match input.activated_language_item {
                    Some(l) => Setting { language: l },
                    None => st0.setting,
                },
            };
            let saves = (match input.activated_language_item {
                Some(l) => seq![Setting { language: l }],
                None => Seq::<Setting>::empty(),
            }) + (match resolved {
                Some(l) => seq![Setting { language: l }],
                None => Seq::<Setting>::empty(),
            });
            let targets = spec_targets(spec_messages_total(input));
            let current1 = spec_current_after(st0.current, targets);
            let nodes1 = if input.region_present {
                spec_nodes_after(st0.current, st0.region.nodes@, lang2, targets)
            } else {
                st0.region.nodes@
            };
            let nodes2 = if input.region_present { spec_updaters_applied(nodes1) } else { nodes1 };
            let changed_at_sync = st0.language_manager.spec_changed()
                || input.activated_language_item is Some || resolved is Some;
            let nodes3 = if input.region_present && changed_at_sync {
                nodes2.map_values(|n: ContentNode| spec_synced_node(n, lang2))
            } else {
                nodes2
            };
            &&& final(state).buttons@ == buttons2
            &&& final(state).cooldown == cd1
            &&& final(state).window_state == ws2
            &&& final(state).mouse_left == mouse1
            &&& final(state).menu_bar == (MenuBarState {
                function_popup: fpopup2,
                language_popup: lpopup2,
                focus: focus2,
            })
            &&& final(state).setting == setting2
            &&& final(state).language_manager.spec_current_language() == lang2
            &&& !final(state).language_manager.spec_changed()
            &&& final(state).current == current1
            &&& final(state).region.nodes@ == nodes3
            &&& final(state).region.top_px == st0.region.top_px
            &&& final(state).left_click_action == st0.left_click_action
            &&& out.platform_requests@ == (if drag {
                seq![PlatformRequest::StartDragMove]
            } else {
                Seq::<PlatformRequest>::empty()
            }) + click_reqs
            &&& out.save_requests@ == saves
            &&& out.transitions@ == spec_transitions_after(st0.current, targets)
            &&& out.pointer_was_reset == did_reset
        }),
        input.region_present && spec_region_inv(old(state).current, old(state).region.nodes@)
            ==> spec_region_inv(final(state).current, final(state).region.nodes@),
        input.region_present && spec_region_inv(old(state).current, old(state).region.nodes@)
            && spec_settings_inv(old(state).language_manager, old(state).region.nodes@)
            ==> spec_radios_converged(
            final(state).region.nodes@,
            final(state).language_manager.spec_current_language(),
        ),
{
    let ghost st0: ShellState = *state;
    let CycleInput {
        delta_ms,
        window_present,
        region_present,
        left_just_pressed,
        pointer_over_chrome_button,
        pointer_over_title_bar,
        focus_events,
        function_menu_actions,
        language_menu_actions,
        activated_function_item,
        activated_language_item,
        activated_control,
        nav_messages,
    } = input;

    // Drag-to-move pass.
    let mut platform_requests: Vec<PlatformRequest> = Vec::new();
    let drag = crate::title_bar::drag_and_move_window(
        left_just_pressed,
        window_present,
        &state.left_click_action,
        pointer_over_chrome_button,
        pointer_over_title_bar,
        &mut state.buttons,
    );
    if drag {
        platform_requests.push(PlatformRequest::StartDragMove);
    }
    proof {
        if drag {
            assert(platform_requests@ =~= seq![PlatformRequest::StartDragMove]);
        }
    }

    // Button click pass; without the primary window it is skipped for
    // this cycle, non-fatally.
    let mut click_requests: Vec<PlatformRequest> = if window_present {
        crate::title_bar::handle_button_clicks(
            &mut state.buttons,
            &mut state.window_state,
            &mut state.cooldown,
            delta_ms,
        )
    } else {
        Vec::new()
    };
    platform_requests.append(&mut click_requests);

    // Focus recovery pass.
    let pointer_was_reset = crate::title_bar::handle_window_visibility(
        &mut state.window_state,
        &focus_events,
        &mut state.mouse_left,
    );

    // Menu event passes, one per anchor.
    crate::menu_bar::process_function_menu_events(&function_menu_actions, &mut state.menu_bar);
    crate::menu_bar::process_language_menu_events(&language_menu_actions, &mut state.menu_bar);

    // Item activations: a function item queues a navigation message for
    // the pass below; a language item writes the shared language.
    let mut messages = nav_messages;
    match activated_function_item {
        Some(item) => {
            let msg = crate::menu_bar::activate_function_item(item, &mut state.menu_bar);
            messages.push(msg);
        },
        None => {},
    }
    proof {
        assert(messages@ =~= spec_messages_total(input));
    }
    let mut save_requests: Vec<Setting> = Vec::new();
    match activated_language_item {
        Some(item) => {
            let msg = crate::menu_bar::activate_language_item(item, &mut state.menu_bar);
            state.language_manager.set_current_language(msg.0);
            state.setting.language = msg.0;
            save_requests.push(state.setting);
        },
        None => {},
    }

    // Control activation pass (the user-driven settings path).
    if region_present {
        match activated_control {
            Some(idx) => {
                let save = crate::setting::on_language_radio_change(
                    &state.region,
                    idx,
                    &mut state.language_manager,
                    &mut state.setting,
                );
                match save {
                    Some(s) => {
                        save_requests.push(s);
                    },
                    None => {},
                }
            },
            None => {},
        }
    }

    // Navigation pass over the cycle's messages.
    let transitions = crate::homepage::change_function(
        &messages,
        &mut state.current,
        &mut state.region,
        region_present,
        &state.language_manager,
    );

    // Generic reactive updaters, then the direct synchronization pass,
    // which is sequenced after them and therefore wins when both apply.
    // Without the content region only the change flag is consumed.
    if region_present {
        crate::setting::update_radio_button_border_color(&mut state.region);
        crate::setting::update_radio_button_border_color2(&mut state.region);
        crate::setting::update_radio_button_mark_color(&mut state.region);
        crate::setting::update_radio_button_mark_color2(&mut state.region);
        crate::setting::sync_radio_buttons_to_language(
            &mut state.language_manager,
            &mut state.region,
        );
    } else {
        state.language_manager.take_changed();
    }

    proof {
        let resolved = spec_resolved_activation(input, st0.region.nodes@);
        let lang2 = spec_language_after(
            input,
            st0.region.nodes@,
            st0.language_manager.spec_current_language(),
        );
        let targets = spec_targets(spec_messages_total(input));
        let nodes1 = if input.region_present {
            spec_nodes_after(st0.current, st0.region.nodes@, lang2, targets)
        } else {
            st0.region.nodes@
        };
        if input.region_present && spec_region_inv(st0.current, st0.region.nodes@) {
            crate::homepage::lemma_navigation_preserves_inv(
                st0.current,
                st0.region.nodes@,
                lang2,
                targets,
            );
            let current1 = spec_current_after(st0.current, targets);
            crate::setting::lemma_updaters_preserve_inv(current1, nodes1);
            let nodes2 = spec_updaters_applied(nodes1);
            let changed_at_sync = st0.language_manager.spec_changed()
                || input.activated_language_item is Some || resolved is Some;
            if changed_at_sync {
                crate::setting::lemma_sync_preserves_inv(current1, nodes2, lang2);
            }
            if spec_settings_inv(st0.language_manager, st0.region.nodes@) {
                if changed_at_sync {
                    crate::setting::lemma_sync_converges(nodes2, lang2);
                } else {
                    crate::setting::lemma_navigation_preserves_converged(
                        st0.current,
                        st0.region.nodes@,
                        lang2,
                        targets,
                    );
                    crate::setting::lemma_updaters_preserve_converged(nodes1, lang2);
                }
            }
        }
    }

    CycleOutput { platform_requests, save_requests, transitions, pointer_was_reset }
}

/// The three title-bar control buttons at startup: minimize, maximize,
/// close, untouched by any pointer.
pub open spec fn spec_initial_buttons() -> Seq<TitleBarButton> {
    seq![
        TitleBarButton {
            kind: TitleBarButtonEnum::Minimize,
            interaction: Interaction::Idle,
            previous: PreviousInteraction { interaction: None },
        },
        TitleBarButton {
            kind: TitleBarButtonEnum::Maximize,
            interaction: Interaction::Idle,
            previous: PreviousInteraction { interaction: None },
        },
        TitleBarButton {
            kind: TitleBarButtonEnum::Close,
            interaction: Interaction::Idle,
            previous: PreviousInteraction { interaction: None },
        },
    ]
}

} // verus!
