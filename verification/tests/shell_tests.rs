use shell_core::config::Setting;
use shell_core::homepage::{ChangeFunctionMessage, Functions, Widget};
use shell_core::i18n::Language;
use shell_core::menu_bar::MenuAction;
use shell_core::setting::{BorderShade, MarkFill};
use shell_core::shell::{CycleInput, ShellState, run_update_cycle, setup};
use shell_core::title_bar::{Interaction, PlatformRequest, TitleBarButtonEnum};

fn idle_input(delta_ms: u64) -> CycleInput {
    CycleInput {
        delta_ms,
        window_present: true,
        region_present: true,
        left_just_pressed: false,
        pointer_over_chrome_button: false,
        pointer_over_title_bar: false,
        focus_events: Vec::new(),
        function_menu_actions: Vec::new(),
        language_menu_actions: Vec::new(),
        activated_function_item: None,
        activated_language_item: None,
        activated_control: None,
        nav_messages: Vec::new(),
    }
}

fn radio_index(state: &ShellState, lang: Language) -> usize {
    state
        .region
        .nodes
        .iter()
        .position(|n| matches!(n.widget, Widget::RadioOption(rc) if rc.language == lang))
        .unwrap()
}

fn press_button(state: &mut ShellState, kind: TitleBarButtonEnum, pressed: bool) {
    for b in state.buttons.iter_mut() {
        if b.kind == kind {
            b.interaction = if pressed { Interaction::Pressed } else { Interaction::Idle };
        }
    }
}

#[test]
fn setup_reads_the_settings_or_falls_back_to_the_default() {
    let state = setup(None);
    assert_eq!(state.setting.language, Language::Chinese);
    assert_eq!(state.language_manager.current_language(), Language::Chinese);
    assert_eq!(state.current, Functions::About);
    assert_eq!(state.buttons.len(), 3);
    assert_eq!(state.cooldown.duration_ms, 300);

    let loaded = setup(Some(Setting { language: Language::English }));
    assert_eq!(loaded.setting.language, Language::English);
    assert_eq!(loaded.language_manager.current_language(), Language::English);
}

#[test]
fn scenario_navigate_from_about_to_setting() {
    // Start at the About page, send a navigation message for Setting: the
    // About content is gone, the Setting page's two language controls and
    // labels are present, and the Chinese control (the default language)
    // is checked.
    let mut state = setup(None);
    assert!(state.region.nodes.iter().any(|n| n.widget == Widget::AboutText));

    let mut input = idle_input(16);
    input.nav_messages = vec![ChangeFunctionMessage(Functions::Setting)];
    let out = run_update_cycle(&mut state, input);

    assert_eq!(out.transitions.len(), 1);
    assert_eq!(state.current, Functions::Setting);
    assert!(!state.region.nodes.iter().any(|n| n.widget == Widget::AboutText));

    let radios: Vec<_> = state
        .region
        .nodes
        .iter()
        .filter_map(|n| match n.widget {
            Widget::RadioOption(rc) => Some(rc),
            _ => None,
        })
        .collect();
    let labels = state
        .region
        .nodes
        .iter()
        .filter(|n| matches!(n.widget, Widget::RadioLabel(_)))
        .count();
    assert_eq!(radios.len(), 2);
    assert_eq!(labels, 2);
    for rc in radios {
        assert_eq!(rc.checked, rc.language == Language::Chinese);
    }
}

#[test]
fn scenario_two_minimize_presses_within_the_cooldown() {
    // Two Minimize presses 100 ms apart under the 300 ms cooldown: exactly
    // one platform minimize request, and was-minimized becomes true once.
    let mut state = setup(None);

    press_button(&mut state, TitleBarButtonEnum::Minimize, true);
    let mut input = idle_input(300);
    let out1 = run_update_cycle(&mut state, input);
    assert_eq!(out1.platform_requests, vec![PlatformRequest::SetMinimized(true)]);
    assert!(state.window_state.was_minimized);

    press_button(&mut state, TitleBarButtonEnum::Minimize, true);
    input = idle_input(100);
    let out2 = run_update_cycle(&mut state, input);
    assert!(out2.platform_requests.is_empty());
    assert!(state.window_state.was_minimized);
}

#[test]
fn scenario_language_flip_while_setting_is_mounted() {
    // The language flips from Chinese to English while the Setting page is
    // mounted: the Chinese control's checked flag flips false, the English
    // control's flips true, and both controls' colors update within the
    // same cycle.
    let mut state = setup(None);
    let mut input = idle_input(16);
    input.nav_messages = vec![ChangeFunctionMessage(Functions::Setting)];
    run_update_cycle(&mut state, input);

    let mut flip = idle_input(16);
    flip.activated_language_item = Some(Language::English);
    let out = run_update_cycle(&mut state, flip);
    assert_eq!(out.save_requests, vec![Setting { language: Language::English }]);

    let chinese = radio_index(&state, Language::Chinese);
    let english = radio_index(&state, Language::English);
    match state.region.nodes[chinese].widget {
        Widget::RadioOption(rc) => {
            assert!(!rc.checked);
            assert_eq!(rc.border, BorderShade::Unchecked);
            assert_eq!(rc.fill, MarkFill::Clear);
        }
        _ => unreachable!(),
    }
    match state.region.nodes[english].widget {
        Widget::RadioOption(rc) => {
            assert!(rc.checked);
            assert_eq!(rc.border, BorderShade::Checked);
            assert_eq!(rc.fill, MarkFill::Filled);
        }
        _ => unreachable!(),
    }
}

#[test]
fn any_interleaving_converges_to_one_checked_control() {
    // Settings convergence: interleave a control activation with a direct
    // language write in one cycle; at the end of the cycle exactly one
    // control is checked, matching the current language.
    let mut state = setup(None);
    let mut input = idle_input(16);
    input.nav_messages = vec![ChangeFunctionMessage(Functions::Setting)];
    run_update_cycle(&mut state, input);

    let english = radio_index(&state, Language::English);
    let mut interleaved = idle_input(16);
    interleaved.activated_language_item = Some(Language::Chinese);
    interleaved.activated_control = Some(english);
    let out = run_update_cycle(&mut state, interleaved);
    // Both paths persist, the control activation resolving last.
    assert_eq!(out.save_requests.len(), 2);
    assert_eq!(state.language_manager.current_language(), Language::English);
    assert!(!state.language_manager.is_changed());

    let checked: Vec<Language> = state
        .region
        .nodes
        .iter()
        .filter_map(|n| match n.widget {
            Widget::RadioOption(rc) if rc.checked => Some(rc.language),
            _ => None,
        })
        .collect();
    assert_eq!(checked, vec![Language::English]);
}

#[test]
fn a_menu_item_activation_navigates_in_the_same_cycle() {
    let mut state = setup(None);
    let mut input = idle_input(16);
    input.function_menu_actions = vec![MenuAction::Open];
    input.activated_function_item = Some(Functions::Test);
    let out = run_update_cycle(&mut state, input);
    assert_eq!(out.transitions.len(), 1);
    assert_eq!(state.current, Functions::Test);
    assert!(state.menu_bar.function_popup.is_none());
}

#[test]
fn a_drag_on_the_title_bar_demotes_restore_and_requests_the_move() {
    let mut state = setup(None);
    // Maximize first, so one button is in Restore kind.
    press_button(&mut state, TitleBarButtonEnum::Maximize, true);
    run_update_cycle(&mut state, idle_input(300));
    assert!(state.buttons.iter().any(|b| b.kind == TitleBarButtonEnum::Restore));

    press_button(&mut state, TitleBarButtonEnum::Maximize, false);
    let mut input = idle_input(16);
    input.left_just_pressed = true;
    input.pointer_over_title_bar = true;
    let out = run_update_cycle(&mut state, input);
    assert_eq!(out.platform_requests, vec![PlatformRequest::StartDragMove]);
    assert!(!state.buttons.iter().any(|b| b.kind == TitleBarButtonEnum::Restore));
}

#[test]
fn focus_recovery_after_minimize_resets_the_pointer() {
    let mut state = setup(None);
    press_button(&mut state, TitleBarButtonEnum::Minimize, true);
    run_update_cycle(&mut state, idle_input(300));
    assert!(state.window_state.was_minimized);

    press_button(&mut state, TitleBarButtonEnum::Minimize, false);
    let mut input = idle_input(16);
    input.focus_events = vec![true];
    let out = run_update_cycle(&mut state, input);
    assert!(out.pointer_was_reset);
    assert!(!state.window_state.was_minimized);
}

#[test]
fn a_missing_window_skips_the_click_pass_for_the_cycle() {
    let mut state = setup(None);
    press_button(&mut state, TitleBarButtonEnum::Close, true);
    let mut input = idle_input(300);
    input.window_present = false;
    let out = run_update_cycle(&mut state, input);
    assert!(out.platform_requests.is_empty());

    // The level-triggered design re-evaluates next cycle.
    let out2 = run_update_cycle(&mut state, idle_input(300));
    assert_eq!(out2.platform_requests, vec![PlatformRequest::ExitApplication]);
}
