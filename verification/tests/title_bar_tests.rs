use shell_core::title_bar::{
    Interaction, LeftClickAction, MouseButtonState, PlatformRequest, PreviousInteraction,
    TitleBarButton, TitleBarButtonCooldown, TitleBarButtonEnum, WindowState,
    drag_and_move_window, handle_button_clicks, handle_window_visibility,
};

fn button(kind: TitleBarButtonEnum, interaction: Interaction) -> TitleBarButton {
    TitleBarButton { kind, interaction, previous: PreviousInteraction { interaction: None } }
}

#[test]
fn cooldown_ticks_clamped_and_resets() {
    let mut cd = TitleBarButtonCooldown::new(300);
    assert!(!cd.is_finished());
    cd.tick(100);
    assert_eq!(cd.elapsed_ms, 100);
    assert!(!cd.is_finished());
    cd.tick(250);
    assert_eq!(cd.elapsed_ms, 300);
    assert!(cd.is_finished());
    cd.reset();
    assert_eq!(cd.elapsed_ms, 0);
    assert!(!cd.is_finished());
}

#[test]
fn default_cooldown_is_300ms() {
    let cd = TitleBarButtonCooldown::default();
    assert_eq!(cd.duration_ms, 300);
    assert_eq!(cd.elapsed_ms, 0);
}

#[test]
fn toggled_swaps_maximize_and_restore_only() {
    assert_eq!(TitleBarButtonEnum::Maximize.toggled(), TitleBarButtonEnum::Restore);
    assert_eq!(TitleBarButtonEnum::Restore.toggled(), TitleBarButtonEnum::Maximize);
    assert_eq!(TitleBarButtonEnum::Minimize.toggled(), TitleBarButtonEnum::Minimize);
    assert_eq!(TitleBarButtonEnum::Close.toggled(), TitleBarButtonEnum::Close);
}

#[test]
fn drag_demotes_restore_before_the_drag_request() {
    let mut buttons = vec![
        button(TitleBarButtonEnum::Restore, Interaction::Idle),
        button(TitleBarButtonEnum::Minimize, Interaction::Idle),
    ];
    let drag = drag_and_move_window(true, true, &LeftClickAction::Move, false, true, &mut buttons);
    assert!(drag);
    assert_eq!(buttons[0].kind, TitleBarButtonEnum::Maximize);
    assert_eq!(buttons[1].kind, TitleBarButtonEnum::Minimize);
}

#[test]
fn drag_is_suppressed_over_a_chrome_button() {
    let mut buttons = vec![button(TitleBarButtonEnum::Restore, Interaction::Idle)];
    let drag = drag_and_move_window(true, true, &LeftClickAction::Move, true, true, &mut buttons);
    assert!(!drag);
    assert_eq!(buttons[0].kind, TitleBarButtonEnum::Restore);
}

#[test]
fn drag_needs_the_press_edge_and_the_title_region() {
    let mut buttons = vec![button(TitleBarButtonEnum::Restore, Interaction::Idle)];
    assert!(!drag_and_move_window(false, true, &LeftClickAction::Move, false, true, &mut buttons));
    assert!(!drag_and_move_window(true, true, &LeftClickAction::Move, false, false, &mut buttons));
    assert!(!drag_and_move_window(true, false, &LeftClickAction::Move, false, true, &mut buttons));
    assert_eq!(buttons[0].kind, TitleBarButtonEnum::Restore);
}

#[test]
fn close_press_requests_application_exit() {
    let mut buttons = vec![button(TitleBarButtonEnum::Close, Interaction::Pressed)];
    let mut ws = WindowState::default();
    let mut cd = TitleBarButtonCooldown { duration_ms: 300, elapsed_ms: 300 };
    let requests = handle_button_clicks(&mut buttons, &mut ws, &mut cd, 0);
    assert_eq!(requests, vec![PlatformRequest::ExitApplication]);
    assert!(!ws.was_minimized);
    assert_eq!(cd.elapsed_ms, 0);
}

#[test]
fn maximize_press_toggles_kind_to_restore() {
    let mut buttons = vec![button(TitleBarButtonEnum::Maximize, Interaction::Pressed)];
    let mut ws = WindowState::default();
    let mut cd = TitleBarButtonCooldown { duration_ms: 300, elapsed_ms: 300 };
    let requests = handle_button_clicks(&mut buttons, &mut ws, &mut cd, 0);
    assert_eq!(requests, vec![PlatformRequest::SetMaximized(true)]);
    assert_eq!(buttons[0].kind, TitleBarButtonEnum::Restore);

    // A later press on the same button, once the cooldown elapsed and the
    // button was seen released in between, un-maximizes and toggles back.
    buttons[0].interaction = Interaction::Idle;
    let none = handle_button_clicks(&mut buttons, &mut ws, &mut cd, 300);
    assert!(none.is_empty());
    buttons[0].interaction = Interaction::Pressed;
    let requests2 = handle_button_clicks(&mut buttons, &mut ws, &mut cd, 10);
    assert_eq!(requests2, vec![PlatformRequest::SetMaximized(false)]);
    assert_eq!(buttons[0].kind, TitleBarButtonEnum::Maximize);
}

#[test]
fn two_presses_100ms_apart_with_300ms_cooldown_minimize_once() {
    // Scenario: two Minimize-button presses 100 ms apart under a 300 ms
    // cooldown yield exactly one platform minimize call, and the
    // was-minimized flag becomes true exactly once.
    let mut buttons = vec![button(TitleBarButtonEnum::Minimize, Interaction::Pressed)];
    let mut ws = WindowState::default();
    let mut cd = TitleBarButtonCooldown::new(300);
    let first = handle_button_clicks(&mut buttons, &mut ws, &mut cd, 300);
    assert_eq!(first, vec![PlatformRequest::SetMinimized(true)]);
    assert!(ws.was_minimized);

    buttons[0].interaction = Interaction::Pressed;
    let second = handle_button_clicks(&mut buttons, &mut ws, &mut cd, 100);
    assert!(second.is_empty());
    assert!(ws.was_minimized);
}

#[test]
fn two_presses_beyond_the_cooldown_are_both_accepted() {
    let mut buttons = vec![button(TitleBarButtonEnum::Minimize, Interaction::Pressed)];
    let mut ws = WindowState::default();
    let mut cd = TitleBarButtonCooldown::new(300);
    let first = handle_button_clicks(&mut buttons, &mut ws, &mut cd, 300);
    assert_eq!(first.len(), 1);

    // The button is released, and a pass after the cooldown elapsed
    // refreshes the snapshot without accepting anything.
    buttons[0].interaction = Interaction::Idle;
    let released = handle_button_clicks(&mut buttons, &mut ws, &mut cd, 350);
    assert!(released.is_empty());

    buttons[0].interaction = Interaction::Pressed;
    let second = handle_button_clicks(&mut buttons, &mut ws, &mut cd, 10);
    assert_eq!(second, vec![PlatformRequest::SetMinimized(true)]);
}

#[test]
fn a_held_press_is_not_accepted_twice() {
    let mut buttons = vec![button(TitleBarButtonEnum::Close, Interaction::Pressed)];
    let mut ws = WindowState::default();
    let mut cd = TitleBarButtonCooldown { duration_ms: 300, elapsed_ms: 300 };
    let first = handle_button_clicks(&mut buttons, &mut ws, &mut cd, 0);
    assert_eq!(first.len(), 1);
    // Still held after the cooldown elapsed again: no press edge.
    let second = handle_button_clicks(&mut buttons, &mut ws, &mut cd, 400);
    assert!(second.is_empty());
}

#[test]
fn focus_gain_after_minimize_resets_the_pointer_state() {
    let mut ws = WindowState { was_minimized: true };
    let mut mouse = MouseButtonState { pressed: true, just_pressed: true };
    let events = vec![false, true];
    let did_reset = handle_window_visibility(&mut ws, &events, &mut mouse);
    assert!(did_reset);
    assert!(!ws.was_minimized);
    assert!(!mouse.pressed);
    assert!(!mouse.just_pressed);
}

#[test]
fn focus_gain_without_prior_minimize_changes_nothing() {
    let mut ws = WindowState { was_minimized: false };
    let mut mouse = MouseButtonState { pressed: true, just_pressed: false };
    let events = vec![true];
    let did_reset = handle_window_visibility(&mut ws, &events, &mut mouse);
    assert!(!did_reset);
    assert!(mouse.pressed);
}
