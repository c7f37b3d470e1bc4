//! The window chrome controller: a custom title bar with drag-to-move and
//! debounced minimize / maximize / restore / close buttons.
//!
//! Each public function here is one pass of the controller, run once per
//! update cycle. The scene engine writes the `interaction` field of every
//! button before the pass; the pass decides and returns the platform
//! requests (minimize, maximize, drag, exit) for the host to perform. A
//! spec transition function beside each pass states its exact effect, and
//! the debounce and toggle laws are proved over those transitions.

use vstd::prelude::*;

verus! {

/// What a press of each title-bar control button asks of the platform
/// window.
#[derive(Debug, Clone, Copy, PartialEq, Eq, Structural)]
pub enum PlatformRequest {
    /// Close the application.
    ExitApplication,
    /// Minimize (true) or un-minimize (false) the window.
    SetMinimized(bool),
    /// Maximize (true) or un-maximize (false) the window.
    SetMaximized(bool),
    /// Begin an interactive drag-move of the window.
    StartDragMove,
}

/// The kind of a title-bar control button. A button's kind is mutable:
/// an accepted Maximize press turns the button into a Restore button and
/// the other way round.
#[derive(Debug, Clone, Copy, PartialEq, Eq, Structural)]
pub enum TitleBarButtonEnum {
    Minimize,
    Maximize,
    Restore,
    Close,
}

impl TitleBarButtonEnum {
    /// The kind after an accepted press: Maximize and Restore swap, the
    /// others keep their kind. This is the single place where the
    /// Maximize/Restore transition is defined.
    pub open spec fn spec_toggled(self) -> TitleBarButtonEnum {
        match self {
            TitleBarButtonEnum::Maximize => TitleBarButtonEnum::Restore,
            TitleBarButtonEnum::Restore => TitleBarButtonEnum::Maximize,
            k => k,
        }
    }

    /// The kind after a drag begins: a Restore button is demoted to
    /// Maximize (dragging leaves the maximized state), the others keep
    /// their kind.
    pub open spec fn spec_demoted(self) -> TitleBarButtonEnum {
        if self is Restore {
            TitleBarButtonEnum::Maximize
        } else {
            self
        }
    }

    /// Swaps Maximize and Restore; leaves Minimize and Close alone.
    pub fn toggled(self) -> (k: TitleBarButtonEnum)
        ensures
            k == self.spec_toggled(),
    {
        match self {
            TitleBarButtonEnum::Maximize => TitleBarButtonEnum::Restore,
            TitleBarButtonEnum::Restore => TitleBarButtonEnum::Maximize,
            k => k,
        }
    }
}

/// The pointer's interaction with a button in the current cycle, as the
/// scene engine reports it.
#[derive(Debug, Clone, Copy, PartialEq, Eq, Structural)]
pub enum Interaction {
    Pressed,
    Hovered,
    Idle,
}

/// The one-cycle-old interaction snapshot used to recognize press edges.
#[derive(Debug, Clone, Copy, PartialEq, Eq, Structural, Default)]
pub struct PreviousInteraction {
    pub interaction: Option<Interaction>,
}

/// One title-bar control button: its kind, the interaction the scene
/// engine reports this cycle, and the snapshot of the previous cycle.
#[derive(Debug, Clone, Copy, PartialEq, Eq, Structural)]
pub struct TitleBarButton {
    pub kind: TitleBarButtonEnum,
    pub interaction: Interaction,
    pub previous: PreviousInteraction,
}

/// The cooldown guard for title-bar button clicks: a press is accepted
/// only once the timer has fully elapsed, and acceptance resets it.
#[derive(Debug, Clone, Copy, PartialEq, Eq, Structural)]
pub struct TitleBarButtonCooldown {
    /// The cooldown duration in milliseconds.
    pub duration_ms: u64,
    /// How much of the duration has elapsed, clamped to the duration.
    pub elapsed_ms: u64,
}

/// The cooldown duration of the title-bar buttons, in milliseconds.
pub const BUTTON_COOLDOWN_MS: u64 = 300;

impl TitleBarButtonCooldown {
    /// The elapsed time never exceeds the duration.
    pub open spec fn wf(self) -> bool {
        self.elapsed_ms <= self.duration_ms
    }

    /// Whether the cooldown has fully elapsed.
    pub open spec fn spec_is_finished(self) -> bool {
        self.elapsed_ms >= self.duration_ms
    }

    /// A fresh timer for the given duration; nothing has elapsed yet.
    pub fn new(duration_ms: u64) -> (t: Self)
        ensures
            t.duration_ms == duration_ms,
            t.elapsed_ms == 0,
            t.wf(),
    {
        TitleBarButtonCooldown { duration_ms, elapsed_ms: 0 }
    }

    /// Advances the timer, clamping at the duration.
    pub fn tick(&mut self, delta_ms: u64)
        requires
            old(self).wf(),
        ensures
            *final(self) == spec_ticked(*old(self), delta_ms),
            final(self).wf(),
    {
        if delta_ms >= self.duration_ms - self.elapsed_ms {
            self.elapsed_ms = self.duration_ms;
        } else {
            self.elapsed_ms = self.elapsed_ms + delta_ms;
        }
    }

    /// Whether the cooldown has fully elapsed.
    pub fn is_finished(&self) -> (f: bool)
        ensures
            f == self.spec_is_finished(),
    {
        self.elapsed_ms >= self.duration_ms
    }

    /// Restarts the cooldown after an accepted press.
    pub fn reset(&mut self)
        ensures
            final(self).duration_ms == old(self).duration_ms,
            final(self).elapsed_ms == 0,
            final(self).wf(),
    {
        self.elapsed_ms = 0;
    }
}

impl Default for TitleBarButtonCooldown {
    /// The standard click cooldown of the title bar.
    fn default() -> (t: Self)
        ensures
            t.duration_ms == BUTTON_COOLDOWN_MS,
            t.elapsed_ms == 0,
            t.wf(),
    {
        TitleBarButtonCooldown::new(BUTTON_COOLDOWN_MS)
    }
}

/// The timer after it advanced by `delta_ms`, clamped at the duration.
pub open spec fn spec_ticked(cd: TitleBarButtonCooldown, delta_ms: u64) -> TitleBarButtonCooldown {
    TitleBarButtonCooldown {
        duration_ms: cd.duration_ms,
        elapsed_ms: if cd.elapsed_ms + delta_ms >= cd.duration_ms {
            cd.duration_ms
        } else {
            (cd.elapsed_ms + delta_ms) as u64
        },
    }
}

/// Window state retained across cycles for focus recovery.
#[derive(Debug, Clone, Copy, PartialEq, Eq, Structural, Default)]
pub struct WindowState {
    /// Whether the window was minimized by its own button, so that a
    /// focus-gained notification must clear stale pointer input.
    pub was_minimized: bool,
}

/// What a left click on the title bar does.
#[derive(Debug, Clone, Copy, PartialEq, Eq, Structural)]
pub enum LeftClickAction {
    /// Move the window.
    Move,
}

/// The primary pointer button's input state, as retained by the input
/// layer across cycles.
#[derive(Debug, Clone, Copy, PartialEq, Eq, Structural, Default)]
pub struct MouseButtonState {
    pub pressed: bool,
    pub just_pressed: bool,
}

impl MouseButtonState {
    /// Clears the retained state, as after a focus recovery.
    pub fn reset(&mut self)
        ensures
            *final(self) == (MouseButtonState { pressed: false, just_pressed: false }),
    {
        self.pressed = false;
        self.just_pressed = false;
    }
}

// ---------------------------------------------------------------------
// Drag-to-move pass
// ---------------------------------------------------------------------

/// Whether this cycle's input begins a drag-move: the primary button must
/// have its press edge this cycle, the window must be present, the pointer
/// must not be over any chrome button (a click precedes a drag), and it
/// must be over the title region.
pub open spec fn spec_drag_issued(
    just_pressed: bool,
    has_window: bool,
    over_button: bool,
    over_title_bar: bool,
) -> bool {
    just_pressed && has_window && !over_button && over_title_bar
}

/// The buttons after the drag pass: when a drag is issued, every button
/// in Restore kind is first demoted to Maximize.
pub open spec fn spec_drag_buttons(
    buttons: Seq<TitleBarButton>,
    issued: bool,
) -> Seq<TitleBarButton> {
    if issued {
        buttons.map_values(
            |b: TitleBarButton| TitleBarButton { kind: b.kind.spec_demoted(), ..b },
        )
    } else {
        buttons
    }
}

/// One pass of the drag-to-move handler, evaluated on the primary-button
/// press edge. Returns whether a platform drag-move is to be requested;
/// when it is, any button in Restore kind has been demoted to Maximize
/// first.
pub fn drag_and_move_window(
    just_pressed: bool,
    has_window: bool,
    action: &LeftClickAction,
    over_button: bool,
    over_title_bar: bool,
    buttons: &mut Vec<TitleBarButton>,
) -> (drag: bool)
    ensures
        drag == spec_drag_issued(just_pressed, has_window, over_button, over_title_bar),
        final(buttons)@ == spec_drag_buttons(old(buttons)@, drag),
{
    if !just_pressed {
        return false;
    }
    if !has_window {
        return false;
    }
    match *action {
        LeftClickAction::Move => {
            if over_button {
                // The pointer is on a control button: the click wins and
                // no drag begins.
                return false;
            }
            if !over_title_bar {
                return false;
            }
            let ghost orig: Seq<TitleBarButton> = buttons@;
            let n = buttons.len();
            let mut i: usize = 0;
            while i < n
                invariant
                    n == orig.len(),
                    buttons@.len() == n,
                    i <= n,
                    forall|j: int|
                        0 <= j < i ==> buttons@[j] == (TitleBarButton {
                            kind: orig[j].kind.spec_demoted(),
                            ..orig[j]
                        }),
                    forall|j: int| i <= j < n ==> buttons@[j] == orig[j],
                decreases n - i,
            {
                let b = buttons[i];
                if b.kind == TitleBarButtonEnum::Restore {
                    buttons.set(
                        i,
                        TitleBarButton { kind: TitleBarButtonEnum::Restore.toggled(), ..b },
                    );
                }
                i = i + 1;
            }
            proof {
                assert(buttons@ =~= orig.map_values(
                    |b: TitleBarButton| TitleBarButton { kind: b.kind.spec_demoted(), ..b },
                ));
            }
            true
        },
    }
}

// ---------------------------------------------------------------------
// Button click pass
// ---------------------------------------------------------------------

/// A press edge: the button is pressed this cycle and was not pressed in
/// the snapshot of the previous cycle.
pub open spec fn spec_is_new_press(b: TitleBarButton) -> bool {
    b.interaction is Pressed && b.previous.interaction != Some(Interaction::Pressed)
}

/// The platform request of an accepted press on a button of this kind.
pub open spec fn spec_request_of(kind: TitleBarButtonEnum) -> PlatformRequest {
    match kind {
        TitleBarButtonEnum::Close => PlatformRequest::ExitApplication,
        TitleBarButtonEnum::Minimize => PlatformRequest::SetMinimized(true),
        TitleBarButtonEnum::Maximize => PlatformRequest::SetMaximized(true),
        TitleBarButtonEnum::Restore => PlatformRequest::SetMaximized(false),
    }
}

/// A button after the click pass ran with the cooldown elapsed: the
/// snapshot is refreshed, and an accepted press toggles the kind.
pub open spec fn spec_button_after(b: TitleBarButton) -> TitleBarButton {
    TitleBarButton {
        kind: if spec_is_new_press(b) {
            b.kind.spec_toggled()
        } else {
            b.kind
        },
        interaction: b.interaction,
        previous: PreviousInteraction { interaction: Some(b.interaction) },
    }
}

/// The platform requests of the click pass, one per accepted press, in
/// button order.
pub open spec fn spec_click_requests(bs: Seq<TitleBarButton>) -> Seq<PlatformRequest>
    decreases bs.len(),
{
    if bs.len() == 0 {
        Seq::empty()
    } else {
        spec_click_requests(bs.drop_last()) + if spec_is_new_press(bs.last()) {
            seq![spec_request_of(bs.last().kind)]
        } else {
            Seq::empty()
        }
    }
}

/// Whether any button has a press edge this cycle.
pub open spec fn spec_any_new_press(bs: Seq<TitleBarButton>) -> bool {
    exists|i: int| 0 <= i < bs.len() && spec_is_new_press(bs[i])
}

/// Whether a Minimize button has a press edge this cycle.
pub open spec fn spec_any_minimize_press(bs: Seq<TitleBarButton>) -> bool {
    exists|i: int|
        0 <= i < bs.len() && spec_is_new_press(bs[i]) && bs[i].kind is Minimize
}

/// Extending the scanned prefix by one button adds exactly that button's
/// press edge to `spec_any_new_press`.
proof fn lemma_any_new_press_step(bs: Seq<TitleBarButton>, i: int)
    requires
        0 <= i < bs.len(),
    ensures
        spec_any_new_press(bs.subrange(0, i + 1)) == (spec_any_new_press(bs.subrange(0, i))
            || spec_is_new_press(bs[i])),
{
    let pre = bs.subrange(0, i);
    let post = bs.subrange(0, i + 1);
    if spec_any_new_press(pre) {
        let j = choose|j: int| 0 <= j < pre.len() && spec_is_new_press(pre[j]);
        assert(spec_is_new_press(post[j]));
    }
    if spec_is_new_press(bs[i]) {
        assert(spec_is_new_press(post[i]));
    }
    if spec_any_new_press(post) {
        let j = choose|j: int| 0 <= j < post.len() && spec_is_new_press(post[j]);
        if j < i {
            assert(spec_is_new_press(pre[j]));
        }
    }
}

/// The same step fact for `spec_any_minimize_press`.
proof fn lemma_any_minimize_press_step(bs: Seq<TitleBarButton>, i: int)
    requires
        0 <= i < bs.len(),
    ensures
        spec_any_minimize_press(bs.subrange(0, i + 1)) == (spec_any_minimize_press(
            bs.subrange(0, i),
        ) || (spec_is_new_press(bs[i]) && bs[i].kind is Minimize)),
{
    let pre = bs.subrange(0, i);
    let post = bs.subrange(0, i + 1);
    if spec_any_minimize_press(pre) {
        let j = choose|j: int|
            0 <= j < pre.len() && spec_is_new_press(pre[j]) && pre[j].kind is Minimize;
        assert(spec_is_new_press(post[j]) && post[j].kind is Minimize);
    }
    if spec_is_new_press(bs[i]) && bs[i].kind is Minimize {
        assert(spec_is_new_press(post[i]) && post[i].kind is Minimize);
    }
    if spec_any_minimize_press(post) {
        let j = choose|j: int|
            0 <= j < post.len() && spec_is_new_press(post[j]) && post[j].kind is Minimize;
        if j < i {
            assert(spec_is_new_press(pre[j]) && pre[j].kind is Minimize);
        }
    }
}

/// One pass of the click handler over the whole controller state: the
/// buttons, the was-minimized flag, the cooldown, and the requests it
/// emits, in that order.
pub open spec fn spec_clicks_pass(
    bs: Seq<TitleBarButton>,
    ws: WindowState,
    cd: TitleBarButtonCooldown,
    delta_ms: u64,
) -> (Seq<TitleBarButton>, WindowState, TitleBarButtonCooldown, Seq<PlatformRequest>) {
    let ticked = spec_ticked(cd, delta_ms);
    if !ticked.spec_is_finished() {
        // Debounce: the whole pass is skipped, and in particular the
        // snapshots are not refreshed.
        (bs, ws, ticked, Seq::empty())
    } else {
        (
            bs.map_values(|b: TitleBarButton| spec_button_after(b)),
            WindowState { was_minimized: ws.was_minimized || spec_any_minimize_press(bs) },
            TitleBarButtonCooldown {
                duration_ms: cd.duration_ms,
                elapsed_ms: if spec_any_new_press(bs) {
                    0
                } else {
                    ticked.elapsed_ms
                },
            },
            spec_click_requests(bs),
        )
    }
}

/// One pass of the title-bar click handler. The cooldown is advanced by
/// the cycle's delta; while it has not fully elapsed the pass does
/// nothing. Otherwise every press edge is accepted: it restarts the
/// cooldown, emits the button's platform request, toggles a
/// Maximize/Restore kind, and a Minimize press sets the was-minimized
/// flag. Every button's snapshot is refreshed.
pub fn handle_button_clicks(
    buttons: &mut Vec<TitleBarButton>,
    window_state: &mut WindowState,
    cooldown: &mut TitleBarButtonCooldown,
    delta_ms: u64,
) -> (requests: Vec<PlatformRequest>)
    requires
        old(cooldown).wf(),
    ensures
        ({
            let (bs2, ws2, cd2, reqs) = spec_clicks_pass(
                old(buttons)@,
                *old(window_state),
                *old(cooldown),
                delta_ms,
            );
            final(buttons)@ == bs2 && *final(window_state) == ws2 && *final(cooldown) == cd2
                && requests@ == reqs
        }),
        final(cooldown).wf(),
{
    cooldown.tick(delta_ms);
    if !cooldown.is_finished() {
        return Vec::new();
    }
    let ghost orig: Seq<TitleBarButton> = buttons@;
    let ghost cd_after_tick: TitleBarButtonCooldown = *cooldown;
    let mut requests: Vec<PlatformRequest> = Vec::new();
    let n = buttons.len();
    let mut i: usize = 0;
    while i < n
        invariant
            n == orig.len(),
            buttons@.len() == n,
            i <= n,
            cd_after_tick.spec_is_finished(),
            cd_after_tick.wf(),
            forall|j: int| 0 <= j < i ==> buttons@[j] == spec_button_after(orig[j]),
            forall|j: int| i <= j < n ==> buttons@[j] == orig[j],
            requests@ == spec_click_requests(orig.subrange(0, i as int)),
            window_state.was_minimized == (old(window_state).was_minimized
                || spec_any_minimize_press(orig.subrange(0, i as int))),
            *cooldown == (TitleBarButtonCooldown {
                duration_ms: cd_after_tick.duration_ms,
                elapsed_ms: if spec_any_new_press(orig.subrange(0, i as int)) {
                    0
                } else {
                    cd_after_tick.elapsed_ms
                },
            }),
        decreases n - i,
    {
        let b = buttons[i];
        let is_new_press = b.interaction == Interaction::Pressed
            && b.previous.interaction != Some(Interaction::Pressed);
        let mut updated = b;
        updated.previous = PreviousInteraction { interaction: Some(b.interaction) };
        if is_new_press {
            cooldown.reset();
            match b.kind {
                TitleBarButtonEnum::Close => {
                    requests.push(PlatformRequest::ExitApplication);
                },
                TitleBarButtonEnum::Minimize => {
                    requests.push(PlatformRequest::SetMinimized(true));
                    window_state.was_minimized = true;
                },
                TitleBarButtonEnum::Maximize => {
                    requests.push(PlatformRequest::SetMaximized(true));
                    updated.kind = b.kind.toggled();
                },
                TitleBarButtonEnum::Restore => {
                    requests.push(PlatformRequest::SetMaximized(false));
                    updated.kind = b.kind.toggled();
                },
            }
        }
        buttons.set(i, updated);
        proof {
            let pre = orig.subrange(0, i as int);
            let post = orig.subrange(0, i as int + 1);
            assert(post.drop_last() =~= pre);
            assert(post.last() == orig[i as int]);
            lemma_any_new_press_step(orig, i as int);
            lemma_any_minimize_press_step(orig, i as int);
        }
        i = i + 1;
    }
    proof {
        assert(orig.subrange(0, n as int) =~= orig);
        assert(buttons@ =~= orig.map_values(|b: TitleBarButton| spec_button_after(b)));
    }
    requests
}

// ---------------------------------------------------------------------
// Debounce and toggle laws
// ---------------------------------------------------------------------

/// While the cooldown has not fully elapsed, a click pass accepts
/// nothing: it emits no request and leaves the buttons, the window state,
/// and the snapshots untouched, whatever the buttons report.
pub proof fn lemma_debounce_within_cooldown(
    bs: Seq<TitleBarButton>,
    ws: WindowState,
    cd: TitleBarButtonCooldown,
    delta_ms: u64,
)
    requires
        cd.wf(),
        cd.elapsed_ms + delta_ms < cd.duration_ms,
    ensures
        spec_clicks_pass(bs, ws, cd, delta_ms).0 == bs,
        spec_clicks_pass(bs, ws, cd, delta_ms).1 == ws,
        spec_clicks_pass(bs, ws, cd, delta_ms).3 == Seq::<PlatformRequest>::empty(),
{
}

/// Two activation attempts on one button separated by less than the
/// cooldown duration yield exactly one accepted action: the first pass
/// accepts the press edge and restarts the cooldown, and the following
/// pass, coming before the cooldown has elapsed again, emits nothing,
/// whatever the buttons report by then.
pub proof fn lemma_debounce_two_quick_presses(
    b: TitleBarButton,
    bs2: Seq<TitleBarButton>,
    ws: WindowState,
    cd: TitleBarButtonCooldown,
    d1: u64,
    d2: u64,
)
    requires
        cd.wf(),
        cd.elapsed_ms + d1 >= cd.duration_ms,
        spec_is_new_press(b),
        d2 < cd.duration_ms,
    ensures
        ({
            let (bs1, ws1, cd1, r1) = spec_clicks_pass(seq![b], ws, cd, d1);
            let (bs2a, ws2, cd2, r2) = spec_clicks_pass(bs2, ws1, cd1, d2);
            r1 == seq![spec_request_of(b.kind)] && r2 == Seq::<PlatformRequest>::empty()
        }),
{
    let (bs1, ws1, cd1, r1) = spec_clicks_pass(seq![b], ws, cd, d1);
    assert(spec_is_new_press(seq![b][0]));
    assert(spec_any_new_press(seq![b]));
    assert(spec_click_requests(seq![b].drop_last()) == Seq::<PlatformRequest>::empty());
    assert(r1 =~= seq![spec_request_of(b.kind)]);
    assert(cd1.elapsed_ms == 0 && cd1.duration_ms == cd.duration_ms);
}

/// Two activation attempts separated by more than the cooldown duration
/// are both accepted: after the accepted first press, a pass that sees
/// the button released once the cooldown has elapsed refreshes the
/// snapshot without emitting anything, and the next press edge is
/// accepted again.
pub proof fn lemma_debounce_spaced_presses_both_accepted(
    b: TitleBarButton,
    ws: WindowState,
    cd: TitleBarButtonCooldown,
    d1: u64,
    d2: u64,
    d3: u64,
)
    requires
        cd.wf(),
        cd.elapsed_ms + d1 >= cd.duration_ms,
        spec_is_new_press(b),
        d2 >= cd.duration_ms,
    ensures
        ({
            let (bs1, ws1, cd1, r1) = spec_clicks_pass(seq![b], ws, cd, d1);
            let released = TitleBarButton { interaction: Interaction::Idle, ..bs1[0] };
            let (bs2, ws2, cd2, r2) = spec_clicks_pass(seq![released], ws1, cd1, d2);
            let pressed_again = TitleBarButton { interaction: Interaction::Pressed, ..bs2[0] };
            let (bs3, ws3, cd3, r3) = spec_clicks_pass(seq![pressed_again], ws2, cd2, d3);
            r1 == seq![spec_request_of(b.kind)] && r2 == Seq::<PlatformRequest>::empty()
                && r3 == seq![spec_request_of(pressed_again.kind)]
        }),
{
    let (bs1, ws1, cd1, r1) = spec_clicks_pass(seq![b], ws, cd, d1);
    assert(spec_is_new_press(seq![b][0]));
    assert(spec_any_new_press(seq![b]));
    assert(spec_click_requests(seq![b].drop_last()) == Seq::<PlatformRequest>::empty());
    assert(r1 =~= seq![spec_request_of(b.kind)]);
    assert(bs1 =~= seq![b].map_values(|x: TitleBarButton| spec_button_after(x)));
    assert(cd1.elapsed_ms == 0 && cd1.duration_ms == cd.duration_ms);

    let released = TitleBarButton { interaction: Interaction::Idle, ..bs1[0] };
    let (bs2, ws2, cd2, r2) = spec_clicks_pass(seq![released], ws1, cd1, d2);
    assert(!spec_is_new_press(released));
    assert(!spec_any_new_press(seq![released])) by {
        if spec_any_new_press(seq![released]) {
            let j = choose|j: int|
                0 <= j < seq![released].len() && spec_is_new_press(seq![released][j]);
            assert(j == 0);
        }
    }
    assert(spec_click_requests(seq![released].drop_last()) == Seq::<PlatformRequest>::empty());
    assert(r2 =~= Seq::<PlatformRequest>::empty());
    assert(bs2 =~= seq![released].map_values(|x: TitleBarButton| spec_button_after(x)));
    assert(cd2.elapsed_ms == cd.duration_ms && cd2.duration_ms == cd.duration_ms);

    let pressed_again = TitleBarButton { interaction: Interaction::Pressed, ..bs2[0] };
    assert(bs2[0].previous.interaction == Some(Interaction::Idle));
    let (bs3, ws3, cd3, r3) = spec_clicks_pass(seq![pressed_again], ws2, cd2, d3);
    assert(spec_is_new_press(seq![pressed_again][0]));
    assert(spec_any_new_press(seq![pressed_again]));
    assert(spec_click_requests(seq![pressed_again].drop_last())
        == Seq::<PlatformRequest>::empty());
    assert(r3 =~= seq![spec_request_of(pressed_again.kind)]);
}

/// Toggle correctness: an accepted press on a Maximize button sets its
/// kind to Restore, an accepted press on a Restore button sets it back to
/// Maximize, and a drag-move issued while a button is in Restore kind
/// demotes it to Maximize.
pub proof fn lemma_toggle_correctness(b: TitleBarButton, bs: Seq<TitleBarButton>, i: int)
    requires
        0 <= i < bs.len(),
    ensures
        b.kind is Maximize && spec_is_new_press(b) ==> spec_button_after(b).kind is Restore,
        b.kind is Restore && spec_is_new_press(b) ==> spec_button_after(b).kind is Maximize,
        bs[i].kind is Restore ==> spec_drag_buttons(bs, true)[i].kind is Maximize,
{
}

// ---------------------------------------------------------------------
// Focus recovery pass
// ---------------------------------------------------------------------

/// Whether any notification in the batch reports the window gaining
/// focus.
pub open spec fn spec_any_focus_gained(events: Seq<bool>) -> bool {
    exists|i: int| 0 <= i < events.len() && events[i]
}

/// Extending the scanned prefix by one notification adds exactly that
/// notification to `spec_any_focus_gained`.
proof fn lemma_any_focus_gained_step(events: Seq<bool>, i: int)
    requires
        0 <= i < events.len(),
    ensures
        spec_any_focus_gained(events.subrange(0, i + 1)) == (spec_any_focus_gained(
            events.subrange(0, i),
        ) || events[i]),
{
    let pre = events.subrange(0, i);
    let post = events.subrange(0, i + 1);
    if spec_any_focus_gained(pre) {
        let j = choose|j: int| 0 <= j < pre.len() && pre[j];
        assert(post[j]);
    }
    if events[i] {
        assert(post[i]);
    }
    if spec_any_focus_gained(post) {
        let j = choose|j: int| 0 <= j < post.len() && post[j];
        if j < i {
            assert(pre[j]);
        }
    }
}

/// One pass of the focus-recovery handler. `focus_events` holds the
/// cycle's window-focus notifications in order, `true` for focus gained.
/// When focus returns to a window that its own button minimized, the
/// was-minimized flag is cleared and the retained primary-button input is
/// reset, so a stale press cannot replay after the restore.
pub fn handle_window_visibility(
    window_state: &mut WindowState,
    focus_events: &Vec<bool>,
    mouse_left: &mut MouseButtonState,
) -> (did_reset: bool)
    ensures
        final(window_state).was_minimized == (old(window_state).was_minimized
            && !spec_any_focus_gained(focus_events@)),
        did_reset == (old(window_state).was_minimized && spec_any_focus_gained(focus_events@)),
        did_reset ==> *final(mouse_left) == (MouseButtonState {
            pressed: false,
            just_pressed: false,
        }),
        !did_reset ==> *final(mouse_left) == *old(mouse_left),
{
    let mut did_reset = false;
    let n = focus_events.len();
    let mut i: usize = 0;
    while i < n
        invariant
            n == focus_events@.len(),
            i <= n,
            window_state.was_minimized == (old(window_state).was_minimized
                && !spec_any_focus_gained(focus_events@.subrange(0, i as int))),
            did_reset == (old(window_state).was_minimized && spec_any_focus_gained(
                focus_events@.subrange(0, i as int),
            )),
            did_reset ==> *mouse_left == (MouseButtonState {
                pressed: false,
                just_pressed: false,
            }),
            !did_reset ==> *mouse_left == *old(mouse_left),
        decreases n - i,
    {
        let focused = focus_events[i];
        if focused && window_state.was_minimized {
            window_state.was_minimized = false;
            mouse_left.reset();
            did_reset = true;
        }
        proof {
            lemma_any_focus_gained_step(focus_events@, i as int);
        }
        i = i + 1;
    }
    proof {
        assert(focus_events@.subrange(0, n as int) =~= focus_events@);
    }
    did_reset
}

} // verus!
