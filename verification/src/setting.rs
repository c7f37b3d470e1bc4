//! The Setting page and the synchronization of its language controls.
//!
//! The page shows one radio-style control per language. Two paths keep
//! the controls and the shared language value consistent:
//!
//! - user-driven: activating a control resolves a language by membership
//!   test and writes it to the `LanguageManager` and the `Setting`,
//!   raising the manager's change flag;
//! - external-driven: whenever the change flag is set, a synchronization
//!   pass recomputes every control's checked flag and writes its two
//!   dependent visual attributes (border shade, fill mark) directly, in
//!   the same cycle.
//!
//! Generic reactive updaters, triggered by a written or removed checked
//! flag whatever its cause, independently keep the visual attributes
//! consistent; the direct path is sequenced after them, so it wins when
//! both apply.

use vstd::prelude::*;

use crate::config::Setting;
use crate::homepage::{
    ContentNode, ContentRegion, Functions, Widget, spec_enter_nodes, spec_nodes_after,
    spec_region_inv, spec_same_shape,
};
use crate::i18n::{Language, LanguageManager};

verus! {

/// The emphasis border of a control: emphasized when checked.
#[derive(Debug, Clone, Copy, PartialEq, Eq, Structural)]
pub enum BorderShade {
    Checked,
    Unchecked,
}

/// The fill mark of a control: filled when checked, clear otherwise.
#[derive(Debug, Clone, Copy, PartialEq, Eq, Structural)]
pub enum MarkFill {
    Filled,
    Clear,
}

/// What happened to a control's checked flag in the current cycle, as the
/// change tracker of the scene engine reports it. The reactive updaters
/// fire on `Written` and `Removed` and ignore `Steady`.
#[derive(Debug, Clone, Copy, PartialEq, Eq, Structural)]
pub enum CheckedEvent {
    /// The flag did not change this cycle.
    Steady,
    /// The flag was added or rewritten this cycle.
    Written,
    /// The flag was removed this cycle.
    Removed,
}

/// One radio-style selectable control, bound to a language.
#[derive(Debug, Clone, Copy, PartialEq, Eq, Structural)]
pub struct RadioControl {
    /// The language this control selects.
    pub language: Language,
    /// Whether the control is currently checked.
    pub checked: bool,
    /// What happened to the checked flag this cycle.
    pub event: CheckedEvent,
    /// The emphasis border, a function of the checked flag once updated.
    pub border: BorderShade,
    /// The fill mark, a function of the checked flag once updated.
    pub fill: MarkFill,
}

/// The border a control must show for a checked state.
pub open spec fn spec_border_of(checked: bool) -> BorderShade {
    if checked {
        BorderShade::Checked
    } else {
        BorderShade::Unchecked
    }
}

/// The fill mark a control must show for a checked state.
pub open spec fn spec_fill_of(checked: bool) -> MarkFill {
    if checked {
        MarkFill::Filled
    } else {
        MarkFill::Clear
    }
}

/// Builds one radio control for a language with its initial checked
/// state; the visual attributes match the checked state from the start,
/// and a control born checked reports its flag as freshly written.
pub fn radio_button(language: Language, is_checked: bool) -> (c: RadioControl)
    ensures
        c == spec_radio_button(language, is_checked),
{
    RadioControl {
        language,
        checked: is_checked,
        event: if is_checked {
            CheckedEvent::Written
        } else {
            CheckedEvent::Steady
        },
        border: if is_checked {
            BorderShade::Checked
        } else {
            BorderShade::Unchecked
        },
        fill: if is_checked {
            MarkFill::Filled
        } else {
            MarkFill::Clear
        },
    }
}

/// The control `radio_button` builds.
pub open spec fn spec_radio_button(language: Language, is_checked: bool) -> RadioControl {
    RadioControl {
        language,
        checked: is_checked,
        event: if is_checked {
            CheckedEvent::Written
        } else {
            CheckedEvent::Steady
        },
        border: spec_border_of(is_checked),
        fill: spec_fill_of(is_checked),
    }
}

/// The nodes the Setting page mounts under the content region: a panel,
/// the radio group, and one control with its label per language; the
/// control bound to the active language starts checked.
pub open spec fn spec_setting_nodes(lang: Language) -> Seq<ContentNode> {
    seq![
        ContentNode { owner: Functions::Setting, widget: Widget::SettingPanel },
        ContentNode { owner: Functions::Setting, widget: Widget::LanguageRadioGroup },
        ContentNode {
            owner: Functions::Setting,
            widget: Widget::RadioOption(
                spec_radio_button(Language::Chinese, lang is Chinese),
            ),
        },
        ContentNode {
            owner: Functions::Setting,
            widget: Widget::RadioLabel(Language::Chinese),
        },
        ContentNode {
            owner: Functions::Setting,
            widget: Widget::RadioOption(
                spec_radio_button(Language::English, lang is English),
            ),
        },
        ContentNode {
            owner: Functions::Setting,
            widget: Widget::RadioLabel(Language::English),
        },
    ]
}

/// The enter hook of the Setting page: constructs the settings panel with
/// one language control per language under the content region, checking
/// the control of the active language.
pub fn on_enter(region: &mut ContentRegion, language_manager: &LanguageManager)
    ensures
        final(region).nodes@ == old(region).nodes@ + spec_setting_nodes(
            language_manager.spec_current_language(),
        ),
        final(region).top_px == old(region).top_px,
{
    let lang = language_manager.current_language();
    let is_english = lang == Language::English;
    region.nodes.push(ContentNode { owner: Functions::Setting, widget: Widget::SettingPanel });
    region.nodes.push(
        ContentNode { owner: Functions::Setting, widget: Widget::LanguageRadioGroup },
    );
    region.nodes.push(
        ContentNode {
            owner: Functions::Setting,
            widget: Widget::RadioOption(radio_button(Language::Chinese, !is_english)),
        },
    );
    region.nodes.push(
        ContentNode { owner: Functions::Setting, widget: Widget::RadioLabel(Language::Chinese) },
    );
    region.nodes.push(
        ContentNode {
            owner: Functions::Setting,
            widget: Widget::RadioOption(radio_button(Language::English, is_english)),
        },
    );
    region.nodes.push(
        ContentNode { owner: Functions::Setting, widget: Widget::RadioLabel(Language::English) },
    );
    proof {
        assert(region.nodes@ =~= old(region).nodes@ + spec_setting_nodes(
            language_manager.spec_current_language(),
        ));
    }
}

/// The exit hook of the Setting page: removes every node the page owns
/// from the content region.
pub fn on_exit(region: &mut ContentRegion)
    ensures
        final(region).nodes@ == old(region).nodes@.filter(
            |n: ContentNode| n.owner != Functions::Setting,
        ),
        final(region).top_px == old(region).top_px,
{
    crate::homepage::despawn_owned(region, Functions::Setting);
}

// ---------------------------------------------------------------------
// User-driven path: control activation
// ---------------------------------------------------------------------

/// The language an activated control resolves to, by membership test: the
/// activated scene entity must be one of the region's radio controls.
pub open spec fn spec_resolve_control(ns: Seq<ContentNode>, value: int) -> Option<Language> {
    if 0 <= value < ns.len() {
        match ns[value].widget {
            Widget::RadioOption(rc) => Some(rc.language),
            _ => None,
        }
    } else {
        None
    }
}

/// Handles the activation of a selectable control. `value` identifies the
/// activated node within the content region. A node that is not a known
/// language control resolves to nothing and the activation is dropped;
/// otherwise the resolved language is written to the manager (raising its
/// change flag) and to the settings, and the new settings value is handed
/// back so that the host can persist it.
pub fn on_language_radio_change(
    region: &ContentRegion,
    value: usize,
    language_manager: &mut LanguageManager,
    setting: &mut Setting,
) -> (save: Option<Setting>)
    ensures
        match spec_resolve_control(region.nodes@, value as int) {
            Some(lang) => {
                &&& final(language_manager).spec_current_language() == lang
                &&& final(language_manager).spec_changed()
                &&& final(setting).language == lang
                &&& save == Some(*final(setting))
            },
            None => {
                &&& *final(language_manager) == *old(language_manager)
                &&& *final(setting) == *old(setting)
                &&& save is None
            },
        },
{
    if value >= region.nodes.len() {
        return None;
    }
    let node = region.nodes[value];
    match node.widget {
        Widget::RadioOption(rc) => {
            let new_language = rc.language;
            language_manager.set_current_language(new_language);
            setting.language = new_language;
            Some(*setting)
        },
        _ => None,
    }
}

// ---------------------------------------------------------------------
// Generic reactive updaters
// ---------------------------------------------------------------------

/// A node after the border updater reacted to a written checked flag.
pub open spec fn spec_border_written_updated(n: ContentNode) -> ContentNode {
    match n.widget {
        Widget::RadioOption(rc) => {
            if rc.event is Written {
                ContentNode {
                    owner: n.owner,
                    widget: Widget::RadioOption(
                        RadioControl { border: spec_border_of(rc.checked), ..rc },
                    ),
                }
            } else {
                n
            }
        },
        _ => n,
    }
}

/// A node after the border updater reacted to a removed checked flag.
pub open spec fn spec_border_removed_updated(n: ContentNode) -> ContentNode {
    match n.widget {
        Widget::RadioOption(rc) => {
            if rc.event is Removed {
                ContentNode {
                    owner: n.owner,
                    widget: Widget::RadioOption(
                        RadioControl { border: spec_border_of(rc.checked), ..rc },
                    ),
                }
            } else {
                n
            }
        },
        _ => n,
    }
}

/// A node after the mark updater reacted to a written checked flag.
pub open spec fn spec_mark_written_updated(n: ContentNode) -> ContentNode {
    match n.widget {
        Widget::RadioOption(rc) => {
            if rc.event is Written {
                ContentNode {
                    owner: n.owner,
                    widget: Widget::RadioOption(
                        RadioControl { fill: spec_fill_of(rc.checked), ..rc },
                    ),
                }
            } else {
                n
            }
        },
        _ => n,
    }
}

/// A node after the mark updater reacted to a removed checked flag.
pub open spec fn spec_mark_removed_updated(n: ContentNode) -> ContentNode {
    match n.widget {
        Widget::RadioOption(rc) => {
            if rc.event is Removed {
                ContentNode {
                    owner: n.owner,
                    widget: Widget::RadioOption(
                        RadioControl { fill: spec_fill_of(rc.checked), ..rc },
                    ),
                }
            } else {
                n
            }
        },
        _ => n,
    }
}

/// Updates the emphasis border of every control whose checked flag was
/// written this cycle, whatever caused the write.
pub fn update_radio_button_border_color(region: &mut ContentRegion)
    ensures
        final(region).nodes@ == old(region).nodes@.map_values(
            |n: ContentNode| spec_border_written_updated(n),
        ),
        final(region).top_px == old(region).top_px,
{
    let n = region.nodes.len();
    let ghost orig: Seq<ContentNode> = region.nodes@;
    let mut i: usize = 0;
    while i < n
        invariant
            n == orig.len(),
            region.nodes@.len() == n,
            region.top_px == old(region).top_px,
            i <= n,
            forall|j: int| 0 <= j < i ==> region.nodes@[j] == spec_border_written_updated(orig[j]),
            forall|j: int| i <= j < n ==> region.nodes@[j] == orig[j],
        decreases n - i,
    {
        let node = region.nodes[i];
        match node.widget {
            Widget::RadioOption(rc) => {
                if rc.event == CheckedEvent::Written {
                    let updated = RadioControl {
                        border: if rc.checked {
                            BorderShade::Checked
                        } else {
                            BorderShade::Unchecked
                        },
                        ..rc
                    };
                    region.nodes.set(
                        i,
                        ContentNode { owner: node.owner, widget: Widget::RadioOption(updated) },
                    );
                }
            },
            _ => {},
        }
        i = i + 1;
    }
    proof {
        assert(region.nodes@ =~= orig.map_values(
            |x: ContentNode| spec_border_written_updated(x),
        ));
    }
}

/// Updates the emphasis border of every control whose checked flag was
/// removed this cycle.
pub fn update_radio_button_border_color2(region: &mut ContentRegion)
    ensures
        final(region).nodes@ == old(region).nodes@.map_values(
            |n: ContentNode| spec_border_removed_updated(n),
        ),
        final(region).top_px == old(region).top_px,
{
    let n = region.nodes.len();
    let ghost orig: Seq<ContentNode> = region.nodes@;
    let mut i: usize = 0;
    while i < n
        invariant
            n == orig.len(),
            region.nodes@.len() == n,
            region.top_px == old(region).top_px,
            i <= n,
            forall|j: int| 0 <= j < i ==> region.nodes@[j] == spec_border_removed_updated(orig[j]),
            forall|j: int| i <= j < n ==> region.nodes@[j] == orig[j],
        decreases n - i,
    {
        let node = region.nodes[i];
        match node.widget {
            Widget::RadioOption(rc) => {
                if rc.event == CheckedEvent::Removed {
                    let updated = RadioControl {
                        border: if rc.checked {
                            BorderShade::Checked
                        } else {
                            BorderShade::Unchecked
                        },
                        ..rc
                    };
                    region.nodes.set(
                        i,
                        ContentNode { owner: node.owner, widget: Widget::RadioOption(updated) },
                    );
                }
            },
            _ => {},
        }
        i = i + 1;
    }
    proof {
        assert(region.nodes@ =~= orig.map_values(
            |x: ContentNode| spec_border_removed_updated(x),
        ));
    }
}

/// Updates the fill mark of every control whose checked flag was written
/// this cycle.
pub fn update_radio_button_mark_color(region: &mut ContentRegion)
    ensures
        final(region).nodes@ == old(region).nodes@.map_values(
            |n: ContentNode| spec_mark_written_updated(n),
        ),
        final(region).top_px == old(region).top_px,
{
    let n = region.nodes.len();
    let ghost orig: Seq<ContentNode> = region.nodes@;
    let mut i: usize = 0;
    while i < n
        invariant
            n == orig.len(),
            region.nodes@.len() == n,
            region.top_px == old(region).top_px,
            i <= n,
            forall|j: int| 0 <= j < i ==> region.nodes@[j] == spec_mark_written_updated(orig[j]),
            forall|j: int| i <= j < n ==> region.nodes@[j] == orig[j],
        decreases n - i,
    {
        let node = region.nodes[i];
        match node.widget {
            Widget::RadioOption(rc) => {
                if rc.event == CheckedEvent::Written {
                    let updated = RadioControl {
                        fill: if rc.checked {
                            MarkFill::Filled
                        } else {
                            MarkFill::Clear
                        },
                        ..rc
                    };
                    region.nodes.set(
                        i,
                        ContentNode { owner: node.owner, widget: Widget::RadioOption(updated) },
                    );
                }
            },
            _ => {},
        }
        i = i + 1;
    }
    proof {
        assert(region.nodes@ =~= orig.map_values(|x: ContentNode| spec_mark_written_updated(x)));
    }
}

/// Updates the fill mark of every control whose checked flag was removed
/// this cycle.
pub fn update_radio_button_mark_color2(region: &mut ContentRegion)
    ensures
        final(region).nodes@ == old(region).nodes@.map_values(
            |n: ContentNode| spec_mark_removed_updated(n),
        ),
        final(region).top_px == old(region).top_px,
{
    let n = region.nodes.len();
    let ghost orig: Seq<ContentNode> = region.nodes@;
    let mut i: usize = 0;
    while i < n
        invariant
            n == orig.len(),
            region.nodes@.len() == n,
            region.top_px == old(region).top_px,
            i <= n,
            forall|j: int| 0 <= j < i ==> region.nodes@[j] == spec_mark_removed_updated(orig[j]),
            forall|j: int| i <= j < n ==> region.nodes@[j] == orig[j],
        decreases n - i,
    {
        let node = region.nodes[i];
        match node.widget {
            Widget::RadioOption(rc) => {
                if rc.event == CheckedEvent::Removed {
                    let updated = RadioControl {
                        fill: if rc.checked {
                            MarkFill::Filled
                        } else {
                            MarkFill::Clear
                        },
                        ..rc
                    };
                    region.nodes.set(
                        i,
                        ContentNode { owner: node.owner, widget: Widget::RadioOption(updated) },
                    );
                }
            },
            _ => {},
        }
        i = i + 1;
    }
    proof {
        assert(region.nodes@ =~= orig.map_values(|x: ContentNode| spec_mark_removed_updated(x)));
    }
}

// ---------------------------------------------------------------------
// External-driven path: direct synchronization
// ---------------------------------------------------------------------

/// A control after the synchronization pass for the active language: the
/// checked flag equals the membership test, a flip is recorded as a
/// written or removed flag for the reactive updaters, and both visual
/// attributes are set directly, without waiting a cycle.
pub open spec fn spec_synced_control(rc: RadioControl, lang: Language) -> RadioControl {
    let should = rc.language == lang;
    RadioControl {
        language: rc.language,
        checked: should,
        event: if should != rc.checked {
            if should {
                CheckedEvent::Written
            } else {
                CheckedEvent::Removed
            }
        } else {
            rc.event
        },
        border: spec_border_of(should),
        fill: spec_fill_of(should),
    }
}

/// A node after the synchronization pass: only radio controls change.
pub open spec fn spec_synced_node(n: ContentNode, lang: Language) -> ContentNode {
    match n.widget {
        Widget::RadioOption(rc) => ContentNode {
            owner: n.owner,
            widget: Widget::RadioOption(spec_synced_control(rc, lang)),
        },
        _ => n,
    }
}

/// The language a node's radio control is bound to, if it is one.
pub open spec fn spec_radio_language(n: ContentNode) -> Option<Language> {
    match n.widget {
        Widget::RadioOption(rc) => Some(rc.language),
        _ => None,
    }
}

/// Whether a node is a checked radio control.
pub open spec fn spec_checked_radio(n: ContentNode) -> bool {
    match n.widget {
        Widget::RadioOption(rc) => rc.checked,
        _ => false,
    }
}

/// A node agrees with a language: a radio control is checked exactly when
/// it is bound to that language, and both visual attributes match its
/// checked flag. Nodes that are not radio controls agree trivially.
pub open spec fn spec_node_converged(n: ContentNode, lang: Language) -> bool {
    match n.widget {
        Widget::RadioOption(rc) => {
            &&& rc.checked == (rc.language == lang)
            &&& rc.border == spec_border_of(rc.checked)
            &&& rc.fill == spec_fill_of(rc.checked)
        },
        _ => true,
    }
}

/// Every node agrees with the language.
pub open spec fn spec_radios_converged(ns: Seq<ContentNode>, lang: Language) -> bool {
    forall|i: int| 0 <= i < ns.len() ==> spec_node_converged(#[trigger] ns[i], lang)
}

/// The synchronization pass converges every control: after it, each radio
/// control's checked flag equals the membership test against the language
/// and both visual attributes match, in the same pass.
pub proof fn lemma_sync_converges(ns: Seq<ContentNode>, lang: Language)
    ensures
        spec_radios_converged(ns.map_values(|n: ContentNode| spec_synced_node(n, lang)), lang),
{
    let synced = ns.map_values(|n: ContentNode| spec_synced_node(n, lang));
    assert forall|i: int| 0 <= i < synced.len() implies spec_node_converged(
        #[trigger] synced[i],
        lang,
    ) by {
        assert(synced[i] == spec_synced_node(ns[i], lang));
    }
}

/// Settings convergence: on the Setting page, once the controls agree
/// with the current language, exactly one control in the mutually
/// exclusive set is checked, and it is the one bound to that language.
pub proof fn lemma_settings_exactly_one_checked(
    c: Functions,
    ns: Seq<ContentNode>,
    lang: Language,
)
    requires
        crate::homepage::spec_region_inv(c, ns),
        c is Setting,
        spec_radios_converged(ns, lang),
    ensures
        exists|i: int|
            0 <= i < ns.len() && #[trigger] spec_checked_radio(ns[i]) && spec_radio_language(
                ns[i],
            ) == Some(lang),
        forall|i: int, j: int|
            0 <= i < ns.len() && 0 <= j < ns.len() && #[trigger] spec_checked_radio(ns[i])
                && #[trigger] spec_checked_radio(ns[j]) ==> i == j,
{
    let template = crate::homepage::spec_enter_nodes(c, Language::Chinese);
    assert(ns.len() == 6);
    assert(crate::homepage::spec_same_shape(ns[2], template[2]));
    assert(crate::homepage::spec_same_shape(ns[4], template[4]));
    assert(spec_radio_language(ns[2]) == Some(Language::Chinese));
    assert(spec_radio_language(ns[4]) == Some(Language::English));
    assert(spec_node_converged(ns[2], lang));
    assert(spec_node_converged(ns[4], lang));
    assert(spec_checked_radio(ns[2]) == (lang is Chinese));
    assert(spec_checked_radio(ns[4]) == (lang is English));
    match lang {
        Language::Chinese => {
            assert(spec_checked_radio(ns[2]) && spec_radio_language(ns[2]) == Some(lang));
        },
        Language::English => {
            assert(spec_checked_radio(ns[4]) && spec_radio_language(ns[4]) == Some(lang));
        },
    }
    assert forall|i: int, j: int|
        0 <= i < ns.len() && 0 <= j < ns.len() && #[trigger] spec_checked_radio(ns[i])
            && #[trigger] spec_checked_radio(ns[j]) implies i == j by {
        assert forall|k: int|
            0 <= k < ns.len() && #[trigger] spec_checked_radio(ns[k]) implies k == 2 || k
            == 4 by {
            if k != 2 && k != 4 {
                assert(crate::homepage::spec_same_shape(ns[k], template[k]));
                if k == 0 {
                    assert(!spec_checked_radio(ns[0]));
                } else if k == 1 {
                    assert(!spec_checked_radio(ns[1]));
                } else if k == 3 {
                    assert(!spec_checked_radio(ns[3]));
                } else {
                    assert(!spec_checked_radio(ns[5]));
                }
            }
        }
        assert(!(spec_checked_radio(ns[2]) && spec_checked_radio(ns[4])));
    }
}

/// The nodes after the cycle's four generic reactive updaters ran in
/// order: border on written flags, border on removed flags, mark on
/// written flags, mark on removed flags.
pub open spec fn spec_updaters_applied(ns: Seq<ContentNode>) -> Seq<ContentNode> {
    ns.map_values(|n: ContentNode| spec_border_written_updated(n)).map_values(
        |n: ContentNode| spec_border_removed_updated(n),
    ).map_values(|n: ContentNode| spec_mark_written_updated(n)).map_values(
        |n: ContentNode| spec_mark_removed_updated(n),
    )
}

/// The reactive updaters keep the region's shape: they only rewrite the
/// visual attributes of radio controls.
pub proof fn lemma_updaters_preserve_inv(c: Functions, ns: Seq<ContentNode>)
    requires
        spec_region_inv(c, ns),
    ensures
        spec_region_inv(c, spec_updaters_applied(ns)),
{
    let t = spec_enter_nodes(c, Language::Chinese);
    let r = spec_updaters_applied(ns);
    assert forall|i: int| 0 <= i < r.len() implies spec_same_shape(r[i], t[i]) by {
        assert(spec_same_shape(ns[i], t[i]));
        assert(r[i] == spec_mark_removed_updated(
            spec_mark_written_updated(
                spec_border_removed_updated(spec_border_written_updated(ns[i])),
            ),
        ));
    }
}

/// The reactive updaters keep convergence: they rewrite a visual
/// attribute to the value of the checked flag, which a converged control
/// already shows.
pub proof fn lemma_updaters_preserve_converged(ns: Seq<ContentNode>, lang: Language)
    requires
        spec_radios_converged(ns, lang),
    ensures
        spec_radios_converged(spec_updaters_applied(ns), lang),
{
    let r = spec_updaters_applied(ns);
    assert forall|i: int| 0 <= i < r.len() implies spec_node_converged(#[trigger] r[i], lang) by {
        assert(spec_node_converged(ns[i], lang));
        assert(r[i] == spec_mark_removed_updated(
            spec_mark_written_updated(
                spec_border_removed_updated(spec_border_written_updated(ns[i])),
            ),
        ));
    }
}

/// The synchronization pass keeps the region's shape: it only rewrites
/// the mutable state of radio controls.
pub proof fn lemma_sync_preserves_inv(c: Functions, ns: Seq<ContentNode>, lang: Language)
    requires
        spec_region_inv(c, ns),
    ensures
        spec_region_inv(c, ns.map_values(|n: ContentNode| spec_synced_node(n, lang))),
{
    let t = spec_enter_nodes(c, Language::Chinese);
    let r = ns.map_values(|n: ContentNode| spec_synced_node(n, lang));
    assert forall|i: int| 0 <= i < r.len() implies spec_same_shape(r[i], t[i]) by {
        assert(spec_same_shape(ns[i], t[i]));
        assert(r[i] == spec_synced_node(ns[i], lang));
    }
}

/// A page's enter hook mounts controls that already agree with the
/// language it was given: the control of that language starts checked and
/// both visual attributes match.
pub proof fn lemma_enter_nodes_converged(page: Functions, lang: Language)
    ensures
        spec_radios_converged(spec_enter_nodes(page, lang), lang),
{
    let ns = spec_enter_nodes(page, lang);
    assert forall|i: int| 0 <= i < ns.len() implies spec_node_converged(#[trigger] ns[i], lang) by {
        match page {
            Functions::About => {
                assert(spec_node_converged(ns[0], lang));
            },
            Functions::Setting => {
                assert(spec_node_converged(ns[0], lang));
                assert(spec_node_converged(ns[1], lang));
                assert(spec_node_converged(ns[2], lang));
                assert(spec_node_converged(ns[3], lang));
                assert(spec_node_converged(ns[4], lang));
                assert(spec_node_converged(ns[5], lang));
            },
            Functions::RealtimePlot => {},
            Functions::Test => {
                assert(spec_node_converged(ns[0], lang));
            },
        }
    }
}

/// The navigation pass keeps convergence: a transition replaces the
/// region's nodes by nodes mounted for the active language.
pub proof fn lemma_navigation_preserves_converged(
    c: Functions,
    ns: Seq<ContentNode>,
    lang: Language,
    targets: Seq<Functions>,
)
    requires
        spec_region_inv(c, ns),
        spec_radios_converged(ns, lang),
    ensures
        spec_radios_converged(spec_nodes_after(c, ns, lang, targets), lang),
    decreases targets.len(),
{
    if targets.len() > 0 {
        lemma_navigation_preserves_converged(c, ns, lang, targets.drop_last());
        crate::homepage::lemma_navigation_preserves_inv(c, ns, lang, targets.drop_last());
        let before = crate::homepage::spec_current_after(c, targets.drop_last());
        let nodes_before = spec_nodes_after(c, ns, lang, targets.drop_last());
        if targets.last() != before {
            crate::homepage::lemma_exit_clears_current(before, nodes_before);
            lemma_enter_nodes_converged(targets.last(), lang);
            assert(crate::homepage::spec_exit_nodes(nodes_before, before) + spec_enter_nodes(
                targets.last(),
                lang,
            ) =~= spec_enter_nodes(targets.last(), lang));
        }
    }
}

/// The edge-triggered synchronization pass. When the manager's change
/// flag is set, it is consumed and every radio control's checked flag and
/// both visual attributes are recomputed from the current language in
/// this same pass; when the flag is clear, nothing happens.
pub fn sync_radio_buttons_to_language(
    language_manager: &mut LanguageManager,
    region: &mut ContentRegion,
)
    ensures
        final(language_manager).spec_current_language() == old(
            language_manager,
        ).spec_current_language(),
        !final(language_manager).spec_changed(),
        old(language_manager).spec_changed() ==> final(region).nodes@ == old(
            region,
        ).nodes@.map_values(
            |n: ContentNode|
                spec_synced_node(n, old(language_manager).spec_current_language()),
        ),
        !old(language_manager).spec_changed() ==> final(region).nodes@ == old(region).nodes@,
        final(region).top_px == old(region).top_px,
{
    if !language_manager.take_changed() {
        return ;
    }
    let lang = language_manager.current_language();
    let n = region.nodes.len();
    let ghost orig: Seq<ContentNode> = region.nodes@;
    let mut i: usize = 0;
    while i < n
        invariant
            n == orig.len(),
            region.nodes@.len() == n,
            region.top_px == old(region).top_px,
            i <= n,
            lang == old(language_manager).spec_current_language(),
            forall|j: int| 0 <= j < i ==> region.nodes@[j] == spec_synced_node(orig[j], lang),
            forall|j: int| i <= j < n ==> region.nodes@[j] == orig[j],
        decreases n - i,
    {
        let node = region.nodes[i];
        match node.widget {
            Widget::RadioOption(rc) => {
                let should_be_checked = rc.language == lang;
                let updated = RadioControl {
                    language: rc.language,
                    checked: should_be_checked,
                    event: if should_be_checked != rc.checked {
                        if should_be_checked {
                            CheckedEvent::Written
                        } else {
                            CheckedEvent::Removed
                        }
                    } else {
                        rc.event
                    },
                    border: if should_be_checked {
                        BorderShade::Checked
                    } else {
                        BorderShade::Unchecked
                    },
                    fill: if should_be_checked {
                        MarkFill::Filled
                    } else {
                        MarkFill::Clear
                    },
                };
                region.nodes.set(
                    i,
                    ContentNode { owner: node.owner, widget: Widget::RadioOption(updated) },
                );
            },
            _ => {},
        }
        i = i + 1;
    }
    proof {
        assert(region.nodes@ =~= orig.map_values(|x: ContentNode| spec_synced_node(x, lang)));
    }
}

} // verus!
