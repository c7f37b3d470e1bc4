//! The page navigation engine: a finite-state machine over page
//! identifiers with enter/exit lifecycle hooks mounting and unmounting
//! content under one content region.
//!
//! Navigation messages are processed in arrival order within one pass,
//! each checked against the then-current page, so several distinct
//! targets queued in one cycle chain sequentially. A message whose target
//! equals the then-current page is a no-op. Each accepted transition runs
//! the outgoing page's exit hook exactly once — it removes every node the
//! page owns — and then the incoming page's enter hook exactly once.

use vstd::prelude::*;

use crate::i18n::{Language, LanguageManager};
use crate::setting::RadioControl;

verus! {

broadcast use vstd::prelude::Seq::lemma_filter_push;

/// All pages of the shell; the content region shows exactly one of them
/// at a time. The navigable subset is the host's configuration: the
/// engine itself treats every identifier alike.
#[derive(Debug, Clone, Copy, PartialEq, Eq, Structural, Hash)]
pub enum Functions {
    About,
    Setting,
    RealtimePlot,
    Test,
}

impl Default for Functions {
    /// The shell starts on the About page.
    fn default() -> (f: Self)
        ensures
            f == Functions::About,
    {
        Functions::About
    }
}

/// A navigation message: a request to show the carried page.
#[derive(Debug, Clone, Copy, PartialEq, Eq, Structural)]
pub struct ChangeFunctionMessage(pub Functions);

/// A request to change the shared language value, as a language menu item
/// emits it.
#[derive(Debug, Clone, Copy, PartialEq, Eq, Structural)]
pub struct ChangeLanguageMessage(pub Language);

/// One visual node a page mounts under the content region.
#[derive(Debug, Clone, Copy, PartialEq, Eq, Structural)]
pub enum Widget {
    /// The About page's text block.
    AboutText,
    /// The Test page's text block.
    TestText,
    /// The Setting page's panel.
    SettingPanel,
    /// The group holding the language controls.
    LanguageRadioGroup,
    /// One selectable language control.
    RadioOption(RadioControl),
    /// The label beside a language control.
    RadioLabel(Language),
}

/// A node under the content region, tagged with the page that owns it;
/// the owning page's exit hook removes it.
#[derive(Debug, Clone, Copy, PartialEq, Eq, Structural)]
pub struct ContentNode {
    pub owner: Functions,
    pub widget: Widget,
}

/// The single mount point below the title bar: the active page's visual
/// nodes, and the region's vertical offset in pixels.
#[derive(Debug)]
pub struct ContentRegion {
    pub nodes: Vec<ContentNode>,
    pub top_px: u64,
}

/// The height of the title bar in pixels.
pub const TITLE_BAR_HEIGHT_PX: u64 = 40;

/// The height of the menu bar in pixels.
pub const MENU_BAR_HEIGHT_PX: u64 = 40;

impl ContentRegion {
    /// An empty content region placed directly below the title bar.
    pub fn new() -> (r: Self)
        ensures
            r.nodes@ == Seq::<ContentNode>::empty(),
            r.top_px == TITLE_BAR_HEIGHT_PX,
    {
        ContentRegion { nodes: Vec::new(), top_px: TITLE_BAR_HEIGHT_PX }
    }
}

/// One accepted page transition; its exit and enter hooks each ran once.
#[derive(Debug, Clone, Copy, PartialEq, Eq, Structural)]
pub struct PageTransition {
    pub from: Functions,
    pub to: Functions,
}

// ---------------------------------------------------------------------
// Enter and exit hooks
// ---------------------------------------------------------------------

/// The nodes a page's enter hook mounts, given the active language.
pub open spec fn spec_enter_nodes(page: Functions, lang: Language) -> Seq<ContentNode> {
    match page {
        Functions::About => seq![
            ContentNode { owner: Functions::About, widget: Widget::AboutText },
        ],
        Functions::Setting => crate::setting::spec_setting_nodes(lang),
        Functions::RealtimePlot => Seq::empty(),
        Functions::Test => seq![ContentNode { owner: Functions::Test, widget: Widget::TestText }],
    }
}

/// The nodes left after a page's exit hook removed everything it owns.
pub open spec fn spec_exit_nodes(ns: Seq<ContentNode>, page: Functions) -> Seq<ContentNode> {
    ns.filter(|n: ContentNode| n.owner != page)
}

/// Removes every node a page owns from the content region, keeping the
/// others in order. Each page's exit hook despawns through this.
pub fn despawn_owned(region: &mut ContentRegion, page: Functions)
    ensures
        final(region).nodes@ == spec_exit_nodes(old(region).nodes@, page),
        final(region).top_px == old(region).top_px,
{
    let ghost orig: Seq<ContentNode> = region.nodes@;
    let n = region.nodes.len();
    let mut kept: Vec<ContentNode> = Vec::new();
    let mut i: usize = 0;
    while i < n
        invariant
            n == orig.len(),
            region.nodes@ == orig,
            i <= n,
            kept@ == orig.subrange(0, i as int).filter(|n: ContentNode| n.owner != page),
        decreases n - i,
    {
        let node = region.nodes[i];
        proof {
            let pred = |n: ContentNode| n.owner != page;
            let pre = orig.subrange(0, i as int);
            let post = orig.subrange(0, i as int + 1);
            assert(pre.push(orig[i as int]) =~= post);
            assert(pre.push(orig[i as int]).filter(pred) == if pred(orig[i as int]) {
                pre.filter(pred).push(orig[i as int])
            } else {
                pre.filter(pred)
            });
        }
        if node.owner != page {
            kept.push(node);
        }
        i = i + 1;
    }
    proof {
        assert(orig.subrange(0, n as int) =~= orig);
    }
    region.nodes = kept;
}

/// Runs the exit hook of a page: every page identifier has exactly one,
/// and it removes every node the page created under the content region.
pub fn run_exit_hook(page: Functions, region: &mut ContentRegion)
    ensures
        final(region).nodes@ == spec_exit_nodes(old(region).nodes@, page),
        final(region).top_px == old(region).top_px,
{
    match page {
        Functions::About => crate::about::on_exit(region),
        Functions::Setting => crate::setting::on_exit(region),
        Functions::RealtimePlot => crate::realtime_plot::on_exit(region),
        Functions::Test => crate::test_page::on_exit(region),
    }
}

/// Runs the enter hook of a page: every page identifier has exactly one,
/// and it constructs and attaches the page's nodes.
pub fn run_enter_hook(page: Functions, region: &mut ContentRegion, language_manager: &LanguageManager)
    ensures
        final(region).nodes@ == old(region).nodes@ + spec_enter_nodes(
            page,
            language_manager.spec_current_language(),
        ),
        final(region).top_px == old(region).top_px,
{
    match page {
        Functions::About => crate::about::on_enter(region),
        Functions::Setting => crate::setting::on_enter(region, language_manager),
        Functions::RealtimePlot => {
            crate::realtime_plot::on_enter(region);
            proof {
                assert(region.nodes@ =~= region.nodes@ + Seq::<ContentNode>::empty());
            }
        },
        Functions::Test => crate::test_page::on_enter(region),
    }
}

// ---------------------------------------------------------------------
// Navigation pass
// ---------------------------------------------------------------------

/// The current page after a sequence of navigation targets was processed
/// in order, each checked against the then-current page.
pub open spec fn spec_current_after(current: Functions, targets: Seq<Functions>) -> Functions
    decreases targets.len(),
{
    if targets.len() == 0 {
        current
    } else {
        let before = spec_current_after(current, targets.drop_last());
        if targets.last() == before {
            before
        } else {
            targets.last()
        }
    }
}

/// The content nodes after a sequence of navigation targets: each
/// accepted transition removes the outgoing page's nodes and appends the
/// incoming page's.
pub open spec fn spec_nodes_after(
    current: Functions,
    ns: Seq<ContentNode>,
    lang: Language,
    targets: Seq<Functions>,
) -> Seq<ContentNode>
    decreases targets.len(),
{
    if targets.len() == 0 {
        ns
    } else {
        let before = spec_current_after(current, targets.drop_last());
        let nodes_before = spec_nodes_after(current, ns, lang, targets.drop_last());
        if targets.last() == before {
            nodes_before
        } else {
            spec_exit_nodes(nodes_before, before) + spec_enter_nodes(targets.last(), lang)
        }
    }
}

/// The accepted transitions of a sequence of navigation targets, in
/// order; a target equal to the then-current page contributes none.
pub open spec fn spec_transitions_after(
    current: Functions,
    targets: Seq<Functions>,
) -> Seq<PageTransition>
    decreases targets.len(),
{
    if targets.len() == 0 {
        Seq::empty()
    } else {
        let before = spec_current_after(current, targets.drop_last());
        spec_transitions_after(current, targets.drop_last()) + if targets.last() == before {
            Seq::empty()
        } else {
            seq![PageTransition { from: before, to: targets.last() }]
        }
    }
}

/// The targets a batch of navigation messages carries.
pub open spec fn spec_targets(msgs: Seq<ChangeFunctionMessage>) -> Seq<Functions> {
    msgs.map_values(|m: ChangeFunctionMessage| m.0)
}

/// The navigation pass: processes the cycle's navigation messages in
/// arrival order against the then-current page. A message targeting the
/// current page is a no-op; any other target is an accepted transition,
/// which runs the outgoing page's exit hook once and the incoming page's
/// enter hook once, and is reported in the returned list.
///
/// When the content region is absent from the scene for this cycle
/// (`region_present` is false), transitions still advance the current
/// page, but mounting and unmounting are skipped — a non-fatal skip, with
/// no retry until another transition fires.
pub fn change_function(
    messages: &Vec<ChangeFunctionMessage>,
    current: &mut Functions,
    region: &mut ContentRegion,
    region_present: bool,
    language_manager: &LanguageManager,
) -> (transitions: Vec<PageTransition>)
    ensures
        *final(current) == spec_current_after(*old(current), spec_targets(messages@)),
        region_present ==> final(region).nodes@ == spec_nodes_after(
            *old(current),
            old(region).nodes@,
            language_manager.spec_current_language(),
            spec_targets(messages@),
        ),
        !region_present ==> final(region).nodes@ == old(region).nodes@,
        final(region).top_px == old(region).top_px,
        transitions@ == spec_transitions_after(*old(current), spec_targets(messages@)),
{
    let ghost targets: Seq<Functions> = spec_targets(messages@);
    let ghost lang: Language = language_manager.spec_current_language();
    let mut transitions: Vec<PageTransition> = Vec::new();
    let n = messages.len();
    let mut i: usize = 0;
    while i < n
        invariant
            n == messages@.len(),
            targets == spec_targets(messages@),
            lang == language_manager.spec_current_language(),
            i <= n,
            *current == spec_current_after(*old(current), targets.subrange(0, i as int)),
            region_present ==> region.nodes@ == spec_nodes_after(
                *old(current),
                old(region).nodes@,
                lang,
                targets.subrange(0, i as int),
            ),
            !region_present ==> region.nodes@ == old(region).nodes@,
            region.top_px == old(region).top_px,
            transitions@ == spec_transitions_after(*old(current), targets.subrange(0, i as int)),
        decreases n - i,
    {
        proof {
            assert(targets.subrange(0, i as int + 1).drop_last() =~= targets.subrange(
                0,
                i as int,
            ));
            assert(targets.subrange(0, i as int + 1).last() == targets[i as int]);
        }
        let target = messages[i].0;
        if target != *current {
            let from = *current;
            if region_present {
                run_exit_hook(from, region);
                run_enter_hook(target, region, language_manager);
            }
            *current = target;
            transitions.push(PageTransition { from, to: target });
        }
        proof {
            if targets[i as int] == spec_current_after(
                *old(current),
                targets.subrange(0, i as int),
            ) {
                assert(transitions@ =~= spec_transitions_after(
                    *old(current),
                    targets.subrange(0, i as int + 1),
                ));
            } else {
                assert(transitions@ =~= spec_transitions_after(
                    *old(current),
                    targets.subrange(0, i as int + 1),
                ));
            }
        }
        i = i + 1;
    }
    proof {
        assert(targets.subrange(0, n as int) =~= targets);
    }
    transitions
}

// ---------------------------------------------------------------------
// Navigation laws
// ---------------------------------------------------------------------

/// Idempotence: a navigation message targeting the already-current page
/// accepts no transition, so no exit or enter hook runs and the content
/// region is untouched.
pub proof fn lemma_navigation_idempotent(current: Functions, ns: Seq<ContentNode>, lang: Language)
    ensures
        spec_current_after(current, seq![current]) == current,
        spec_nodes_after(current, ns, lang, seq![current]) == ns,
        spec_transitions_after(current, seq![current]) == Seq::<PageTransition>::empty(),
{
    let ts = seq![current];
    assert(ts.drop_last() =~= Seq::<Functions>::empty());
    assert(spec_current_after(current, Seq::<Functions>::empty()) == current);
    assert(spec_nodes_after(current, ns, lang, Seq::<Functions>::empty()) == ns);
    assert(spec_transitions_after(current, Seq::<Functions>::empty())
        == Seq::<PageTransition>::empty());
    assert(ts.last() == current);
    assert(spec_transitions_after(current, ts) =~= Seq::<PageTransition>::empty());
}

/// Two nodes have the same shape when they agree on everything except the
/// mutable state of a radio control (checked flag, change event, visual
/// attributes).
pub open spec fn spec_same_shape(a: ContentNode, b: ContentNode) -> bool {
    a.owner == b.owner && match (a.widget, b.widget) {
        (Widget::RadioOption(x), Widget::RadioOption(y)) => x.language == y.language,
        (wa, wb) => wa == wb,
    }
}

/// The content region's invariant: its nodes are exactly the nodes the
/// current page's enter hook mounts, up to the mutable state of the radio
/// controls.
pub open spec fn spec_region_inv(current: Functions, ns: Seq<ContentNode>) -> bool {
    let template = spec_enter_nodes(current, Language::Chinese);
    ns.len() == template.len() && forall|i: int|
        0 <= i < ns.len() ==> spec_same_shape(ns[i], template[i])
}

/// Every node a page's enter hook mounts is owned by that page.
proof fn lemma_template_owners(page: Functions)
    ensures
        forall|i: int|
            0 <= i < spec_enter_nodes(page, Language::Chinese).len()
                ==> #[trigger] spec_enter_nodes(page, Language::Chinese)[i].owner == page,
{
    let template = spec_enter_nodes(page, Language::Chinese);
    assert forall|i: int| 0 <= i < template.len() implies #[trigger] template[i].owner
        == page by {
        match page {
            Functions::About => {
                assert(template[0].owner == page);
            },
            Functions::Setting => {
                assert(template[0].owner == page);
                assert(template[1].owner == page);
                assert(template[2].owner == page);
                assert(template[3].owner == page);
                assert(template[4].owner == page);
                assert(template[5].owner == page);
            },
            Functions::RealtimePlot => {},
            Functions::Test => {
                assert(template[0].owner == page);
            },
        }
    }
}

/// Whatever the language, a page's enter hook mounts nodes of the
/// invariant shape.
pub proof fn lemma_enter_nodes_inv(page: Functions, lang: Language)
    ensures
        spec_region_inv(page, spec_enter_nodes(page, lang)),
{
    let ns = spec_enter_nodes(page, lang);
    let template = spec_enter_nodes(page, Language::Chinese);
    assert forall|i: int| 0 <= i < ns.len() implies spec_same_shape(ns[i], template[i]) by {
        match page {
            Functions::About => {
                assert(spec_same_shape(ns[0], template[0]));
            },
            Functions::Setting => {
                assert(spec_same_shape(ns[0], template[0]));
                assert(spec_same_shape(ns[1], template[1]));
                assert(spec_same_shape(ns[2], template[2]));
                assert(spec_same_shape(ns[3], template[3]));
                assert(spec_same_shape(ns[4], template[4]));
                assert(spec_same_shape(ns[5], template[5]));
            },
            Functions::RealtimePlot => {},
            Functions::Test => {
                assert(spec_same_shape(ns[0], template[0]));
            },
        }
    }
}

/// Under the invariant, the current page's exit hook removes every node:
/// nothing is left behind.
pub proof fn lemma_exit_clears_current(current: Functions, ns: Seq<ContentNode>)
    requires
        spec_region_inv(current, ns),
    ensures
        spec_exit_nodes(ns, current) == Seq::<ContentNode>::empty(),
{
    lemma_template_owners(current);
    let pred = |n: ContentNode| n.owner != current;
    assert forall|i: int| 0 <= i < ns.len() implies !(#[trigger] pred(ns[i])) by {
        assert(spec_same_shape(ns[i], spec_enter_nodes(current, Language::Chinese)[i]));
    }
    assert(ns.all(|x: ContentNode| !pred(x)));
    ns.lemma_all_neg_filter_empty(pred);
    assert(spec_exit_nodes(ns, current) =~= Seq::<ContentNode>::empty());
}

/// The navigation pass preserves the region invariant: after any sequence
/// of navigation targets, the region holds exactly the nodes of the page
/// it ends on.
pub proof fn lemma_navigation_preserves_inv(
    current: Functions,
    ns: Seq<ContentNode>,
    lang: Language,
    targets: Seq<Functions>,
)
    requires
        spec_region_inv(current, ns),
    ensures
        spec_region_inv(
            spec_current_after(current, targets),
            spec_nodes_after(current, ns, lang, targets),
        ),
    decreases targets.len(),
{
    if targets.len() > 0 {
        lemma_navigation_preserves_inv(current, ns, lang, targets.drop_last());
        let before = spec_current_after(current, targets.drop_last());
        let nodes_before = spec_nodes_after(current, ns, lang, targets.drop_last());
        if targets.last() != before {
            lemma_exit_clears_current(before, nodes_before);
            lemma_enter_nodes_inv(targets.last(), lang);
            assert(spec_exit_nodes(nodes_before, before) + spec_enter_nodes(targets.last(), lang)
                =~= spec_enter_nodes(targets.last(), lang));
        }
    }
}

/// Completeness (no leaks): every page identifier has exactly one enter
/// and one exit hook, and after any sequence of transitions that returns
/// to the page it started on, the node count under the content region
/// equals its baseline.
pub proof fn lemma_navigation_no_leaks(
    current: Functions,
    ns: Seq<ContentNode>,
    lang: Language,
    targets: Seq<Functions>,
)
    requires
        spec_region_inv(current, ns),
        spec_current_after(current, targets) == current,
    ensures
        spec_nodes_after(current, ns, lang, targets).len() == ns.len(),
{
    lemma_navigation_preserves_inv(current, ns, lang, targets);
}

/// The root view of the host's main window; the host front end renders
/// the shell's state under it.
#[derive(Debug, Clone, Copy, PartialEq, Eq, Structural)]
pub struct MainPage {}

/// Moves the content region below both the title bar and the menu bar.
pub fn adjust_content_area_position(region: &mut ContentRegion)
    ensures
        final(region).top_px == TITLE_BAR_HEIGHT_PX + MENU_BAR_HEIGHT_PX,
        final(region).nodes@ == old(region).nodes@,
{
    region.top_px = TITLE_BAR_HEIGHT_PX + MENU_BAR_HEIGHT_PX;
}

} // verus!
