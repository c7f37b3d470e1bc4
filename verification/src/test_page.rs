//! The Test page's lifecycle hooks.

use vstd::prelude::*;

use crate::homepage::{ContentNode, ContentRegion, Functions, Widget, spec_enter_nodes};
use crate::i18n::Language;

verus! {

/// The enter hook of the Test page: mounts its text block under the
/// content region.
pub fn on_enter(region: &mut ContentRegion)
    ensures
        final(region).nodes@ == old(region).nodes@ + spec_enter_nodes(
            Functions::Test,
            Language::Chinese,
        ),
        final(region).top_px == old(region).top_px,
{
    region.nodes.push(ContentNode { owner: Functions::Test, widget: Widget::TestText });
    proof {
        assert(region.nodes@ =~= old(region).nodes@ + spec_enter_nodes(
            Functions::Test,
            Language::Chinese,
        ));
    }
}

/// The exit hook of the Test page: removes every node the page owns.
pub fn on_exit(region: &mut ContentRegion)
    ensures
        final(region).nodes@ == old(region).nodes@.filter(
            |n: ContentNode| n.owner != Functions::Test,
        ),
        final(region).top_px == old(region).top_px,
{
    crate::homepage::despawn_owned(region, Functions::Test);
}

} // verus!
