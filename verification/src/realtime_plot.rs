//! The RealtimePlot page's lifecycle hooks.
//!
//! The page mounts no visual nodes of its own yet; its hooks exist so
//! that every page identifier has exactly one enter and one exit hook.

use vstd::prelude::*;

use crate::homepage::{ContentNode, ContentRegion, Functions, spec_enter_nodes};
use crate::i18n::Language;

verus! {

/// The enter hook of the RealtimePlot page: mounts nothing.
pub fn on_enter(region: &mut ContentRegion)
    ensures
        final(region).nodes@ == old(region).nodes@ + spec_enter_nodes(
            Functions::RealtimePlot,
            Language::Chinese,
        ),
        final(region).top_px == old(region).top_px,
{
    proof {
        assert(region.nodes@ =~= region.nodes@ + spec_enter_nodes(
            Functions::RealtimePlot,
            Language::Chinese,
        ));
    }
}

/// The exit hook of the RealtimePlot page: removes every node the page
/// owns; as the enter hook mounts none, no reachable region holds any.
pub fn on_exit(region: &mut ContentRegion)
    ensures
        final(region).nodes@ == old(region).nodes@.filter(
            |n: ContentNode| n.owner != Functions::RealtimePlot,
        ),
        final(region).top_px == old(region).top_px,
{
    crate::homepage::despawn_owned(region, Functions::RealtimePlot);
}

} // verus!
