//! The properties the shell guarantees across its operations, each proved
//! against the contracts in the other modules.

use vstd::prelude::*;

use crate::geometry::Point;
use crate::mapped::{fold_min_sizes, tab_has_surface, CosmicMapped, WindowSurfaceType};
use crate::toplevel::{StateFlag, Toplevel};

verus! {

proof fn lemma_fold_min_dominates(tabs: Seq<Toplevel>, i: int)
    requires
        tabs.len() > 0,
        0 <= i < tabs.len(),
    ensures
        fold_min_sizes(tabs).w >= tabs[i].min_size.w,
        fold_min_sizes(tabs).h >= tabs[i].min_size.h,
    decreases tabs.len(),
{
    if tabs.len() > 1 && i < tabs.len() - 1 {
        lemma_fold_min_dominates(tabs.drop_last(), i);
        assert(tabs.drop_last()[i] == tabs[i]);
    }
}

/// For any non-empty stack, the aggregate minimum size dominates every
/// tab's declared minimum, per axis: the aggregate satisfies every tab at
/// once. For a single window it equals the sole declared minimum exactly.
pub proof fn lemma_min_size_dominates(m: CosmicMapped, i: int)
    requires
        m.wf(),
        0 <= i < m.tabs().len(),
    ensures
        m.min_size_spec().w >= m.tabs()[i].min_size.w,
        m.min_size_spec().h >= m.tabs()[i].min_size.h,
        !m.is_stack() ==> m.min_size_spec() == m.tabs()[0].min_size,
{
    if m.is_stack() {
        lemma_fold_min_dominates(m.tabs(), i);
    }
}

proof fn lemma_fold_min_achieved(tabs: Seq<Toplevel>)
    requires
        tabs.len() > 0,
    ensures
        exists|i: int| 0 <= i < tabs.len() && fold_min_sizes(tabs).w == tabs[i].min_size.w,
        exists|i: int| 0 <= i < tabs.len() && fold_min_sizes(tabs).h == tabs[i].min_size.h,
    decreases tabs.len(),
{
    if tabs.len() > 1 {
        lemma_fold_min_achieved(tabs.drop_last());
        let f = fold_min_sizes(tabs.drop_last());
        if fold_min_sizes(tabs).w != tabs.last().min_size.w {
            let i = choose|i: int|
                0 <= i < tabs.drop_last().len() && f.w == tabs.drop_last()[i].min_size.w;
            assert(fold_min_sizes(tabs).w == tabs[i].min_size.w);
        }
        if fold_min_sizes(tabs).h != tabs.last().min_size.h {
            let i = choose|i: int|
                0 <= i < tabs.drop_last().len() && f.h == tabs.drop_last()[i].min_size.h;
            assert(fold_min_sizes(tabs).h == tabs[i].min_size.h);
        }
    }
}

/// Per axis, the aggregate minimum of a stack is attained by one of its
/// tabs: together with the dominance above it is exactly the
/// component-wise maximum of the declared minima.
pub proof fn lemma_min_size_achieved(m: CosmicMapped)
    requires
        m.wf(),
        m.is_stack(),
    ensures
        exists|i: int| 0 <= i < m.tabs().len() && m.min_size_spec().w == m.tabs()[i].min_size.w,
        exists|i: int| 0 <= i < m.tabs().len() && m.min_size_spec().h == m.tabs()[i].min_size.h,
{
    lemma_fold_min_achieved(m.tabs());
}

/// For any stack, whatever mix of declared per-tab maxima it holds —
/// including zero ("unconstrained") axes — the aggregate maximum is
/// component-wise at least the aggregate minimum, thanks to the upward
/// clamp after the fold. (A single window's declared maximum passes
/// through verbatim instead, so no such clamp applies there.)
pub proof fn lemma_max_size_dominates_min(m: CosmicMapped)
    requires
        m.wf(),
        m.is_stack(),
    ensures
        m.max_size_spec().w >= m.min_size_spec().w,
        m.max_size_spec().h >= m.min_size_spec().h,
{
}

/// Setting one of the shared state flags is immediately visible: right
/// after the flag was requested as set on every constituent's pending
/// configuration, the active window reports it as set, even before any
/// client acknowledgement.
pub proof fn lemma_pending_state_visible(pre: CosmicMapped, post: CosmicMapped, flag: StateFlag)
    requires
        pre.wf(),
        CosmicMapped::pending_flag_set(pre, post, flag, true),
    ensures
        post.state_visible(flag),
{
    assert(0 <= pre.active_index() < pre.tabs().len());
    assert(post.active().pending.has_flag(flag));
}

/// A pointer enter (or motion) for a seat makes that seat's location
/// visible to the cursor query, and a following leave for the same seat
/// removes it: a seat has an entry exactly while its pointer is inside.
pub proof fn lemma_cursor_round_trip(
    m0: CosmicMapped,
    m1: CosmicMapped,
    m2: CosmicMapped,
    seat: u64,
    location: Point,
)
    requires
        m1.cursors() == m0.cursors().insert(seat, location),
        m2.cursors() == m1.cursors().remove(seat),
    ensures
        m1.cursors().contains_key(seat),
        m1.cursors()[seat] == location,
        !m2.cursors().contains_key(seat),
{
}

/// With the query kind covering top-level surfaces only, the surface of
/// every tab is contained in the element, and a surface that no tab owns is
/// not.
pub proof fn lemma_has_surface_toplevel(
    m: CosmicMapped,
    i: int,
    other: u64,
    ty: WindowSurfaceType,
)
    requires
        m.wf(),
        0 <= i < m.tabs().len(),
        ty == (WindowSurfaceType { toplevel: true, subsurface: false, popup: false }),
        forall|j: int| 0 <= j < m.tabs().len() ==> m.tabs()[j].surface != other,
    ensures
        exists|j: int|
            0 <= j < m.tabs().len() && tab_has_surface(m.tabs()[j], m.tabs()[i].surface, ty),
        !(exists|j: int| 0 <= j < m.tabs().len() && tab_has_surface(m.tabs()[j], other, ty)),
{
    assert(tab_has_surface(m.tabs()[i], m.tabs()[i].surface, ty));
}

} // verus!
