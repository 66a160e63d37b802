//! What holds across navigations.
//!
//! Each law is stated over the relations in which the functions of this
//! crate state their results: [`rebuilt`] for a rebuild of the outlet stack,
//! [`built`] for a first build, [`claimed_at`] for a mount and [`drained_at`]
//! for a render.

use vstd::prelude::*;
use reactive_graph::owner::Owner;
use crate::diff::agreement;
use crate::diff::built;
use crate::diff::built_at;
use crate::diff::fresh;
use crate::diff::lemma_agreement;
use crate::diff::rebuilt;
use crate::diff::rebuilt_at;
use crate::diff::replaced;
use crate::diff::retained;
use crate::diff::scope_above;
use crate::diff::stack_ids;
use crate::matching::level_ids;
use crate::matching::MatchLevel;
use crate::matching::MatchNode;
use crate::matching::RouteMatchId;
use crate::outlet::claimed_at;
use crate::outlet::drained_at;
use crate::outlet::mount_target;
use crate::outlet::Mounted;
use crate::outlet::OutletContext;
use crate::outlet::OutletError;
use crate::outlet::OutletHandle;
use crate::outlet::OutletState;
use crate::outlet::waiting;
use crate::routes_view::RoutesShown;

verus! {

/// A chain of ids agrees with itself at every depth.
pub proof fn lemma_agreement_reflexive(a: Seq<RouteMatchId>)
    ensures
        agreement(a, a) == a.len(),
    decreases a.len(),
{
    if a.len() > 0 {
        lemma_agreement_reflexive(a.skip(1));
    }
}

/// The agreement of two chains is the one depth below which they agree and at
/// which they end or differ.
pub proof fn lemma_agreement_unique(a: Seq<RouteMatchId>, b: Seq<RouteMatchId>, k: int)
    requires
        0 <= k <= a.len(),
        k <= b.len(),
        forall|i: int| 0 <= i < k ==> a[i] == b[i],
        k == a.len() || k == b.len() || a[k] != b[k],
    ensures
        agreement(a, b) == k,
{
    lemma_agreement(a, b);
}

/// Identity stability: a rebuild against a chain whose routes are, depth by
/// depth, the routes that the stack already shows changes nothing but the
/// parameters. The stack keeps its length, and every outlet keeps its scope,
/// its slot, its consumer and its count of wakes: no scope is let go, no view
/// is sent, and no trigger fires. Each outlet has written the parameters of
/// the new match to its signal.
pub proof fn law_identity_stability(
    before: Seq<OutletContext>,
    levels: Seq<MatchLevel>,
    parent: Owner,
    after: Seq<OutletContext>,
)
    requires
        rebuilt(before, 0, levels, parent, after),
        stack_ids(before) == level_ids(levels),
    ensures
        after.len() == before.len(),
        forall|i: int|
            0 <= i < before.len() ==> (#[trigger] after[i])@ == (OutletState {
                written: levels[i].params,
                ..before[i]@
            }),
{
    assert(before.skip(0) =~= before);
    lemma_agreement_reflexive(level_ids(levels));
    assert forall|i: int| 0 <= i < before.len() implies (#[trigger] after[i])@ == (OutletState {
        written: levels[i].params,
        ..before[i]@
    }) by {
        assert(rebuilt_at(before, 0, levels, parent, after, i));
    }
}

/// Replacement: where the route changes at depth `k`, the outlets above `k`
/// are retained, the outlet at `k` shows the new route under a new scope with
/// the new view waiting and its consumer woken, and every outlet below `k` is
/// a fresh one of the new chain: none of the old outlets below `k` is left on
/// the stack when the new ones are built.
pub proof fn law_replacement(
    before: Seq<OutletContext>,
    levels: Seq<MatchLevel>,
    parent: Owner,
    after: Seq<OutletContext>,
    k: int,
)
    requires
        rebuilt(before, 0, levels, parent, after),
        0 <= k < before.len(),
        k < levels.len(),
        forall|i: int| 0 <= i < k ==> before[i]@.id == levels[i].id,
        before[k]@.id != levels[k].id,
    ensures
        after.len() == levels.len(),
        forall|i: int| 0 <= i < k ==> retained(before[i], levels[i], #[trigger] after[i]),
        replaced(before[k], levels[k], scope_above(after, 0, k, parent), after[k]),
        forall|j: int|
            k < j < levels.len() ==> fresh(
                #[trigger] after[j],
                levels[j],
                scope_above(after, 0, j, parent),
            ),
{
    assert(before.skip(0) =~= before);
    lemma_agreement_unique(stack_ids(before), level_ids(levels), k);
    assert forall|i: int| 0 <= i < k implies retained(before[i], levels[i], #[trigger] after[i]) by {
        assert(rebuilt_at(before, 0, levels, parent, after, i));
    }
    assert forall|j: int| k < j < levels.len() implies fresh(
        #[trigger] after[j],
        levels[j],
        scope_above(after, 0, j, parent),
    ) by {
        assert(rebuilt_at(before, 0, levels, parent, after, j));
    }
    assert(rebuilt_at(before, 0, levels, parent, after, k));
}

/// Truncation on shrink: where the new chain ends above the end of the stack
/// and shows the same routes as far as it goes, the stack is cut to the
/// length of the chain, and every outlet that is left is retained.
pub proof fn law_truncation_on_shrink(
    before: Seq<OutletContext>,
    levels: Seq<MatchLevel>,
    parent: Owner,
    after: Seq<OutletContext>,
)
    requires
        rebuilt(before, 0, levels, parent, after),
        levels.len() < before.len(),
        forall|i: int| 0 <= i < levels.len() ==> before[i]@.id == levels[i].id,
    ensures
        after.len() == levels.len(),
        forall|i: int| 0 <= i < levels.len() ==> retained(before[i], levels[i], #[trigger] after[i]),
{
    assert(before.skip(0) =~= before);
    lemma_agreement_unique(stack_ids(before), level_ids(levels), levels.len() as int);
    assert forall|i: int| 0 <= i < levels.len() implies retained(
        before[i],
        levels[i],
        #[trigger] after[i],
    ) by {
        assert(rebuilt_at(before, 0, levels, parent, after, i));
    }
}

/// A rebuild of an empty stack is a first build.
pub proof fn law_rebuild_from_empty(
    levels: Seq<MatchLevel>,
    parent: Owner,
    after: Seq<OutletContext>,
)
    ensures
        rebuilt(Seq::<OutletContext>::empty(), 0, levels, parent, after) <==> built(
            after,
            levels,
            parent,
        ),
{
    let empty = Seq::<OutletContext>::empty();
    assert(empty.skip(0) =~= empty);
    assert(stack_ids(empty).len() == 0);
    assert(after.take(0) =~= empty.take(0));
    if rebuilt(empty, 0, levels, parent, after) {
        assert forall|i: int| 0 <= i < after.len() implies #[trigger] built_at(
            after,
            levels,
            parent,
            i,
        ) by {
            assert(rebuilt_at(empty, 0, levels, parent, after, i));
        }
    }
    if built(after, levels, parent) {
        assert forall|i: int| 0 <= i < after.len() implies #[trigger] rebuilt_at(
            empty,
            0,
            levels,
            parent,
            after,
            i,
        ) by {
            assert(built_at(after, levels, parent, i));
        }
    }
}

/// Fallback round trip: a rebuild for a path that matches nothing leaves the
/// fallback shown and no outlet on the stack, and a rebuild of that state for
/// a path that matches leaves what a first build of that match leaves.
pub proof fn law_fallback_round_trip<Fal>(
    shown: RoutesShown<Fal>,
    unmatched: RoutesShown<Fal>,
    back: RoutesShown<Fal>,
    fallback: Fal,
    node: MatchNode,
    next_fallback: Fal,
    parent: Owner,
)
    requires
        unmatched.is_rebuild_of(shown, None, fallback, parent),
        back.is_rebuild_of(unmatched, Some(node), next_fallback, parent),
    ensures
        unmatched.outlets.len() == 0,
        unmatched.shows_fallback(fallback),
        back.is_build_of(Some(node), next_fallback, parent),
{
}

/// Single consumption: once a consumer has taken the view that was sent to
/// its outlet, no view waits there, so that nothing is constructed for it
/// again until the next view is sent.
pub proof fn law_single_consumption(
    before: Seq<OutletContext>,
    consumer: Mounted,
    after: Seq<OutletContext>,
)
    requires
        drained_at(before, consumer.depth as int, after),
    ensures
        waiting(after, consumer).is_none(),
{
}

/// Misuse: once a consumer is mounted on the outlet that a handle points
/// to, mounting a second one that finds the same handle fails, and says that
/// the receiver is taken.
pub proof fn law_second_mount_fails(
    before: Seq<OutletContext>,
    depth: int,
    after: Seq<OutletContext>,
    found: OutletHandle,
)
    requires
        mount_target(Some(found), before) == Ok::<int, OutletError>(depth),
        claimed_at(before, depth, after),
    ensures
        mount_target(Some(found), after) == Err::<int, OutletError>(OutletError::ReceiverTaken),
{
}

} // verus!
