//! The diff engine: builds the outlet stack for a match chain, and rebuilds it
//! against the chain of the next path.
//!
//! The stack has one outlet per matched depth. A rebuild walks the stack and
//! the new chain together, depth by depth. Where the route at a depth is the
//! one that the outlet already shows, the outlet is left alone and only its
//! parameters are updated. At the first depth where the route differs, the
//! outlet gets a new scope and the new view, its consumer is woken, and every
//! outlet below it is discarded and built anew. Where the new chain ends, the
//! outlets below that depth are discarded.

use vstd::prelude::*;
use reactive_graph::owner::Owner;
use crate::matching::level_ids;
use crate::matching::MatchLevel;
use crate::matching::MatchNode;
use crate::matching::OutletViewFn;
use crate::matching::RouteMatchId;
use crate::outlet::OutletContext;
use crate::outlet::OutletState;
use crate::outlet::ScopedView;
use crate::reactive::provide_outlet;

verus! {

/// The routes that the outlets of a stack show, by depth.
pub open spec fn stack_ids(outlets: Seq<OutletContext>) -> Seq<RouteMatchId> {
    outlets.map_values(|outlet: OutletContext| outlet@.id)
}

/// The number of leading depths at which two chains of ids agree.
pub open spec fn agreement(a: Seq<RouteMatchId>, b: Seq<RouteMatchId>) -> nat
    decreases a.len(),
{
    if a.len() > 0 && b.len() > 0 && a[0] == b[0] {
        1 + agreement(a.skip(1), b.skip(1))
    } else {
        0
    }
}

/// `outlet` is as a build leaves the outlet of the match `level` under the
/// scope `parent`: it shows the route under a child scope of `parent`, its
/// signal was given the match's parameters, the view waits in its slot to be
/// constructed under its scope, it has no consumer yet, and it has woken
/// nobody.
pub open spec fn fresh(outlet: OutletContext, level: MatchLevel, parent: Owner) -> bool {
    outlet@ == (OutletState {
        id: level.id,
        pending: Some(ScopedView { owner: outlet@.owner, view: level.view }),
        claimed: false,
        parent,
        written: level.params,
        wakes: 0,
        ..outlet@
    })
}

/// `after` is `before` with only its parameters updated to those of `level`:
/// same route, same scope, same slot, same consumer, and nobody woken.
pub open spec fn retained(before: OutletContext, level: MatchLevel, after: OutletContext) -> bool {
    after@ == (OutletState { written: level.params, ..before@ })
}

/// `after` is `before` with the route replaced by that of `level`: it shows
/// the new route under a new child scope of `parent`, its signal was given
/// the new parameters, the new view waits in its slot to be constructed under
/// the new scope, and the consumer has been woken once more. Its trigger, its
/// signal and its consumer are those of `before`.
pub open spec fn replaced(
    before: OutletContext,
    level: MatchLevel,
    parent: Owner,
    after: OutletContext,
) -> bool {
    after@ == (OutletState {
        id: level.id,
        owner: after@.owner,
        pending: Some(ScopedView { owner: after@.owner, view: level.view }),
        parent,
        written: level.params,
        wakes: before@.wakes + 1,
        ..before@
    })
}

/// `after` is `before` cut below `depth`, with the route of the outlet at
/// `depth` replaced: no outlet below `depth` is left.
pub open spec fn replaced_and_cut(
    before: Seq<OutletContext>,
    depth: int,
    level: MatchLevel,
    parent: Owner,
    after: Seq<OutletContext>,
) -> bool {
    &&& 0 <= depth < before.len()
    &&& after.len() == depth + 1
    &&& after.take(depth) == before.take(depth)
    &&& replaced(before[depth], level, parent, after[depth])
}

/// The scope above the outlet at `depth` of the stack `outlets`: the scope
/// of the outlet above it, or `parent` for the outlet at `top`.
pub open spec fn scope_above(
    outlets: Seq<OutletContext>,
    top: int,
    depth: int,
    parent: Owner,
) -> Owner {
    if depth <= top {
        parent
    } else {
        outlets[depth - 1]@.owner
    }
}

/// What a build makes of the outlet at `depth`: a fresh outlet under the
/// scope of the outlet above it.
pub open spec fn built_at(
    outlets: Seq<OutletContext>,
    levels: Seq<MatchLevel>,
    parent: Owner,
    depth: int,
) -> bool {
    fresh(outlets[depth], levels[depth], scope_above(outlets, 0, depth, parent))
}

/// `outlets` is the stack that a build under `parent` makes for the chain
/// `levels`: one fresh outlet per depth, each under the scope of the one
/// above it.
pub open spec fn built(outlets: Seq<OutletContext>, levels: Seq<MatchLevel>, parent: Owner) -> bool {
    &&& outlets.len() == levels.len()
    &&& forall|depth: int|
        0 <= depth < outlets.len() ==> #[trigger] built_at(outlets, levels, parent, depth)
}

/// The depth from which a rebuild with this cursor works: the cursor, or the
/// end of the stack where the cursor lies beyond it.
pub open spec fn start(before: Seq<OutletContext>, cursor: int) -> int {
    if cursor < before.len() {
        cursor
    } else {
        before.len() as int
    }
}

/// The number of depths of the new chain, counted from the cursor, whose
/// outlet already shows the chain's route.
pub open spec fn unchanged(before: Seq<OutletContext>, cursor: int, ids: Seq<RouteMatchId>) -> int {
    agreement(stack_ids(before.skip(start(before, cursor))), ids) as int
}

/// What a rebuild makes of the outlet at `depth`, at or below the cursor:
/// retained above the first depth at which the route changed, replaced at
/// that depth if the stack had an outlet there, and fresh below it.
pub open spec fn rebuilt_at(
    before: Seq<OutletContext>,
    cursor: int,
    levels: Seq<MatchLevel>,
    parent: Owner,
    after: Seq<OutletContext>,
    depth: int,
) -> bool {
    let from = start(before, cursor);
    let changed = from + unchanged(before, cursor, level_ids(levels));
    let level = levels[depth - from];
    if depth < changed {
        retained(before[depth], level, after[depth])
    } else if depth == changed && depth < before.len() {
        replaced(before[depth], level, scope_above(after, from, depth, parent), after[depth])
    } else {
        fresh(after[depth], level, scope_above(after, from, depth, parent))
    }
}

/// `after` is what a rebuild from `cursor` under `parent` makes of the stack
/// `before` for the chain `levels`.
///
/// The stack ends where the chain ends. The outlets above the cursor are
/// untouched. From the cursor down, every outlet above the first depth at
/// which the route changed is retained, with the parameters of the new match.
/// The outlet at that depth, if the stack had one, has its route replaced.
/// Every outlet below it is fresh. Each new scope is a child of the scope of
/// the outlet above it, or of `parent` at the cursor.
pub open spec fn rebuilt(
    before: Seq<OutletContext>,
    cursor: int,
    levels: Seq<MatchLevel>,
    parent: Owner,
    after: Seq<OutletContext>,
) -> bool {
    let from = start(before, cursor);
    &&& after.len() == from + levels.len()
    &&& after.take(from) == before.take(from)
    &&& forall|depth: int|
        from <= depth < after.len() ==> #[trigger] rebuilt_at(
            before,
            cursor,
            levels,
            parent,
            after,
            depth,
        )
}

/// Where a rebuild leaves its cursor: at the last depth that it compared.
pub open spec fn cursor_after(before: Seq<OutletContext>, cursor: int, ids: Seq<RouteMatchId>) -> int {
    if cursor < before.len() {
        let same = unchanged(before, cursor, ids);
        if same < ids.len() {
            cursor + same
        } else {
            cursor + ids.len() - 1
        }
    } else {
        cursor
    }
}

/// Two chains agree at every depth below their agreement, which is no longer
/// than either, and differ at that depth if both reach it.
pub proof fn lemma_agreement(a: Seq<RouteMatchId>, b: Seq<RouteMatchId>)
    ensures
        agreement(a, b) <= a.len(),
        agreement(a, b) <= b.len(),
        forall|i: int| 0 <= i < agreement(a, b) ==> a[i] == b[i],
        agreement(a, b) < a.len() && agreement(a, b) < b.len() ==> a[agreement(a, b) as int]
            != b[agreement(a, b) as int],
    decreases a.len(),
{
    if a.len() > 0 && b.len() > 0 && a[0] == b[0] {
        lemma_agreement(a.skip(1), b.skip(1));
        let k = agreement(a.skip(1), b.skip(1)) as int;
        assert forall|i: int| 0 <= i < agreement(a, b) implies a[i] == b[i] by {
            if i > 0 {
                assert(a.skip(1)[i - 1] == a[i]);
                assert(b.skip(1)[i - 1] == b[i]);
            }
        }
        if k + 1 < a.len() && k + 1 < b.len() {
            assert(a.skip(1)[k] == a[k + 1]);
            assert(b.skip(1)[k] == b[k + 1]);
        }
    }
}

/// A stack that was built for the chain below a fresh outlet, under that
/// outlet's scope, is with that outlet in front a stack built for the whole
/// chain.
proof fn lemma_built_below(
    tail: Seq<OutletContext>,
    levels: Seq<MatchLevel>,
    parent: Owner,
    below: Seq<MatchLevel>,
)
    requires
        tail.len() > 0,
        levels.len() > 0,
        fresh(tail[0], levels[0], parent),
        levels.skip(1) == below,
        built(tail.skip(1), below, tail[0]@.owner),
    ensures
        built(tail, levels, parent),
{
    let rest = tail.skip(1);
    assert forall|i: int| 0 <= i < tail.len() implies #[trigger] built_at(
        tail,
        levels,
        parent,
        i,
    ) by {
        if i > 0 {
            assert(tail[i] == rest[i - 1]);
            assert(levels[i] == below[i - 1]);
            assert(built_at(rest, below, tail[0]@.owner, i - 1));
            if i > 1 {
                assert(rest[i - 2] == tail[i - 1]);
            }
        }
    }
}

/// Builds the outlets for `node` and the chain below it, and appends them to
/// the stack.
///
/// At each depth a new outlet is made under a child scope of the scope
/// above, with the match's parameters in a new signal and a new trigger, and
/// is pushed with the match's view waiting in its slot. The outlet's handle
/// is provided into the context of the scope above, where the consumer that
/// the view above renders will look for it.
pub fn build_nested_route(node: MatchNode, outlets: &mut Vec<OutletContext>, parent: &Owner)
    ensures
        final(outlets)@.len() == old(outlets)@.len() + node.depth(),
        final(outlets)@.take(old(outlets)@.len() as int) == old(outlets)@,
        built(final(outlets)@.skip(old(outlets)@.len() as int), node.levels(), *parent),
    decreases node,
{
    let ghost before = outlets@;
    let ghost levels = node.levels();
    let ghost n = before.len() as int;
    proof {
        node.lemma_levels();
    }
    let MatchNode { id, params, view, child } = node;
    let mut outlet = OutletContext::new(id, params, parent);
    let handle = outlet.handle(outlets.len());
    let owner = outlet.owner();
    outlet.send(view);
    let ghost first = outlet;
    outlets.push(outlet);
    provide_outlet(parent, handle);
    let ghost pushed = outlets@;
    proof {
        assert(pushed.take(n) =~= before);
        assert(pushed[n] == first);
        assert(fresh(first, levels[0], *parent));
    }
    match child {
        Some(child) => {
            let below = *child;
            build_nested_route(below, outlets, &owner);
            proof {
                let after = outlets@;
                assert(after.take(n + 1) == pushed);
                assert(after.take(n) =~= after.take(n + 1).take(n));
                assert(after[n] == after.take(n + 1)[n]);
                assert(after.skip(n)[0] == after[n]);
                assert(after.skip(n).skip(1) =~= after.skip(n + 1));
                lemma_built_below(after.skip(n), levels, *parent, below.levels());
            }
        },
        None => {
            proof {
                assert(pushed.skip(n).len() == 1);
                assert(pushed.skip(n)[0] == pushed[n]);
                assert(built_at(pushed.skip(n), levels, *parent, 0));
            }
        },
    }
}

/// The routes of a stack from one depth on are the route at that depth and
/// the routes from the next depth on.
proof fn lemma_stack_ids_step(before: Seq<OutletContext>, cursor: int)
    requires
        0 <= cursor < before.len(),
    ensures
        stack_ids(before.skip(cursor)).len() == before.len() - cursor,
        stack_ids(before.skip(cursor))[0] == before[cursor]@.id,
        stack_ids(before.skip(cursor)).skip(1) == stack_ids(before.skip(cursor + 1)),
{
    assert(stack_ids(before.skip(cursor)).skip(1) =~= stack_ids(before.skip(cursor + 1)));
}

/// A build at the end of the stack is a rebuild from any cursor at or beyond
/// the end.
proof fn lemma_rebuilt_by_build(
    before: Seq<OutletContext>,
    cursor: int,
    levels: Seq<MatchLevel>,
    parent: Owner,
    after: Seq<OutletContext>,
)
    requires
        cursor >= before.len(),
        after.len() == before.len() + levels.len(),
        after.take(before.len() as int) == before,
        built(after.skip(before.len() as int), levels, parent),
    ensures
        rebuilt(before, cursor, levels, parent, after),
{
    let n = before.len() as int;
    let tail = after.skip(n);
    assert(before.skip(n) =~= Seq::<OutletContext>::empty());
    assert(stack_ids(before.skip(n)).len() == 0);
    assert(before.take(n) =~= before);
    assert forall|depth: int| n <= depth < after.len() implies #[trigger] rebuilt_at(
        before,
        cursor,
        levels,
        parent,
        after,
        depth,
    ) by {
        assert(tail[depth - n] == after[depth]);
        assert(built_at(tail, levels, parent, depth - n));
        if depth > n {
            assert(tail[depth - n - 1] == after[depth - 1]);
        }
    }
}

/// Replacement in two steps: where the route at the cursor changes, a
/// rebuild is the stack cut below the cursor with the outlet there replaced,
/// followed by a build of the chain below under the new scope. The outlets
/// below the cursor are gone before the first of the new ones is made.
pub proof fn lemma_rebuilt_by_replacing(
    before: Seq<OutletContext>,
    cursor: int,
    levels: Seq<MatchLevel>,
    parent: Owner,
    cut: Seq<OutletContext>,
    after: Seq<OutletContext>,
)
    requires
        levels.len() > 0,
        replaced_and_cut(before, cursor, levels[0], parent, cut),
        before[cursor]@.id != levels[0].id,
        after.len() == cut.len() + levels.len() - 1,
        after.take(cut.len() as int) == cut,
        built(after.skip(cut.len() as int), levels.skip(1), cut[cursor]@.owner),
    ensures
        rebuilt(before, cursor, levels, parent, after),
        unchanged(before, cursor, level_ids(levels)) == 0,
{
    lemma_stack_ids_step(before, cursor);
    assert(after.take(cursor) =~= after.take(cursor + 1).take(cursor));
    assert(after[cursor] == after.take(cursor + 1)[cursor]);
    let tail = after.skip(cursor + 1);
    assert forall|depth: int| cursor <= depth < after.len() implies #[trigger] rebuilt_at(
        before,
        cursor,
        levels,
        parent,
        after,
        depth,
    ) by {
        if depth > cursor {
            let i = depth - cursor - 1;
            assert(tail[i] == after[depth]);
            assert(levels.skip(1)[i] == levels[depth - cursor]);
            assert(built_at(tail, levels.skip(1), after[cursor]@.owner, i));
            if i > 0 {
                assert(tail[i - 1] == after[depth - 1]);
            }
        }
    }
}

/// Retaining the outlet at the cursor and rebuilding from the next depth
/// under its scope is a rebuild from the cursor.
proof fn lemma_rebuilt_by_descending(
    before: Seq<OutletContext>,
    cursor: int,
    levels: Seq<MatchLevel>,
    parent: Owner,
    updated: Seq<OutletContext>,
    after: Seq<OutletContext>,
)
    requires
        0 <= cursor < before.len(),
        levels.len() > 1,
        before[cursor]@.id == levels[0].id,
        updated.len() == before.len(),
        retained(before[cursor], levels[0], updated[cursor]),
        forall|i: int| 0 <= i < before.len() && i != cursor ==> updated[i] == before[i],
        rebuilt(updated, cursor + 1, levels.skip(1), updated[cursor]@.owner, after),
    ensures
        rebuilt(before, cursor, levels, parent, after),
        unchanged(before, cursor, level_ids(levels)) == 1 + unchanged(
            updated,
            cursor + 1,
            level_ids(levels.skip(1)),
        ),
        start(updated, cursor + 1) == cursor + 1,
{
    let below = levels.skip(1);
    lemma_stack_ids_step(before, cursor);
    assert(level_ids(levels).skip(1) =~= level_ids(below));
    assert(updated.skip(cursor + 1) =~= before.skip(cursor + 1));
    assert(updated.take(cursor) =~= before.take(cursor));
    assert(after.take(cursor + 1) == updated.take(cursor + 1));
    assert(after.take(cursor) =~= after.take(cursor + 1).take(cursor));
    assert(updated.take(cursor + 1).take(cursor) =~= updated.take(cursor));
    assert(after[cursor] == after.take(cursor + 1)[cursor]);
    let same = unchanged(updated, cursor + 1, level_ids(below));
    lemma_agreement(stack_ids(updated.skip(cursor + 1)), level_ids(below));
    assert(unchanged(before, cursor, level_ids(levels)) == 1 + same);
    assert forall|depth: int| cursor <= depth < after.len() implies #[trigger] rebuilt_at(
        before,
        cursor,
        levels,
        parent,
        after,
        depth,
    ) by {
        if depth > cursor {
            assert(rebuilt_at(updated, cursor + 1, below, updated[cursor]@.owner, after, depth));
            assert(below[depth - (cursor + 1)] == levels[depth - cursor]);
            if depth < before.len() {
                assert(updated[depth] == before[depth]);
            }
        }
    }
}

/// Retaining the outlet at the cursor and cutting the stack below it is a
/// rebuild for a chain that ends at the cursor.
proof fn lemma_rebuilt_by_cutting(
    before: Seq<OutletContext>,
    cursor: int,
    levels: Seq<MatchLevel>,
    parent: Owner,
    after: Seq<OutletContext>,
)
    requires
        0 <= cursor < before.len(),
        levels.len() == 1,
        before[cursor]@.id == levels[0].id,
        after.len() == cursor + 1,
        after.take(cursor) == before.take(cursor),
        retained(before[cursor], levels[0], after[cursor]),
    ensures
        rebuilt(before, cursor, levels, parent, after),
        unchanged(before, cursor, level_ids(levels)) == 1,
{
    lemma_stack_ids_step(before, cursor);
    let ids = level_ids(levels);
    assert(ids.skip(1).len() == 0);
    assert(agreement(stack_ids(before.skip(cursor)).skip(1), ids.skip(1)) == 0);
    assert(unchanged(before, cursor, ids) == 1);
    assert forall|depth: int| cursor <= depth < after.len() implies #[trigger] rebuilt_at(
        before,
        cursor,
        levels,
        parent,
        after,
        depth,
    ) by {}
}

/// Replaces the route of the outlet at `depth` and discards every outlet
/// below it.
///
/// The outlet moves to a new child scope of `parent`, the view is sent to it
/// and its consumer is woken. The scope that the outlet had is let go when
/// this is done, with the outlets below. What comes back is a handle to the
/// new scope, under which the chain below is to be built.
fn replace_route(
    outlets: &mut Vec<OutletContext>,
    depth: usize,
    id: RouteMatchId,
    view: OutletViewFn,
    parent: &Owner,
) -> (owner: Owner)
    requires
        depth < old(outlets)@.len(),
    ensures
        replaced_and_cut(
            old(outlets)@,
            depth as int,
            MatchLevel { id, params: old(outlets)@[depth as int]@.written, view },
            *parent,
            final(outlets)@,
        ),
        owner == final(outlets)@[depth as int]@.owner,
{
    let ghost before = outlets@;
    assert(outlets.len() <= usize::MAX);
    let keep = depth + 1;
    let current = &mut outlets[depth];
    let _previous = current.set_route(id, parent);
    current.send(view);
    current.wake();
    let owner = current.owner();
    outlets.truncate(keep);
    proof {
        assert(outlets@.take(depth as int) =~= before.take(depth as int));
    }
    owner
}

/// Rebuilds the stack against `node` and the chain below it, which was
/// matched at the depth `*items`.
///
/// Where the stack has no outlet at that depth, the chain is built from
/// there. Else the outlet's parameters are updated, and the route decides:
/// - the same route: the outlet stays as it is, and the rebuild goes on one
///   depth down with the chain below, under this outlet's scope; where the
///   chain ends here, the outlets below are discarded;
/// - another route: the outlet moves to a new child scope of `parent`, the
///   new view is sent to it and its consumer is woken; the outlets below are
///   discarded, and those of the chain below are built under the new scope.
pub fn rebuild_nested_route(
    node: MatchNode,
    items: &mut usize,
    outlets: &mut Vec<OutletContext>,
    parent: &Owner,
)
    ensures
        rebuilt(old(outlets)@, *old(items) as int, node.levels(), *parent, final(outlets)@),
        *final(items) == cursor_after(old(outlets)@, *old(items) as int, node.ids()),
    decreases node,
{
    let ghost before = outlets@;
    let ghost levels = node.levels();
    proof {
        node.lemma_levels();
    }
    let cursor = *items;
    if cursor >= outlets.len() {
        build_nested_route(node, outlets, parent);
        proof {
            lemma_rebuilt_by_build(before, cursor as int, levels, *parent, outlets@);
        }
        return ;
    }
    let ghost c = cursor as int;
    let MatchNode { id, params, view, child } = node;
    let current = &mut outlets[cursor];
    current.update_params(params);
    if id != current.id() {
        let owner = replace_route(outlets, cursor, id, view, parent);
        let ghost cut = outlets@;
        proof {
            assert(cut.take(c) =~= before.take(c));
            assert(replaced(before[c], levels[0], *parent, cut[c]));
        }
        match child {
            Some(child) => {
                build_nested_route(*child, outlets, &owner);
            },
            None => {
                proof {
                    assert(cut.take(c + 1) =~= cut);
                    assert(cut.skip(c + 1) =~= Seq::<OutletContext>::empty());
                    assert(levels.skip(1) =~= Seq::<MatchLevel>::empty());
                }
            },
        }
        proof {
            lemma_rebuilt_by_replacing(before, c, levels, *parent, cut, outlets@);
        }
        return ;
    }
    let ghost updated = outlets@;
    proof {
        assert(retained(before[c], levels[0], updated[c]));
    }
    match child {
        Some(child) => {
            let below = *child;
            let owner = outlets[cursor].owner();
            *items = cursor + 1;
            rebuild_nested_route(below, items, outlets, &owner);
            proof {
                lemma_rebuilt_by_descending(before, c, levels, *parent, updated, outlets@);
            }
        },
        None => {
            outlets.truncate(cursor + 1);
            proof {
                let after = outlets@;
                assert(after.take(c) =~= before.take(c));
                lemma_rebuilt_by_cutting(before, c, levels, *parent, after);
            }
        },
    }
}

} // verus!
