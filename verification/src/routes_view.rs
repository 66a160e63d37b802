//! The top-level view of a tree of nested routes.
//!
//! It shows one of two things: the outlet of the first depth, where the path
//! matches a route, or the fallback, where it matches none. Its state owns
//! the outlet stack and the scope under which the first depth is built.

use vstd::prelude::*;
use either_of::Either;
use reactive_graph::owner::Owner;
use crate::diff::build_nested_route;
use crate::diff::built;
use crate::diff::built_at;
use crate::diff::rebuild_nested_route;
use crate::diff::rebuilt;
use crate::diff::rebuilt_at;
use crate::matching::MatchLevel;
use crate::matching::MatchNode;
use crate::outlet::claimed_at;
use crate::outlet::drained_at;
use crate::outlet::mount_outlet;
use crate::outlet::mount_target;
use crate::outlet::Mounted;
use crate::outlet::Outlet;
use crate::outlet::OutletContext;
use crate::outlet::OutletError;
use crate::outlet::OutletHandle;
use crate::outlet::ScopedView;
use crate::outlet::stands_at;
use crate::outlet::waiting;

verus! {

/// The nested routes as a view: what the path matched, the scope under which
/// to build it, and what to show where it matched nothing.
pub struct NestedRoutesView<Fal> {
    /// The match chain of the current path, `None` where no route matches.
    pub matched: Option<MatchNode>,
    /// The scope above the first depth.
    pub outer_owner: Owner,
    /// The view to show where no route matches.
    pub fallback: Fal,
}

/// What a [`NestedRouteViewState`] holds.
#[verifier::reject_recursive_types(Fal)]
pub struct RoutesShown<Fal> {
    /// The scope above the first depth.
    pub outer_owner: Owner,
    /// The outlet stack.
    pub outlets: Seq<OutletContext>,
    /// What is shown at the top: the fallback, or the consumer of the first
    /// depth's outlet.
    pub view: Either<Fal, Outlet>,
}

/// The state that a [`NestedRoutesView`] is built into and rebuilt against.
#[verifier::reject_recursive_types(Fal)]
pub struct NestedRouteViewState<Fal> {
    outer_owner: Owner,
    outlets: Vec<OutletContext>,
    view: Either<Fal, Outlet>,
}

impl<Fal> View for NestedRouteViewState<Fal> {
    type V = RoutesShown<Fal>;

    closed spec fn view(&self) -> RoutesShown<Fal> {
        RoutesShown { outer_owner: self.outer_owner, outlets: self.outlets@, view: self.view }
    }
}

/// `root` is the consumer of the first outlet of `outlets`.
pub open spec fn is_root(root: Outlet, outlets: Seq<OutletContext>) -> bool {
    &&& root@.depth == 0
    &&& stands_at(outlets, 0, root@.params)
    &&& outlets[0]@.claimed
}

/// `outlets` is the stack of a first build under `parent` for the chain
/// `levels`, with the consumer `root` mounted on its first outlet.
pub open spec fn built_and_mounted(
    outlets: Seq<OutletContext>,
    root: Outlet,
    levels: Seq<MatchLevel>,
    parent: Owner,
) -> bool {
    &&& is_root(root, outlets)
    &&& root@.trigger == outlets[0]@.trigger
    &&& exists|unmounted: Seq<OutletContext>|
        built(unmounted, levels, parent) && #[trigger] claimed_at(unmounted, 0, outlets)
}

impl<Fal> RoutesShown<Fal> {
    /// The fallback is shown exactly when the stack is empty, and where
    /// outlets are shown, the consumer at the top is that of the first.
    pub open spec fn wf(self) -> bool {
        match self.view {
            Either::Left(_) => self.outlets.len() == 0,
            Either::Right(root) => is_root(root, self.outlets),
        }
    }

    /// The fallback is shown, and there are no outlets.
    pub open spec fn shows_fallback(self, fallback: Fal) -> bool {
        &&& self.outlets.len() == 0
        &&& self.view == Either::<Fal, Outlet>::Left(fallback)
    }

    /// The chain of `node` is shown as a first build under `parent` shows
    /// it: every outlet is fresh, but that the consumer at the top is mounted
    /// on the first.
    pub open spec fn shows_first_build(self, node: MatchNode, parent: Owner) -> bool {
        self.view matches Either::Right(root) && built_and_mounted(
            self.outlets,
            root,
            node.levels(),
            parent,
        )
    }

    /// `self` is what a first build under `parent` makes of this match and
    /// this fallback.
    pub open spec fn is_build_of(
        self,
        matched: Option<MatchNode>,
        fallback: Fal,
        parent: Owner,
    ) -> bool {
        match matched {
            None => self.shows_fallback(fallback),
            Some(node) => self.shows_first_build(node, parent),
        }
    }

    /// `self` is what a rebuild under `parent` makes of `before` for this
    /// match and this fallback.
    pub open spec fn is_rebuild_of(
        self,
        before: RoutesShown<Fal>,
        matched: Option<MatchNode>,
        fallback: Fal,
        parent: Owner,
    ) -> bool {
        &&& self.outer_owner == before.outer_owner
        &&& match matched {
            None => self.shows_fallback(fallback),
            Some(node) => match before.view {
                Either::Left(_) => self.shows_first_build(node, parent),
                Either::Right(_) => self.view == before.view && rebuilt(
                    before.outlets,
                    0,
                    node.levels(),
                    parent,
                    self.outlets,
                ),
            },
        }
    }
}

/// Builds `node` into an empty stack under `parent` and mounts the consumer
/// of the first outlet.
fn build_and_mount(node: MatchNode, outlets: &mut Vec<OutletContext>, parent: &Owner) -> (root:
    Outlet)
    requires
        old(outlets)@.len() == 0,
    ensures
        built_and_mounted(final(outlets)@, root, node.levels(), *parent),
{
    proof {
        node.lemma_levels();
    }
    build_nested_route(node, outlets, parent);
    let ghost unmounted = outlets@;
    assert(unmounted.skip(0) =~= unmounted);
    assert(built_at(unmounted, node.levels(), *parent, 0));
    let handle = outlets[0].handle(0);
    let mounted = mount_outlet(Some(handle), outlets);
    assert(claimed_at(unmounted, 0, outlets@));
    mounted.unwrap()
}

impl<Fal> NestedRoutesView<Fal> {
    /// Builds the view for the first time.
    ///
    /// Where no route matches, the fallback is shown and no outlet is made.
    /// Else the outlets of the whole chain are built under the outer scope,
    /// and the consumer of the first is what is shown.
    pub fn build(self) -> (state: NestedRouteViewState<Fal>)
        ensures
            state@.wf(),
            state@.outer_owner == self.outer_owner,
            state@.is_build_of(self.matched, self.fallback, self.outer_owner),
    {
        let NestedRoutesView { matched, outer_owner, fallback } = self;
        let mut outlets: Vec<OutletContext> = Vec::new();
        let view = match matched {
            None => Either::Left(fallback),
            Some(route) => {
                let root = build_and_mount(route, &mut outlets, &outer_owner);
                Either::Right(root)
            },
        };
        NestedRouteViewState { outer_owner, outlets, view }
    }

    /// Rebuilds `state` for the path that this view was matched against.
    ///
    /// Where no route matches, the fallback takes the place of whatever was
    /// shown, and the whole stack is discarded. Where a route matches and the
    /// fallback was shown, the chain is built as for the first time. Else the
    /// stack is rebuilt against the chain from the first depth.
    pub fn rebuild(self, state: &mut NestedRouteViewState<Fal>)
        requires
            old(state)@.wf(),
        ensures
            final(state)@.wf(),
            final(state)@.is_rebuild_of(
                old(state)@,
                self.matched,
                self.fallback,
                self.outer_owner,
            ),
    {
        let NestedRoutesView { matched, outer_owner, fallback } = self;
        match matched {
            None => {
                state.view = Either::Left(fallback);
                state.outlets.clear();
            },
            Some(route) => {
                let shows_fallback = match &state.view {
                    Either::Left(_) => true,
                    Either::Right(_) => false,
                };
                if shows_fallback {
                    let root = build_and_mount(route, &mut state.outlets, &outer_owner);
                    state.view = Either::Right(root);
                } else {
                    let ghost before = state.outlets@;
                    let ghost levels = route.levels();
                    proof {
                        route.lemma_levels();
                    }
                    let mut cursor: usize = 0;
                    rebuild_nested_route(route, &mut cursor, &mut state.outlets, &outer_owner);
                    proof {
                        let after = state.outlets@;
                        assert(rebuilt_at(before, 0, levels, outer_owner, after, 0));
                    }
                }
            },
        }
    }
}

impl<Fal> NestedRouteViewState<Fal> {
    /// Whether the state is well formed. Every state that [`NestedRoutesView::build`]
    /// makes is, and the methods of the state keep it so.
    pub fn is_well_formed(&self) -> (ok: bool)
        ensures
            ok == self@.wf(),
    {
        match &self.view {
            Either::Left(_) => self.outlets.len() == 0,
            Either::Right(root) => root.depth() == 0 && root.stands_in(&self.outlets)
                && self.outlets[0].is_claimed(),
        }
    }

    /// The scope above the first depth.
    pub fn outer_owner(&self) -> (owner: Owner)
        ensures
            owner == self@.outer_owner,
    {
        self.outer_owner.clone()
    }

    /// The outlet stack.
    pub fn outlets(&self) -> (outlets: &Vec<OutletContext>)
        ensures
            outlets@ == self@.outlets,
    {
        &self.outlets
    }

    /// What is shown at the top.
    pub fn shown(&self) -> (view: &Either<Fal, Outlet>)
        ensures
            *view == self@.view,
    {
        &self.view
    }

    /// Mounts a consumer on the outlet that `found` points to, as
    /// [`mount_outlet`] does.
    pub fn mount(&mut self, found: Option<OutletHandle>) -> (r: Result<Outlet, OutletError>)
        requires
            old(self)@.wf(),
        ensures
            final(self)@.wf(),
            final(self)@.view == old(self)@.view,
            final(self)@.outer_owner == old(self)@.outer_owner,
            match mount_target(found, old(self)@.outlets) {
                Ok(depth) => {
                    &&& r.is_ok()
                    &&& r.unwrap()@ == (Mounted {
                        depth: depth as usize,
                        trigger: old(self)@.outlets[depth]@.trigger,
                        params: old(self)@.outlets[depth]@.params,
                    })
                    &&& claimed_at(old(self)@.outlets, depth, final(self)@.outlets)
                },
                Err(error) => r == Err::<Outlet, OutletError>(error) && final(self)@.outlets
                    == old(self)@.outlets,
            },
    {
        mount_outlet(found, &mut self.outlets)
    }

    /// Mounts a consumer on the nearest outlet of the ambient context, as
    /// [`Outlet`](crate::outlet::Outlet()) does.
    pub fn mount_nearest(&mut self) -> (r: Result<Outlet, OutletError>)
        requires
            old(self)@.wf(),
        ensures
            final(self)@.wf(),
            final(self)@.view == old(self)@.view,
            final(self)@.outer_owner == old(self)@.outer_owner,
            match r {
                Ok(outlet) => {
                    &&& stands_at(old(self)@.outlets, outlet@.depth, outlet@.params)
                    &&& !old(self)@.outlets[outlet@.depth as int]@.claimed
                    &&& outlet@.trigger == old(self)@.outlets[outlet@.depth as int]@.trigger
                    &&& claimed_at(old(self)@.outlets, outlet@.depth as int, final(self)@.outlets)
                },
                Err(error) => error != OutletError::NothingPending && final(self)@.outlets
                    == old(self)@.outlets,
            },
    {
        Outlet(&mut self.outlets)
    }

    /// Takes the view that waits for `outlet`, as [`Outlet::poll`] does.
    pub fn poll(&mut self, outlet: &Outlet) -> (r: Option<ScopedView>)
        requires
            old(self)@.wf(),
        ensures
            final(self)@.wf(),
            final(self)@.view == old(self)@.view,
            final(self)@.outer_owner == old(self)@.outer_owner,
            r == waiting(old(self)@.outlets, outlet@),
            match r {
                Some(_) => drained_at(
                    old(self)@.outlets,
                    outlet@.depth as int,
                    final(self)@.outlets,
                ),
                None => final(self)@.outlets == old(self)@.outlets,
            },
    {
        outlet.poll(&mut self.outlets)
    }

    /// Takes the view to render for `outlet` after a wake or a mount, as
    /// [`Outlet::render`] does.
    pub fn render(&mut self, outlet: &Outlet) -> (r: Result<ScopedView, OutletError>)
        requires
            old(self)@.wf(),
        ensures
            final(self)@.wf(),
            final(self)@.view == old(self)@.view,
            final(self)@.outer_owner == old(self)@.outer_owner,
            match waiting(old(self)@.outlets, outlet@) {
                Some(view) => {
                    &&& r == Ok::<ScopedView, OutletError>(view)
                    &&& drained_at(old(self)@.outlets, outlet@.depth as int, final(self)@.outlets)
                },
                None => {
                    &&& final(self)@.outlets == old(self)@.outlets
                    &&& r == Err::<ScopedView, OutletError>(
                        if stands_at(old(self)@.outlets, outlet@.depth, outlet@.params) {
                            OutletError::NothingPending
                        } else {
                            OutletError::NoContext
                        },
                    )
                },
            },
    {
        outlet.render(&mut self.outlets)
    }

    /// Takes the view that waits for the consumer at the top, if outlets are
    /// shown and one waits.
    pub fn poll_root(&mut self) -> (r: Option<ScopedView>)
        requires
            old(self)@.wf(),
        ensures
            final(self)@.wf(),
            final(self)@.view == old(self)@.view,
            final(self)@.outer_owner == old(self)@.outer_owner,
            r == match old(self)@.view {
                Either::Left(_) => None,
                Either::Right(root) => waiting(old(self)@.outlets, root@),
            },
            match r {
                Some(_) => drained_at(old(self)@.outlets, 0, final(self)@.outlets),
                None => final(self)@.outlets == old(self)@.outlets,
            },
    {
        match &self.view {
            Either::Left(_) => None,
            Either::Right(root) => root.poll(&mut self.outlets),
        }
    }
}

} // verus!
