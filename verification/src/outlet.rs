//! Outlets: the rendering slots, one per depth of the matched chain.
//!
//! An [`OutletContext`] lives on the outlet stack for as long as its depth is
//! matched. It knows which route it shows, owns the scope under which that
//! route's view was created, and holds the slot through which a new view
//! reaches the consumer. The slot holds at most one view: a view that arrives
//! before the last one was taken replaces it, so that the consumer only ever
//! renders the latest.
//!
//! What waits in the slot is a [`ScopedView`]: the constructor of the view
//! with the scope under which it is to run. Taking it out of the slot and
//! running it are two steps, so that a view is never constructed while the
//! stack is being changed.
//!
//! The consumer of an outlet is an [`Outlet`]. It is mounted once per outlet,
//! tracks the outlet's trigger, and takes the view out of the slot to render it.
//!
//! An outlet keeps its parameter signal for as long as it lives, and no other
//! outlet has that signal. A handle or a consumer that was made for an outlet
//! remembers the signal, and is the handle or consumer of the outlet that
//! stands at its depth only while that outlet has the same signal.

use vstd::prelude::*;
use reactive_graph::owner::Owner;
use reactive_graph::signal::ArcRwSignal;
use reactive_graph::signal::ArcTrigger;
use tachys::view::any_view::AnyView;
use crate::matching::OutletViewFn;
use crate::matching::Params;
use crate::matching::RouteMatchId;
use crate::reactive::notify;
use crate::reactive::run_in_scope;
use crate::reactive::same_signal;
use crate::reactive::set_signal;
use crate::reactive::track;
use crate::reactive::use_outlet;

verus! {

/// A view constructor with the scope under which it is to run.
pub struct ScopedView {
    pub owner: Owner,
    pub view: OutletViewFn,
}

impl ScopedView {
    /// Constructs the view with `owner` as the current scope, so that
    /// whatever the view creates is created under it.
    pub fn construct(self) -> (built: AnyView)
        ensures
            self.view.yields(built),
    {
        run_in_scope(&self.owner, self.view)
    }
}

/// What an [`OutletContext`] holds, and what it has done.
///
/// The last three fields are a record: they say what the outlet has asked of
/// the reactive graph, which holds the scopes, the signal and the trigger
/// themselves and shares them with their observers.
pub struct OutletState {
    /// The route that this outlet showed last.
    pub id: RouteMatchId,
    /// Wakes the consumer when a new view has been sent.
    pub trigger: ArcTrigger,
    /// The parameters of the current match, observable by the view.
    pub params: ArcRwSignal<Params>,
    /// The scope under which the current route's view is created.
    pub owner: Owner,
    /// The view that was sent and not yet taken.
    pub pending: Option<ScopedView>,
    /// Whether a consumer has been mounted on this outlet.
    pub claimed: bool,
    /// The scope of which `owner` was created as a child.
    pub parent: Owner,
    /// The parameters that the outlet wrote to its signal last.
    pub written: Seq<(String, String)>,
    /// How often the outlet has woken its consumer.
    pub wakes: nat,
}

/// The outlet of one depth.
pub struct OutletContext {
    id: RouteMatchId,
    trigger: ArcTrigger,
    params: ArcRwSignal<Params>,
    owner: Owner,
    pending: Option<ScopedView>,
    claimed: bool,
    parent: Ghost<Owner>,
    written: Ghost<Seq<(String, String)>>,
    wakes: Ghost<nat>,
}

impl View for OutletContext {
    type V = OutletState;

    closed spec fn view(&self) -> OutletState {
        OutletState {
            id: self.id,
            trigger: self.trigger,
            params: self.params,
            owner: self.owner,
            pending: self.pending,
            claimed: self.claimed,
            parent: self.parent@,
            written: self.written@,
            wakes: self.wakes@,
        }
    }
}

/// The part of an outlet that is shared through the ambient context: where
/// the outlet stands on the stack, and handles to its trigger and to its
/// parameters. It holds no handle to the outlet's scope, so that a scope is
/// released as soon as its outlet lets go of it.
pub struct OutletHandle {
    pub depth: usize,
    pub trigger: ArcTrigger,
    pub params: ArcRwSignal<Params>,
}

impl Clone for OutletHandle {
    fn clone(&self) -> (same: Self)
        ensures
            same == *self,
    {
        OutletHandle {
            depth: self.depth,
            trigger: self.trigger.clone(),
            params: self.params.clone(),
        }
    }
}

/// How mounting or rendering an outlet fails. Each is a mistake in how the
/// views were composed, not a condition to recover from.
#[derive(Clone, Copy, Debug, PartialEq, Eq, Structural)]
pub enum OutletError {
    /// No outlet is reachable from where the consumer was placed.
    NoContext,
    /// The outlet already has a consumer.
    ReceiverTaken,
    /// The consumer was woken, but no view had been sent.
    NothingPending,
}

impl OutletError {
    /// The diagnostic for this error.
    pub fn message(&self) -> (text: &'static str)
        ensures
            text@ == match *self {
                OutletError::NoContext => "<Outlet/> used without OutletContext being provided."@,
                OutletError::ReceiverTaken =>
                    "Tried to render <Outlet/> but could not find the view receiver. Are you using the same <Outlet/> twice?"@,
                OutletError::NothingPending =>
                    "<Outlet/> was woken but no view had been sent to it."@,
            },
    {
        match self {
            OutletError::NoContext => "<Outlet/> used without OutletContext being provided.",
            OutletError::ReceiverTaken =>
                "Tried to render <Outlet/> but could not find the view receiver. Are you using the same <Outlet/> twice?",
            OutletError::NothingPending => "<Outlet/> was woken but no view had been sent to it.",
        }
    }
}

impl OutletContext {
    /// An outlet for the route `id`: it gets a new child scope of `parent`,
    /// a new signal that holds `params` and a new trigger. Its slot is empty,
    /// and it has no consumer.
    pub fn new(id: RouteMatchId, params: Params, parent: &Owner) -> (outlet: Self)
        ensures
            outlet@ == (OutletState {
                id,
                pending: None,
                claimed: false,
                parent: *parent,
                written: params@,
                wakes: 0,
                ..outlet@
            }),
    {
        let owner = parent.child();
        let ghost written = params@;
        let signal = ArcRwSignal::new(params);
        let trigger = ArcTrigger::new();
        OutletContext {
            id,
            trigger,
            params: signal,
            owner,
            pending: None,
            claimed: false,
            parent: Ghost(*parent),
            written: Ghost(written),
            wakes: Ghost(0),
        }
    }

    /// Puts `view` into the slot, to be constructed under the outlet's
    /// current scope. A view that was still waiting there is dropped without
    /// having run.
    pub fn send(&mut self, view: OutletViewFn)
        ensures
            final(self)@ == (OutletState {
                pending: Some(ScopedView { owner: old(self)@.owner, view }),
                ..old(self)@
            }),
    {
        self.pending = Some(ScopedView { owner: self.owner.clone(), view });
    }

    /// Makes this the outlet of the route `id` under a new child scope of
    /// `parent`, and returns the scope of the route that it showed before, so
    /// that the caller decides when to let go of it.
    pub fn set_route(&mut self, id: RouteMatchId, parent: &Owner) -> (previous: Owner)
        ensures
            final(self)@ == (OutletState {
                id,
                owner: final(self)@.owner,
                parent: *parent,
                ..old(self)@
            }),
            previous == old(self)@.owner,
    {
        self.id = id;
        let mut scope = parent.child();
        core::mem::swap(&mut self.owner, &mut scope);
        self.parent = Ghost(*parent);
        scope
    }

    /// Writes `params` to the outlet's signal, in place: whoever observes the
    /// signal sees them, and nothing else about the outlet changes.
    pub fn update_params(&mut self, params: Params)
        ensures
            final(self)@ == (OutletState { written: params@, ..old(self)@ }),
    {
        self.written = Ghost(params@);
        set_signal(&self.params, params);
    }

    /// Wakes the consumer.
    pub fn wake(&mut self)
        ensures
            final(self)@ == (OutletState { wakes: old(self)@.wakes + 1, ..old(self)@ }),
    {
        self.wakes = Ghost(self.wakes@ + 1);
        notify(&self.trigger);
    }

    /// The route that this outlet showed last.
    pub fn id(&self) -> (id: RouteMatchId)
        ensures
            id == self@.id,
    {
        self.id
    }

    /// A handle to the scope of the current route.
    pub fn owner(&self) -> (owner: Owner)
        ensures
            owner == self@.owner,
    {
        self.owner.clone()
    }

    /// A handle to the trigger that wakes the consumer.
    pub fn trigger(&self) -> (trigger: ArcTrigger)
        ensures
            trigger == self@.trigger,
    {
        self.trigger.clone()
    }

    /// A handle to the signal that holds the parameters.
    pub fn params(&self) -> (params: ArcRwSignal<Params>)
        ensures
            params == self@.params,
    {
        self.params.clone()
    }

    /// Whether `params` is a handle to this outlet's parameter signal.
    pub fn has_params(&self, params: &ArcRwSignal<Params>) -> (same: bool)
        ensures
            same == (self@.params == *params),
    {
        same_signal(&self.params, params)
    }

    /// Whether a view is waiting in the slot.
    pub fn has_pending(&self) -> (pending: bool)
        ensures
            pending == self@.pending.is_some(),
    {
        self.pending.is_some()
    }

    /// Whether a consumer has been mounted on this outlet.
    pub fn is_claimed(&self) -> (claimed: bool)
        ensures
            claimed == self@.claimed,
    {
        self.claimed
    }

    /// The handle by which a consumer finds this outlet, which stands at
    /// `depth` on the stack.
    pub fn handle(&self, depth: usize) -> (handle: OutletHandle)
        ensures
            handle == (OutletHandle { depth, trigger: self@.trigger, params: self@.params }),
    {
        OutletHandle { depth, trigger: self.trigger.clone(), params: self.params.clone() }
    }

    /// Claims the outlet for a consumer. An outlet can be claimed once.
    pub fn claim(&mut self) -> (r: Result<(), OutletError>)
        ensures
            old(self)@.claimed ==> r == Err::<(), OutletError>(OutletError::ReceiverTaken)
                && final(self)@ == old(self)@,
            !old(self)@.claimed ==> r.is_ok() && final(self)@ == (OutletState {
                claimed: true,
                ..old(self)@
            }),
    {
        if self.claimed {
            Err(OutletError::ReceiverTaken)
        } else {
            self.claimed = true;
            Ok(())
        }
    }

    /// Takes the waiting view out of the slot, if there is one. It never
    /// waits for a view.
    pub fn try_receive(&mut self) -> (r: Option<ScopedView>)
        ensures
            final(self)@ == (OutletState { pending: None, ..old(self)@ }),
            r == old(self)@.pending,
    {
        self.pending.take()
    }
}

/// What an [`Outlet`] holds.
pub struct Mounted {
    /// The depth of the outlet that the consumer renders.
    pub depth: usize,
    /// The trigger that wakes the consumer.
    pub trigger: ArcTrigger,
    /// The parameter signal of the outlet that the consumer was mounted on.
    pub params: ArcRwSignal<Params>,
}

/// The consumer of one outlet: the rendering unit that shows, at its place in
/// the view above, whatever view the outlet of its depth was sent last.
pub struct Outlet {
    depth: usize,
    trigger: ArcTrigger,
    params: ArcRwSignal<Params>,
}

impl View for Outlet {
    type V = Mounted;

    closed spec fn view(&self) -> Mounted {
        Mounted { depth: self.depth, trigger: self.trigger, params: self.params }
    }
}

/// The outlet with the parameter signal `params` stands at `depth`.
pub open spec fn stands_at(
    outlets: Seq<OutletContext>,
    depth: usize,
    params: ArcRwSignal<Params>,
) -> bool {
    depth < outlets.len() && outlets[depth as int]@.params == params
}

/// The depth at which a consumer that found `found` in its context is
/// mounted, or why it cannot be mounted.
pub open spec fn mount_target(found: Option<OutletHandle>, outlets: Seq<OutletContext>) -> Result<
    int,
    OutletError,
> {
    match found {
        None => Err(OutletError::NoContext),
        Some(handle) => if !stands_at(outlets, handle.depth, handle.params) {
            Err(OutletError::NoContext)
        } else if outlets[handle.depth as int]@.claimed {
            Err(OutletError::ReceiverTaken)
        } else {
            Ok(handle.depth as int)
        },
    }
}

/// `after` is `before` with the outlet at `depth` claimed and nothing else
/// changed.
pub open spec fn claimed_at(before: Seq<OutletContext>, depth: int, after: Seq<OutletContext>) -> bool {
    &&& 0 <= depth < before.len()
    &&& after.len() == before.len()
    &&& after[depth]@ == (OutletState { claimed: true, ..before[depth]@ })
    &&& forall|i: int| 0 <= i < before.len() && i != depth ==> #[trigger] after[i] == before[i]
}

/// `after` is `before` with the slot of the outlet at `depth` emptied and
/// nothing else changed.
pub open spec fn drained_at(before: Seq<OutletContext>, depth: int, after: Seq<OutletContext>) -> bool {
    &&& 0 <= depth < before.len()
    &&& after.len() == before.len()
    &&& after[depth]@ == (OutletState { pending: None, ..before[depth]@ })
    &&& forall|i: int| 0 <= i < before.len() && i != depth ==> #[trigger] after[i] == before[i]
}

/// The view that waits for the consumer `mounted`: what the slot of its
/// outlet holds, if its outlet still stands on the stack.
pub open spec fn waiting(outlets: Seq<OutletContext>, mounted: Mounted) -> Option<ScopedView> {
    if stands_at(outlets, mounted.depth, mounted.params) {
        outlets[mounted.depth as int]@.pending
    } else {
        None
    }
}

/// Mounts a consumer on the outlet that `found` points to.
///
/// `found` is what the lookup of the nearest outlet handle in the ambient
/// context gave. Without a handle, or with the handle of an outlet that no
/// longer stands on the stack, there is no outlet to render. An outlet that
/// already has a consumer cannot get a second one.
pub fn mount_outlet(found: Option<OutletHandle>, outlets: &mut Vec<OutletContext>) -> (r: Result<
    Outlet,
    OutletError,
>)
    ensures
        match mount_target(found, old(outlets)@) {
            Ok(depth) => {
                &&& r.is_ok()
                &&& r.unwrap()@ == (Mounted {
                    depth: depth as usize,
                    trigger: old(outlets)@[depth]@.trigger,
                    params: old(outlets)@[depth]@.params,
                })
                &&& claimed_at(old(outlets)@, depth, final(outlets)@)
            },
            Err(error) => r == Err::<Outlet, OutletError>(error) && final(outlets)@ == old(
                outlets,
            )@,
        },
{
    match found {
        None => Err(OutletError::NoContext),
        Some(handle) => {
            let depth = handle.depth;
            if depth >= outlets.len() || !outlets[depth].has_params(&handle.params) {
                Err(OutletError::NoContext)
            } else if outlets[depth].is_claimed() {
                Err(OutletError::ReceiverTaken)
            } else {
                let current = &mut outlets[depth];
                let _claimed = current.claim();
                let trigger = current.trigger();
                Ok(Outlet { depth, trigger, params: handle.params })
            }
        },
    }
}

/// Mounts a consumer on the nearest outlet of the ambient context: looks the
/// handle up from the scope that is current, and mounts on what it finds.
///
/// Which handle the lookup finds depends on the scope that is current, so the
/// contract says what holds of every outcome.
#[allow(non_snake_case)]
pub fn Outlet(outlets: &mut Vec<OutletContext>) -> (r: Result<Outlet, OutletError>)
    ensures
        match r {
            Ok(outlet) => {
                &&& stands_at(old(outlets)@, outlet@.depth, outlet@.params)
                &&& !old(outlets)@[outlet@.depth as int]@.claimed
                &&& outlet@.trigger == old(outlets)@[outlet@.depth as int]@.trigger
                &&& claimed_at(old(outlets)@, outlet@.depth as int, final(outlets)@)
            },
            Err(error) => error != OutletError::NothingPending && final(outlets)@ == old(
                outlets,
            )@,
        },
{
    let found = use_outlet();
    mount_outlet(found, outlets)
}

impl Outlet {
    /// The depth of the outlet that this consumer renders.
    pub fn depth(&self) -> (depth: usize)
        ensures
            depth == self@.depth,
    {
        self.depth
    }

    /// Whether the outlet that this consumer was mounted on still stands on
    /// the stack.
    pub fn stands_in(&self, outlets: &Vec<OutletContext>) -> (stands: bool)
        ensures
            stands == stands_at(outlets@, self@.depth, self@.params),
    {
        self.depth < outlets.len() && outlets[self.depth].has_params(&self.params)
    }

    /// Takes the view that waits for this consumer, if one does. It
    /// subscribes the running observer to the outlet's trigger first, so that
    /// the observer runs again when the next view is sent. With no view
    /// waiting it gives `None` and changes nothing: the consumer keeps what
    /// it rendered before.
    pub fn poll(&self, outlets: &mut Vec<OutletContext>) -> (r: Option<ScopedView>)
        ensures
            r == waiting(old(outlets)@, self@),
            match r {
                Some(_) => drained_at(old(outlets)@, self@.depth as int, final(outlets)@),
                None => final(outlets)@ == old(outlets)@,
            },
    {
        track(&self.trigger);
        if self.stands_in(outlets) && outlets[self.depth].has_pending() {
            let current = &mut outlets[self.depth];
            current.try_receive()
        } else {
            None
        }
    }

    /// Takes the view to render after a wake, or for the first time after the
    /// mount: the view that was sent must be waiting. That none waits means
    /// that the consumer was woken without a view having been sent, or that
    /// its outlet is gone.
    pub fn render(&self, outlets: &mut Vec<OutletContext>) -> (r: Result<ScopedView, OutletError>)
        ensures
            match waiting(old(outlets)@, self@) {
                Some(view) => {
                    &&& r == Ok::<ScopedView, OutletError>(view)
                    &&& drained_at(old(outlets)@, self@.depth as int, final(outlets)@)
                },
                None => {
                    &&& final(outlets)@ == old(outlets)@
                    &&& r == Err::<ScopedView, OutletError>(
                        if stands_at(old(outlets)@, self@.depth, self@.params) {
                            OutletError::NothingPending
                        } else {
                            OutletError::NoContext
                        },
                    )
                },
            },
    {
        let reaches = self.stands_in(outlets);
        match self.poll(outlets) {
            Some(view) => Ok(view),
            None => if reaches {
                Err(OutletError::NothingPending)
            } else {
                Err(OutletError::NoContext)
            },
        }
    }
}

} // verus!
