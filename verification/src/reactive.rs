//! The boundary to the reactive graph and to the renderer.
//!
//! Scopes, triggers and signals are handles to state that the reactive graph
//! shares with its observers. This crate moves the handles around and calls
//! into them; what they hold is never read here. Equality of two handles in a
//! contract means that they are handles to the same scope, trigger or signal.
//!
//! Nothing in this module is proved: each item states what the named outside
//! function is taken to do.

use vstd::prelude::*;
use either_of::Either;
use reactive_graph::owner::Owner;
use reactive_graph::signal::ArcRwSignal;
use reactive_graph::signal::ArcTrigger;
use reactive_graph::traits::Notify;
use reactive_graph::traits::Track;
use tachys::view::any_view::AnyView;
use tachys::view::any_view::IntoAny;
use crate::matching::OutletViewFn;
use crate::outlet::OutletHandle;

verus! {

/// `reactive_graph::owner::Owner`: a scope, the node of the ownership tree
/// under which signals, child scopes and context values are created.
#[verifier::external_type_specification]
#[verifier::external_body]
pub struct ExOwner(Owner);

/// `reactive_graph::signal::ArcTrigger`: a signal without data, which wakes
/// the observers that track it.
#[verifier::external_type_specification]
#[verifier::external_body]
pub struct ExArcTrigger(ArcTrigger);

/// `reactive_graph::signal::ArcRwSignal`: a reference-counted signal that
/// holds a value of type `T`.
#[verifier::external_type_specification]
#[verifier::external_body]
#[verifier::reject_recursive_types(T)]
pub struct ExArcRwSignal<T>(ArcRwSignal<T>);

/// `tachys::view::any_view::AnyView`: a type-erased view.
#[verifier::external_type_specification]
#[verifier::external_body]
pub struct ExAnyView(AnyView);

/// `either_of::Either`: one of two values, `Left` or `Right`. Its two
/// variants are public, so verified code builds and matches them directly.
#[verifier::external_type_specification]
#[verifier::reject_recursive_types(A)]
#[verifier::reject_recursive_types(B)]
pub struct ExEither<A, B>(Either<A, B>);

/// `Owner::child` creates a new scope and registers it as a child of
/// `parent`. Which scope comes back is not a function of `parent`, so nothing
/// is claimed of it. It panics only if a thread panicked earlier while it
/// held the lock of `parent`.
pub assume_specification[ Owner::child ](parent: &Owner) -> (child: Owner);

/// `Owner::clone` returns another handle to the same scope: the clone shares
/// the scope's state with `scope`, and `Owner`'s own `==` holds of the two.
pub assume_specification[ <Owner as Clone>::clone ](scope: &Owner) -> (same: Owner)
    ensures
        same == *scope,
;

/// `ArcTrigger::new` creates a trigger that no observer tracks yet.
pub assume_specification[ ArcTrigger::new ]() -> (trigger: ArcTrigger);

/// `ArcTrigger::clone` returns another handle to the same trigger: both share
/// one set of subscribers.
pub assume_specification[ <ArcTrigger as Clone>::clone ](trigger: &ArcTrigger) -> (same:
    ArcTrigger)
    ensures
        same == *trigger,
;

/// `ArcRwSignal::new` creates a signal that holds `value`. What a signal
/// holds is shared state, so the contract does not speak of it.
pub assume_specification<T>[ ArcRwSignal::<T>::new ](value: T) -> (signal: ArcRwSignal<T>);

/// `ArcRwSignal::clone` returns another handle to the same signal: both share
/// one value, and the signal's own `==` holds of the two.
pub assume_specification<T>[ <ArcRwSignal<T> as Clone>::clone ](signal: &ArcRwSignal<T>) -> (same:
    ArcRwSignal<T>)
    ensures
        same == *signal,
;

/// `ArcRwSignal`'s `==`: whether the two are handles to the same signal, that
/// is, whether they share one value.
#[verifier::external_body]
pub(crate) fn same_signal<T>(a: &ArcRwSignal<T>, b: &ArcRwSignal<T>) -> (same: bool)
    ensures
        same == (*a == *b),
{
    a == b
}

/// `Set::set` on an `ArcRwSignal`: replaces the value that the signal holds
/// by `value` and notifies the signal's subscribers. The handle itself is not
/// changed. It leaves the value as it is if the value is locked at that
/// moment.
#[verifier::external_body]
pub(crate) fn set_signal<T: 'static>(signal: &ArcRwSignal<T>, value: T) {
    reactive_graph::traits::Set::set(signal, value);
}

/// `Notify::notify` on an `ArcTrigger`: marks every observer that tracks the
/// trigger as dirty, so that it runs again. It panics only if an observer
/// panicked earlier while the subscriber set was locked.
#[verifier::external_body]
pub(crate) fn notify(trigger: &ArcTrigger) {
    trigger.notify();
}

/// `Track::track` on an `ArcTrigger`: subscribes the observer that is running
/// at the moment, if there is one, to the trigger.
#[verifier::external_body]
pub(crate) fn track(trigger: &ArcTrigger) {
    trigger.track();
}

/// `IntoAny::into_any` on the unit value: the view that renders nothing.
#[verifier::external_body]
pub(crate) fn unit_view() -> (view: AnyView) {
    ().into_any()
}

/// `Owner::with` runs a function with `owner` as the current scope and
/// returns what the function returns. Here the function runs the view
/// constructor, so the result is a view that the constructor yields.
#[verifier::external_body]
pub(crate) fn run_in_scope(owner: &Owner, view: OutletViewFn) -> (built: AnyView)
    ensures
        view.yields(built),
{
    owner.with(move || view.run())
}

/// `provide_context`, run by `Owner::with` under `parent`: stores `handle` in
/// the context of `parent`, where a lookup from `parent` or from a scope
/// below it finds it. A handle provided there before is replaced.
#[verifier::external_body]
pub(crate) fn provide_outlet(parent: &Owner, handle: OutletHandle) {
    parent.with(move || reactive_graph::owner::provide_context(handle));
}

/// `use_context`: a clone of the nearest outlet handle that was provided in
/// the current scope or in one above it, `None` if there is none or if no
/// scope is current. The result depends on which scope is current, so nothing
/// is claimed of it.
#[verifier::external_body]
pub(crate) fn use_outlet() -> (found: Option<OutletHandle>) {
    reactive_graph::owner::use_context::<OutletHandle>()
}

} // verus!
