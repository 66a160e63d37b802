//! View constructors: the functions that components and routes hand over in
//! place of a finished view.
//!
//! A constructor is a function without arguments. Three kinds are kept apart
//! by how often they may run: once ([`OnceFn`]), repeatedly with access to
//! their own state ([`MutFn`]), and repeatedly from anywhere ([`SharedFn`]).
//! Each is a boxed function behind one small struct, so that constructors of
//! different closures have one type.
//!
//! What a constructor returns is stated by `yields`: `c.yields(v)` says that
//! `v` is a value that running `c` may return.

use vstd::prelude::*;
use std::sync::Arc;
use tachys::view::any_view::AnyView;
use crate::reactive::unit_view;

verus! {

/// A function that can run once and returns a `V`.
trait OnceView<V>: Send {
    /// Whether the function may be run.
    spec fn callable(&self) -> bool;

    /// The values that running this function may return.
    spec fn yields(&self, v: V) -> bool;

    fn call_once(self: Box<Self>) -> (v: V)
        requires
            self.callable(),
        ensures
            self.yields(v),
    ;
}

/// A function that can run any number of times, one run at a time.
trait MutView<V>: Send {
    /// Whether the function may be run.
    spec fn callable(&self) -> bool;

    /// The values that running this function may return.
    spec fn yields(&self, v: V) -> bool;

    fn call_mut(&mut self) -> (v: V)
        requires
            old(self).callable(),
        ensures
            old(self).yields(v),
            final(self).callable(),
    ;
}

/// A function that can run any number of times through a shared reference.
trait SharedView<V>: Send + Sync {
    /// Whether the function may be run.
    spec fn callable(&self) -> bool;

    /// The values that running this function may return.
    spec fn yields(&self, v: V) -> bool;

    fn call(&self) -> (v: V)
        requires
            self.callable(),
        ensures
            self.yields(v),
    ;
}

/// A closure that can be called once, seen as a [`OnceView`].
struct OnceAdapter<F> {
    f: F,
}

impl<F, V> OnceView<V> for OnceAdapter<F> where F: FnOnce() -> V + Send {
    closed spec fn callable(&self) -> bool {
        call_requires(self.f, ())
    }

    closed spec fn yields(&self, v: V) -> bool {
        call_ensures(self.f, (), v)
    }

    fn call_once(self: Box<Self>) -> (v: V) {
        let this = *self;
        let f = this.f;
        f()
    }
}

/// A closure that can be called repeatedly, seen as a [`MutView`].
struct MutAdapter<F> {
    f: F,
}

impl<F, V> MutView<V> for MutAdapter<F> where F: FnMut() -> V + Send {
    closed spec fn callable(&self) -> bool {
        call_requires(self.f, ())
    }

    closed spec fn yields(&self, v: V) -> bool {
        call_ensures(self.f, (), v)
    }

    fn call_mut(&mut self) -> (v: V) {
        (self.f)()
    }
}

/// A closure that can be called repeatedly, seen as a [`MutView`] that marks
/// what the closure returns as a view.
struct TypedMutAdapter<F> {
    f: F,
}

impl<F, C> MutView<TypedView<C>> for TypedMutAdapter<F> where F: FnMut() -> C + Send {
    closed spec fn callable(&self) -> bool {
        call_requires(self.f, ())
    }

    closed spec fn yields(&self, v: TypedView<C>) -> bool {
        call_ensures(self.f, (), v@)
    }

    fn call_mut(&mut self) -> (v: TypedView<C>) {
        TypedView::new((self.f)())
    }
}

/// A closure that can be called through a shared reference, seen as a
/// [`SharedView`].
struct SharedAdapter<F> {
    f: F,
}

impl<F, V> SharedView<V> for SharedAdapter<F> where F: Fn() -> V + Send + Sync {
    closed spec fn callable(&self) -> bool {
        call_requires(self.f, ())
    }

    closed spec fn yields(&self, v: V) -> bool {
        call_ensures(self.f, (), v)
    }

    fn call(&self) -> (v: V) {
        (self.f)()
    }
}

/// A boxed function that runs once and returns a `V`. It can always be run.
#[verifier::reject_recursive_types(V)]
pub struct OnceFn<V> {
    inner: Box<dyn OnceView<V>>,
}

impl<V> OnceFn<V> {
    #[verifier::type_invariant]
    spec fn runnable(self) -> bool {
        self.inner.callable()
    }

    /// The values that running this function may return.
    pub closed spec fn yields(&self, v: V) -> bool {
        self.inner.yields(v)
    }

    /// Boxes `f`. Whatever the result yields, `f` returns.
    pub fn new<F>(f: F) -> (r: Self) where F: FnOnce() -> V + Send + 'static, V: 'static
        requires
            call_requires(f, ()),
        ensures
            forall|v: V| r.yields(v) <==> call_ensures(f, (), v),
    {
        OnceFn { inner: Box::new(OnceAdapter { f }) }
    }

    /// Runs the function, which uses it up.
    pub fn run(self) -> (v: V)
        ensures
            self.yields(v),
    {
        proof {
            use_type_invariant(&self);
        }
        self.inner.call_once()
    }
}

/// A boxed function that runs repeatedly, one run at a time, and returns a `V`.
#[verifier::reject_recursive_types(V)]
pub struct MutFn<V> {
    inner: Box<dyn MutView<V>>,
}

impl<V> MutFn<V> {
    /// Whether the function may be run.
    pub closed spec fn callable(&self) -> bool {
        self.inner.callable()
    }

    /// The values that running this function may return.
    pub closed spec fn yields(&self, v: V) -> bool {
        self.inner.yields(v)
    }

    /// Boxes `f`. The result may be run, and whatever it yields, `f` returns.
    pub fn new<F>(f: F) -> (r: Self) where F: FnMut() -> V + Send + 'static, V: 'static
        requires
            call_requires(f, ()),
        ensures
            r.callable(),
            forall|v: V| r.yields(v) <==> call_ensures(f, (), v),
    {
        MutFn { inner: Box::new(MutAdapter { f }) }
    }

    /// Boxes `f` and marks what it returns as a view.
    pub fn typed<F, C>(f: F) -> (r: MutFn<TypedView<C>>) where
        F: FnMut() -> C + Send + 'static,
        C: 'static,

        requires
            call_requires(f, ()),
        ensures
            r.callable(),
            forall|v: TypedView<C>| r.yields(v) <==> call_ensures(f, (), v@),
    {
        MutFn { inner: Box::new(TypedMutAdapter { f }) }
    }

    /// Runs the function. It may be run again afterwards.
    pub fn run(&mut self) -> (v: V)
        requires
            old(self).callable(),
        ensures
            old(self).yields(v),
            final(self).callable(),
    {
        self.inner.call_mut()
    }
}

/// A reference-counted function that runs repeatedly and returns a `V`. It can
/// always be run.
#[verifier::reject_recursive_types(V)]
pub struct SharedFn<V> {
    inner: Arc<SharedBox<V>>,
}

/// The boxed function that the handles of one [`SharedFn`] share.
#[verifier::reject_recursive_types(V)]
struct SharedBox<V> {
    view: Box<dyn SharedView<V>>,
}

impl<V> SharedFn<V> {
    #[verifier::type_invariant]
    spec fn runnable(self) -> bool {
        self.inner.view.callable()
    }

    /// The values that running this function may return.
    pub closed spec fn yields(&self, v: V) -> bool {
        self.inner.view.yields(v)
    }

    /// Wraps `f`. Whatever the result yields, `f` returns.
    pub fn new<F>(f: F) -> (r: Self) where
        F: Fn() -> V + Send + Sync + 'static,
        V: 'static,

        requires
            call_requires(f, ()),
        ensures
            forall|v: V| r.yields(v) <==> call_ensures(f, (), v),
    {
        let shared = SharedBox { view: Box::new(SharedAdapter { f }) };
        SharedFn { inner: Arc::new(shared) }
    }

    /// Runs the function.
    pub fn run(&self) -> (v: V)
        ensures
            self.yields(v),
    {
        proof {
            use_type_invariant(self);
        }
        self.inner.view.call()
    }

    /// Another handle to the same function.
    pub fn share(&self) -> (r: Self)
        ensures
            r == *self,
    {
        proof {
            use_type_invariant(self);
        }
        SharedFn { inner: Arc::clone(&self.inner) }
    }
}

/// A value marked as a view: what a typed view constructor returns.
pub struct TypedView<T> {
    inner: T,
}

impl<T> View for TypedView<T> {
    type V = T;

    closed spec fn view(&self) -> T {
        self.inner
    }
}

impl<T> TypedView<T> {
    /// Marks `inner` as a view.
    pub fn new(inner: T) -> (r: Self)
        ensures
            r@ == inner,
    {
        TypedView { inner }
    }

    /// The value that was marked.
    pub fn into_inner(self) -> (inner: T)
        ensures
            inner == self@,
    {
        self.inner
    }
}

/// The usual type of a component's children: a view constructor that can run
/// only once.
pub type Children = OnceFn<AnyView>;

/// Children that can be constructed more than once.
pub type ChildrenFn = SharedFn<AnyView>;

/// Children that can be constructed more than once and may change their own
/// state while they are.
pub type ChildrenFnMut = MutFn<AnyView>;

/// Turns a closure into a children type, so that the caller of a component
/// need not know which of the children types the component takes.
pub trait ToChildren<F>: Sized {
    /// The closures that can be turned into this children type.
    spec fn accepts(f: F) -> bool;

    fn to_children(f: F) -> (children: Self)
        requires
            Self::accepts(f),
    ;
}

impl<F> ToChildren<F> for Children where F: FnOnce() -> AnyView + Send + 'static {
    open spec fn accepts(f: F) -> bool {
        call_requires(f, ())
    }

    fn to_children(f: F) -> (children: Self)
        ensures
            forall|v: AnyView| children.yields(v) <==> call_ensures(f, (), v),
    {
        OnceFn::new(f)
    }
}

impl<F> ToChildren<F> for ChildrenFn where F: Fn() -> AnyView + Send + Sync + 'static {
    open spec fn accepts(f: F) -> bool {
        call_requires(f, ())
    }

    fn to_children(f: F) -> (children: Self)
        ensures
            forall|v: AnyView| children.yields(v) <==> call_ensures(f, (), v),
    {
        SharedFn::new(f)
    }
}

impl<F> ToChildren<F> for ChildrenFnMut where F: FnMut() -> AnyView + Send + 'static {
    open spec fn accepts(f: F) -> bool {
        call_requires(f, ())
    }

    fn to_children(f: F) -> (children: Self)
        ensures
            children.callable(),
            forall|v: AnyView| children.yields(v) <==> call_ensures(f, (), v),
    {
        MutFn::new(f)
    }
}

/// A view constructor with a default, for the optional properties of a
/// component: the default constructs the view that renders nothing.
pub struct ViewFn(SharedFn<AnyView>);

impl ViewFn {
    /// The views that running this constructor may return.
    pub closed spec fn yields(&self, v: AnyView) -> bool {
        self.0.yields(v)
    }

    /// Wraps `f`. Whatever the result yields, `f` returns.
    pub fn new<F>(f: F) -> (r: Self) where F: Fn() -> AnyView + Send + Sync + 'static
        requires
            call_requires(f, ()),
        ensures
            forall|v: AnyView| r.yields(v) <==> call_ensures(f, (), v),
    {
        ViewFn(SharedFn::new(f))
    }

    /// Runs the wrapped function.
    pub fn run(&self) -> (v: AnyView)
        ensures
            self.yields(v),
    {
        self.0.run()
    }
}

impl Default for ViewFn {
    /// The constructor of the view that renders nothing.
    fn default() -> (r: Self) {
        ViewFn(SharedFn::new(unit_view))
    }
}

impl Clone for ViewFn {
    fn clone(&self) -> (r: Self)
        ensures
            r == *self,
    {
        ViewFn(self.0.share())
    }
}

/// A typed equivalent of [`Children`]: it keeps the type of the view that it
/// constructs.
#[verifier::reject_recursive_types(T)]
pub struct TypedChildren<T>(OnceFn<TypedView<T>>);

impl<T> View for TypedChildren<T> {
    type V = OnceFn<TypedView<T>>;

    closed spec fn view(&self) -> OnceFn<TypedView<T>> {
        self.0
    }
}

impl<T> TypedChildren<T> {
    /// The constructor that these children hold.
    pub fn into_inner(self) -> (inner: OnceFn<TypedView<T>>)
        ensures
            inner == self@,
    {
        self.0
    }
}

impl<F, C> ToChildren<F> for TypedChildren<C> where
    F: FnOnce() -> C + Send + 'static,
    C: Send + 'static,
 {
    open spec fn accepts(f: F) -> bool {
        call_requires(f, ())
    }

    fn to_children(f: F) -> (children: Self)
        ensures
            forall|v: TypedView<C>| children@.yields(v) ==> call_ensures(f, (), v@),
    {
        let marked = move || -> (v: TypedView<C>)
            ensures
                call_ensures(f, (), v@),
            { TypedView::new(f()) };
        TypedChildren(OnceFn::new(marked))
    }
}

/// A typed equivalent of [`ChildrenFnMut`]: it keeps the type of the view
/// that it constructs.
#[verifier::reject_recursive_types(T)]
pub struct TypedChildrenMut<T>(MutFn<TypedView<T>>);

impl<T> View for TypedChildrenMut<T> {
    type V = MutFn<TypedView<T>>;

    closed spec fn view(&self) -> MutFn<TypedView<T>> {
        self.0
    }
}

impl<T> TypedChildrenMut<T> {
    /// The constructor that these children hold.
    pub fn into_inner(self) -> (inner: MutFn<TypedView<T>>)
        ensures
            inner == self@,
    {
        self.0
    }
}

impl<F, C> ToChildren<F> for TypedChildrenMut<C> where
    F: FnMut() -> C + Send + 'static,
    C: Send + 'static,
 {
    open spec fn accepts(f: F) -> bool {
        call_requires(f, ())
    }

    fn to_children(f: F) -> (children: Self)
        ensures
            children@.callable(),
            forall|v: TypedView<C>| children@.yields(v) <==> call_ensures(f, (), v@),
    {
        TypedChildrenMut(MutFn::<TypedView<C>>::typed(f))
    }
}

} // verus!
