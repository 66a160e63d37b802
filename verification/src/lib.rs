//! Nested-route resolution and incremental view updates.
//!
//! A path is matched against a tree of route definitions, which yields a chain of
//! matches, one per nesting depth. This crate keeps one *outlet* per depth alive
//! across navigations and hands a freshly matched view to an outlet only when the
//! route matched at that depth has changed.
//!
//! - [`matching`] holds the match chain.
//! - [`outlet`] holds the per-depth outlet and its rendering consumer.
//! - [`diff`] builds the outlet stack and rebuilds it against a new match chain.
//! - [`routes_view`] is the top-level view that switches between outlets and a fallback.
//! - [`children`] holds the view-constructor types that views and components pass around.
//! - [`laws`] states what holds across navigations.
//! - [`reactive`] is the boundary to the reactive graph and the renderer.

pub mod children;
pub mod diff;
pub mod laws;
pub mod matching;
pub mod outlet;
pub mod reactive;
pub mod routes_view;

pub use crate::children::Children;
pub use crate::children::ChildrenFn;
pub use crate::children::ChildrenFnMut;
pub use crate::children::ToChildren;
pub use crate::children::TypedChildren;
pub use crate::children::TypedChildrenMut;
pub use crate::children::ViewFn;
pub use crate::matching::MatchNode;
pub use crate::matching::Params;
pub use crate::matching::RouteMatchId;
pub use crate::outlet::Outlet;
pub use crate::outlet::OutletContext;
pub use crate::outlet::OutletError;
pub use crate::outlet::OutletHandle;
pub use crate::routes_view::NestedRouteViewState;
pub use crate::routes_view::NestedRoutesView;
