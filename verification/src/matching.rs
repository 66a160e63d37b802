//! The match chain: what matching a path against the route definitions gives.
//!
//! A chain has one node per nesting depth. A node says which route matched at
//! its depth, carries the parameters that were taken from the path there and
//! the constructor of that route's view, and holds the node of the next depth,
//! if a nested route matched too.

use vstd::prelude::*;
use crate::children::Children;

verus! {

/// Which route definition matched at one depth. Two matches with the same id
/// at the same depth are the same route, whatever their parameters.
#[derive(Clone, Copy, Debug, PartialEq, Eq, Hash, Structural)]
pub struct RouteMatchId(pub u16);

/// The parameters taken from the path at one depth: names and values, in the
/// order in which the path gives them.
pub type Params = Vec<(String, String)>;

/// The constructor of the view of one matched route. It runs once.
pub type OutletViewFn = Children;

/// The match at one depth, with the matches below it.
pub struct MatchNode {
    pub id: RouteMatchId,
    pub params: Params,
    pub view: OutletViewFn,
    pub child: Option<Box<MatchNode>>,
}

/// What a match chain holds at one depth.
pub struct MatchLevel {
    pub id: RouteMatchId,
    pub params: Seq<(String, String)>,
    pub view: OutletViewFn,
}

/// The ids of a chain of levels, by depth.
pub open spec fn level_ids(levels: Seq<MatchLevel>) -> Seq<RouteMatchId> {
    levels.map_values(|level: MatchLevel| level.id)
}

impl MatchNode {
    /// What this node holds at its own depth.
    pub open spec fn level(self) -> MatchLevel {
        MatchLevel { id: self.id, params: self.params@, view: self.view }
    }

    /// What this chain holds, from this node down.
    pub open spec fn levels(self) -> Seq<MatchLevel>
        decreases self,
    {
        match self.child {
            Some(child) => seq![self.level()] + child.levels(),
            None => seq![self.level()],
        }
    }

    /// The number of depths of this chain.
    pub open spec fn depth(self) -> nat
        decreases self,
    {
        match self.child {
            Some(child) => 1 + child.depth(),
            None => 1,
        }
    }

    /// The ids of this chain, from this node down.
    pub open spec fn ids(self) -> Seq<RouteMatchId> {
        level_ids(self.levels())
    }

    /// A chain has as many levels as it has depths, and at least one; the
    /// first is that of the node itself, and the rest are those of the chain
    /// below it.
    pub proof fn lemma_levels(self)
        ensures
            self.depth() >= 1,
            self.levels().len() == self.depth(),
            self.levels()[0] == self.level(),
            self.ids().len() == self.depth(),
            self.ids()[0] == self.id,
            match self.child {
                Some(child) => self.levels().skip(1) == child.levels() && self.ids().skip(1)
                    == child.ids(),
                None => self.levels().len() == 1,
            },
        decreases self,
    {
        match self.child {
            Some(child) => {
                child.lemma_levels();
                assert(self.levels().skip(1) =~= child.levels());
                assert(self.ids().skip(1) =~= child.ids());
            },
            None => {},
        }
    }

    /// A chain of one depth.
    pub fn leaf(id: RouteMatchId, params: Params, view: OutletViewFn) -> (node: Self)
        ensures
            node == (MatchNode { id, params, view, child: None }),
    {
        MatchNode { id, params, view, child: None }
    }

    /// This node with `child` as the chain below it.
    pub fn with_child(self, child: MatchNode) -> (node: Self)
        ensures
            node == (MatchNode { child: Some(Box::new(child)), ..self }),
            node.levels() == seq![self.level()] + child.levels(),
            node.depth() == 1 + child.depth(),
    {
        MatchNode { id: self.id, params: self.params, view: self.view, child: Some(Box::new(child)) }
    }
}

} // verus!
