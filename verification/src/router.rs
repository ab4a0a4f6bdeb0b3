//! Decides which neighbouring machine the pointer crosses to when it reaches
//! a screen edge.

use vstd::prelude::*;
use crate::layout::{is_consistent, lemma_neighbors_are_mutual, neighbor_index, MachineView, WorkspaceLayout};
use crate::network::Edge;

verus! {

/// The local machine's id and the workspace layout it routes by.
pub struct EdgeRouter {
    pub local_machine_id: u128,
    pub layout: WorkspaceLayout,
}

/// The neighbour across `edge`, if the pointer is at that edge and the layout
/// has one there: its id and the edge.
pub open spec fn crossing_at(ms: Seq<MachineView>, id: u128, at_edge: bool, edge: Edge) -> Option<
    (u128, Edge),
> {
    if at_edge && neighbor_index(ms, id, edge) is Some {
        Some((ms[neighbor_index(ms, id, edge)->0].machine_id, edge))
    } else {
        None
    }
}

/// The edge crossing the router reports: the right edge is tried first, then
/// the left, the bottom and the top.
pub open spec fn spec_edge_cross(
    ms: Seq<MachineView>,
    id: u128,
    at_right: bool,
    at_left: bool,
    at_bottom: bool,
    at_top: bool,
) -> Option<(u128, Edge)> {
    if crossing_at(ms, id, at_right, Edge::Right) is Some {
        crossing_at(ms, id, at_right, Edge::Right)
    } else if crossing_at(ms, id, at_left, Edge::Left) is Some {
        crossing_at(ms, id, at_left, Edge::Left)
    } else if crossing_at(ms, id, at_bottom, Edge::Bottom) is Some {
        crossing_at(ms, id, at_bottom, Edge::Bottom)
    } else {
        crossing_at(ms, id, at_top, Edge::Top)
    }
}

impl EdgeRouter {
    pub fn new(local_machine_id: u128, layout: WorkspaceLayout) -> (r: Self)
        ensures
            r.local_machine_id == local_machine_id,
            r.layout@ == layout@,
    {
        EdgeRouter { local_machine_id, layout }
    }

    /// Replaces the layout the router follows.
    pub fn update_layout(&mut self, layout: WorkspaceLayout)
        ensures
            final(self).local_machine_id == old(self).local_machine_id,
            final(self).layout@ == layout@,
    {
        self.layout = layout;
    }

    fn crossing(&self, at_edge: bool, edge: Edge) -> (r: Option<(u128, Edge)>)
        ensures
            r == crossing_at(self.layout@, self.local_machine_id, at_edge, edge),
    {
        if at_edge {
            if let Some(n) = self.layout.neighbor_at_edge(self.local_machine_id, edge) {
                return Some((n.machine_id, edge));
            }
        }
        None
    }

    /// Which neighbour the pointer crosses to, given which screen edges it is
    /// at (within the caller's threshold): the neighbour's id and the edge it
    /// leaves by.
    pub fn check_edge_cross(&self, at_right: bool, at_left: bool, at_bottom: bool, at_top: bool) -> (r:
        Option<(u128, Edge)>)
        ensures
            r == spec_edge_cross(
                self.layout@,
                self.local_machine_id,
                at_right,
                at_left,
                at_bottom,
                at_top,
            ),
    {
        let right = self.crossing(at_right, Edge::Right);
        if right.is_some() {
            return right;
        }
        let left = self.crossing(at_left, Edge::Left);
        if left.is_some() {
            return left;
        }
        let bottom = self.crossing(at_bottom, Edge::Bottom);
        if bottom.is_some() {
            return bottom;
        }
        self.crossing(at_top, Edge::Top)
    }
}

/// Law: in a consistent layout the pointer only ever crosses to another
/// machine, never back to the local one; a machine alone in the layout
/// crosses nowhere.
pub proof fn lemma_never_crosses_to_self(
    ms: Seq<MachineView>,
    id: u128,
    at_right: bool,
    at_left: bool,
    at_bottom: bool,
    at_top: bool,
)
    requires
        is_consistent(ms),
    ensures
        spec_edge_cross(ms, id, at_right, at_left, at_bottom, at_top) matches Some(c) ==> c.0 != id,
{
    if neighbor_index(ms, id, Edge::Right) is Some {
        lemma_neighbors_are_mutual(ms, id, Edge::Right);
    }
    if neighbor_index(ms, id, Edge::Left) is Some {
        lemma_neighbors_are_mutual(ms, id, Edge::Left);
    }
    if neighbor_index(ms, id, Edge::Bottom) is Some {
        lemma_neighbors_are_mutual(ms, id, Edge::Bottom);
    }
    if neighbor_index(ms, id, Edge::Top) is Some {
        lemma_neighbors_are_mutual(ms, id, Edge::Top);
    }
}

/// Law: whenever the layout has a neighbour across an edge, a pointer at that
/// edge alone crosses to that neighbour, across that edge; this holds for all
/// four edges.
pub proof fn lemma_every_neighbour_is_reachable(ms: Seq<MachineView>, id: u128, e: Edge, j: int)
    requires
        neighbor_index(ms, id, e) == Some(j),
    ensures
        spec_edge_cross(
            ms,
            id,
            e == Edge::Right,
            e == Edge::Left,
            e == Edge::Bottom,
            e == Edge::Top,
        ) == Some((ms[j].machine_id, e)),
{
}

} // verus!
