use vstd::prelude::*;

use crate::direction::Direction;
use crate::errors::TrafficError;

verus! {

/// Scale of the fixed-point turn probabilities: a stored value `p` stands
/// for the probability `p / PROB_SCALE`, so the representable range `[0, 1]`
/// is the stored range `[0, PROB_SCALE]`.
pub const PROB_SCALE: u32 = 1000;

/// Per-intersection turning probabilities: for every ordered pair of
/// distinct real directions `(incoming, outgoing)` the table holds the
/// probability, in units of `1 / PROB_SCALE`, that traffic arriving from
/// `incoming` continues out via `outgoing`. Rows need not sum to one.
#[derive(Debug, Clone, Copy, PartialEq, Eq, Structural)]
pub struct DirectionProbability {
    pub right_left: u32,
    pub right_down: u32,
    pub right_up: u32,
    pub left_up: u32,
    pub left_down: u32,
    pub left_right: u32,
    pub up_down: u32,
    pub up_left: u32,
    pub up_right: u32,
    pub down_right: u32,
    pub down_left: u32,
    pub down_up: u32,
}

impl DirectionProbability {
    /// Every entry is a real probability: at most `PROB_SCALE`.
    pub open spec fn wf(self) -> bool {
        &&& self.right_left <= PROB_SCALE
        &&& self.right_down <= PROB_SCALE
        &&& self.right_up <= PROB_SCALE
        &&& self.left_up <= PROB_SCALE
        &&& self.left_down <= PROB_SCALE
        &&& self.left_right <= PROB_SCALE
        &&& self.up_down <= PROB_SCALE
        &&& self.up_left <= PROB_SCALE
        &&& self.up_right <= PROB_SCALE
        &&& self.down_right <= PROB_SCALE
        &&& self.down_left <= PROB_SCALE
        &&& self.down_up <= PROB_SCALE
    }

    /// The default turning table every intersection starts with.
    pub open spec fn default_table() -> DirectionProbability {
        DirectionProbability {
            right_left: 300,
            right_down: 200,
            right_up: 400,
            left_up: 500,
            left_down: 800,
            left_right: 600,
            up_down: 800,
            up_left: 600,
            up_right: 300,
            down_right: 100,
            down_left: 0,
            down_up: 700,
        }
    }

    /// The table entry for the ordered pair `(from, to)`; pairs outside the
    /// twelve listed ones (including `from == to` and any pair involving
    /// `EndOfMap`) yield zero.
    pub open spec fn spec_probability(self, from: Direction, to: Direction) -> u32 {
        match (from, to) {
            (Direction::RIGHT, Direction::LEFT) => self.right_left,
            (Direction::RIGHT, Direction::DOWN) => self.right_down,
            (Direction::RIGHT, Direction::UP) => self.right_up,
            (Direction::LEFT, Direction::UP) => self.left_up,
            (Direction::LEFT, Direction::DOWN) => self.left_down,
            (Direction::LEFT, Direction::RIGHT) => self.left_right,
            (Direction::UP, Direction::DOWN) => self.up_down,
            (Direction::UP, Direction::LEFT) => self.up_left,
            (Direction::UP, Direction::RIGHT) => self.up_right,
            (Direction::DOWN, Direction::RIGHT) => self.down_right,
            (Direction::DOWN, Direction::LEFT) => self.down_left,
            (Direction::DOWN, Direction::UP) => self.down_up,
            _ => 0,
        }
    }

    /// The table with the entry for `(from, to)` replaced by `value`; pairs
    /// outside the twelve listed ones leave the table unchanged.
    pub open spec fn spec_with_probability(
        self,
        from: Direction,
        to: Direction,
        value: u32,
    ) -> DirectionProbability {
        match (from, to) {
            (Direction::RIGHT, Direction::LEFT) => DirectionProbability { right_left: value, ..self },
            (Direction::RIGHT, Direction::DOWN) => DirectionProbability { right_down: value, ..self },
            (Direction::RIGHT, Direction::UP) => DirectionProbability { right_up: value, ..self },
            (Direction::LEFT, Direction::UP) => DirectionProbability { left_up: value, ..self },
            (Direction::LEFT, Direction::DOWN) => DirectionProbability { left_down: value, ..self },
            (Direction::LEFT, Direction::RIGHT) => DirectionProbability { left_right: value, ..self },
            (Direction::UP, Direction::DOWN) => DirectionProbability { up_down: value, ..self },
            (Direction::UP, Direction::LEFT) => DirectionProbability { up_left: value, ..self },
            (Direction::UP, Direction::RIGHT) => DirectionProbability { up_right: value, ..self },
            (Direction::DOWN, Direction::RIGHT) => DirectionProbability { down_right: value, ..self },
            (Direction::DOWN, Direction::LEFT) => DirectionProbability { down_left: value, ..self },
            (Direction::DOWN, Direction::UP) => DirectionProbability { down_up: value, ..self },
            _ => self,
        }
    }

    /// Builds the default turning table.
    pub fn new() -> (r: Self)
        ensures
            r == Self::default_table(),
            r.wf(),
    {
        DirectionProbability {
            right_left: 300,
            right_down: 200,
            right_up: 400,
            left_up: 500,
            left_down: 800,
            left_right: 600,
            up_down: 800,
            up_left: 600,
            up_right: 300,
            down_right: 100,
            down_left: 0,
            down_up: 700,
        }
    }

    /// Looks up the turning probability for the ordered pair `(from, to)`.
    /// Total: pairs not in the table yield zero.
    pub fn get_probability(&self, from: Direction, to: Direction) -> (r: u32)
        ensures
            r == self.spec_probability(from, to),
    {
        match (from, to) {
            (Direction::RIGHT, Direction::LEFT) => self.right_left,
            (Direction::RIGHT, Direction::DOWN) => self.right_down,
            (Direction::RIGHT, Direction::UP) => self.right_up,
            (Direction::LEFT, Direction::UP) => self.left_up,
            (Direction::LEFT, Direction::DOWN) => self.left_down,
            (Direction::LEFT, Direction::RIGHT) => self.left_right,
            (Direction::UP, Direction::DOWN) => self.up_down,
            (Direction::UP, Direction::LEFT) => self.up_left,
            (Direction::UP, Direction::RIGHT) => self.up_right,
            (Direction::DOWN, Direction::RIGHT) => self.down_right,
            (Direction::DOWN, Direction::LEFT) => self.down_left,
            (Direction::DOWN, Direction::UP) => self.down_up,
            _ => 0,
        }
    }

    /// Checks that every entry is a real probability (at most `PROB_SCALE`).
    pub fn is_valid(&self) -> (r: bool)
        ensures
            r == self.wf(),
    {
        self.right_left <= PROB_SCALE && self.right_down <= PROB_SCALE && self.right_up
            <= PROB_SCALE && self.left_up <= PROB_SCALE && self.left_down <= PROB_SCALE
            && self.left_right <= PROB_SCALE && self.up_down <= PROB_SCALE && self.up_left
            <= PROB_SCALE && self.up_right <= PROB_SCALE && self.down_right <= PROB_SCALE
            && self.down_left <= PROB_SCALE && self.down_up <= PROB_SCALE
    }

    /// Overwrites the entry for `(from, to)`, rejecting values above
    /// `PROB_SCALE` (probabilities above one) with `InvalidProbability`.
    /// A pair not in the table is left unchanged and reported as success.
    pub fn set_probability(
        &mut self,
        from: Direction,
        to: Direction,
        value: u32,
    ) -> (r: Result<(), TrafficError>)
        ensures
            value > PROB_SCALE ==> r == Err::<(), TrafficError>(TrafficError::InvalidProbability)
                && *final(self) == *old(self),
            value <= PROB_SCALE ==> r == Ok::<(), TrafficError>(())
                && *final(self) == old(self).spec_with_probability(from, to, value),
            old(self).wf() && value <= PROB_SCALE ==> final(self).wf(),
    {
        if value > PROB_SCALE {
            return Err(TrafficError::InvalidProbability);
        }
        match (from, to) {
            (Direction::RIGHT, Direction::LEFT) => self.right_left = value,
            (Direction::RIGHT, Direction::DOWN) => self.right_down = value,
            (Direction::RIGHT, Direction::UP) => self.right_up = value,
            (Direction::LEFT, Direction::UP) => self.left_up = value,
            (Direction::LEFT, Direction::DOWN) => self.left_down = value,
            (Direction::LEFT, Direction::RIGHT) => self.left_right = value,
            (Direction::UP, Direction::DOWN) => self.up_down = value,
            (Direction::UP, Direction::LEFT) => self.up_left = value,
            (Direction::UP, Direction::RIGHT) => self.up_right = value,
            (Direction::DOWN, Direction::RIGHT) => self.down_right = value,
            (Direction::DOWN, Direction::LEFT) => self.down_left = value,
            (Direction::DOWN, Direction::UP) => self.down_up = value,
            _ => {}
        }
        Ok(())
    }
}

/// Per-intersection baseline vehicle counts arriving at and leaving the
/// intersection for each real direction, independent of the graph structure.
#[derive(Debug, Clone, Copy, PartialEq, Eq, Structural)]
pub struct DirectionDensity {
    pub arriving_up: u32,
    pub arriving_down: u32,
    pub leaving_up: u32,
    pub leaving_down: u32,
    pub arriving_right: u32,
    pub arriving_left: u32,
    pub leaving_right: u32,
    pub leaving_left: u32,
}

impl DirectionDensity {
    /// The default density table every intersection starts with.
    pub open spec fn default_table() -> DirectionDensity {
        DirectionDensity {
            arriving_up: 2,
            arriving_down: 3,
            leaving_up: 4,
            leaving_down: 5,
            arriving_right: 6,
            arriving_left: 7,
            leaving_right: 5,
            leaving_left: 3,
        }
    }

    /// The baseline arriving count for `direction`; `EndOfMap` has no
    /// density and yields zero.
    pub open spec fn spec_arriving(self, direction: Direction) -> u32 {
        match direction {
            Direction::UP => self.arriving_up,
            Direction::DOWN => self.arriving_down,
            Direction::RIGHT => self.arriving_right,
            Direction::LEFT => self.arriving_left,
            Direction::EndOfMap => 0,
        }
    }

    /// The baseline leaving count for `direction`; `EndOfMap` has no
    /// density and yields zero.
    pub open spec fn spec_leaving(self, direction: Direction) -> u32 {
        match direction {
            Direction::UP => self.leaving_up,
            Direction::DOWN => self.leaving_down,
            Direction::RIGHT => self.leaving_right,
            Direction::LEFT => self.leaving_left,
            Direction::EndOfMap => 0,
        }
    }

    /// Builds the default density table.
    pub fn new() -> (r: Self)
        ensures
            r == Self::default_table(),
    {
        DirectionDensity {
            arriving_up: 2,
            arriving_down: 3,
            leaving_up: 4,
            leaving_down: 5,
            arriving_right: 6,
            arriving_left: 7,
            leaving_right: 5,
            leaving_left: 3,
        }
    }

    /// Looks up the baseline arriving count; total, with zero for `EndOfMap`.
    pub fn get_arriving(&self, direction: Direction) -> (r: u32)
        ensures
            r == self.spec_arriving(direction),
    {
        match direction {
            Direction::UP => self.arriving_up,
            Direction::DOWN => self.arriving_down,
            Direction::RIGHT => self.arriving_right,
            Direction::LEFT => self.arriving_left,
            Direction::EndOfMap => 0,
        }
    }

    /// Looks up the baseline leaving count; total, with zero for `EndOfMap`.
    pub fn get_leaving(&self, direction: Direction) -> (r: u32)
        ensures
            r == self.spec_leaving(direction),
    {
        match direction {
            Direction::UP => self.leaving_up,
            Direction::DOWN => self.leaving_down,
            Direction::RIGHT => self.leaving_right,
            Direction::LEFT => self.leaving_left,
            Direction::EndOfMap => 0,
        }
    }
}

/// The optional neighbor of an intersection in each real direction; `None`
/// means no road leaves the intersection that way. `EndOfMap` never has a
/// neighbor.
#[derive(Debug, Clone, Copy, PartialEq, Eq)]
pub struct NodeConnections {
    pub right: Option<usize>,
    pub left: Option<usize>,
    pub up: Option<usize>,
    pub down: Option<usize>,
}

impl NodeConnections {
    /// The neighbor recorded for `direction`, if any; `EndOfMap` has none.
    pub open spec fn spec_get(self, direction: Direction) -> Option<usize> {
        match direction {
            Direction::RIGHT => self.right,
            Direction::LEFT => self.left,
            Direction::UP => self.up,
            Direction::DOWN => self.down,
            Direction::EndOfMap => None,
        }
    }

    /// The connection table with the entry for `direction` replaced by
    /// `Some(id)`; setting `EndOfMap` leaves the table unchanged.
    pub open spec fn spec_set(self, direction: Direction, id: usize) -> NodeConnections {
        match direction {
            Direction::RIGHT => NodeConnections { right: Some(id), ..self },
            Direction::LEFT => NodeConnections { left: Some(id), ..self },
            Direction::UP => NodeConnections { up: Some(id), ..self },
            Direction::DOWN => NodeConnections { down: Some(id), ..self },
            Direction::EndOfMap => self,
        }
    }

    /// Builds an empty connection table: no neighbor in any direction.
    pub fn new() -> (r: Self)
        ensures
            r == (NodeConnections { right: None::<usize>, left: None::<usize>, up: None::<usize>, down: None::<usize> }),
    {
        NodeConnections { right: None, left: None, up: None, down: None }
    }
}

/// One intersection of the grid: its id (its row-major position), its
/// turning-probability table, its baseline density table, and its recorded
/// neighbors. Intersections reference each other only by id.
#[derive(Debug, Clone, Copy, PartialEq, Eq)]
pub struct Node {
    pub id: usize,
    pub node_prob: DirectionProbability,
    pub directional_traffic: DirectionDensity,
    pub connections: NodeConnections,
}

impl Node {
    /// A fresh intersection: default tables, no connections.
    pub open spec fn spec_new(id: usize) -> Node {
        Node {
            id,
            node_prob: DirectionProbability::default_table(),
            directional_traffic: DirectionDensity::default_table(),
            connections: NodeConnections { right: None, left: None, up: None, down: None },
        }
    }

    /// Builds a fresh intersection with the default probability and density
    /// tables and no connections.
    pub fn new(id: usize) -> (r: Self)
        ensures
            r == Node::spec_new(id),
    {
        Node {
            id,
            node_prob: DirectionProbability::new(),
            directional_traffic: DirectionDensity::new(),
            connections: NodeConnections::new(),
        }
    }

    /// Returns the neighbor id recorded for `direction`, or `None` when no
    /// road exists that way. An absent connection is a normal state, not a
    /// failure.
    pub fn get_connection(&self, direction: Direction) -> (r: Option<usize>)
        ensures
            r == self.connections.spec_get(direction),
    {
        match direction {
            Direction::RIGHT => self.connections.right,
            Direction::LEFT => self.connections.left,
            Direction::UP => self.connections.up,
            Direction::DOWN => self.connections.down,
            Direction::EndOfMap => None,
        }
    }

    /// The node with its baseline density for `direction` overwritten by
    /// `(arriving, leaving)`; `EndOfMap` leaves the node unchanged.
    pub open spec fn spec_set_traffic(
        self,
        direction: Direction,
        arriving: u32,
        leaving: u32,
    ) -> Node {
        match direction {
            Direction::UP => Node {
                directional_traffic: DirectionDensity {
                    arriving_up: arriving,
                    leaving_up: leaving,
                    ..self.directional_traffic
                },
                ..self
            },
            Direction::DOWN => Node {
                directional_traffic: DirectionDensity {
                    arriving_down: arriving,
                    leaving_down: leaving,
                    ..self.directional_traffic
                },
                ..self
            },
            Direction::RIGHT => Node {
                directional_traffic: DirectionDensity {
                    arriving_right: arriving,
                    leaving_right: leaving,
                    ..self.directional_traffic
                },
                ..self
            },
            Direction::LEFT => Node {
                directional_traffic: DirectionDensity {
                    arriving_left: arriving,
                    leaving_left: leaving,
                    ..self.directional_traffic
                },
                ..self
            },
            Direction::EndOfMap => self,
        }
    }

    /// Overwrites the baseline density for a real direction; a no-op for
    /// `EndOfMap`. Values are not constrained beyond their type.
    pub fn set_traffic(&mut self, direction: Direction, arriving: u32, leaving: u32)
        ensures
            *final(self) == old(self).spec_set_traffic(direction, arriving, leaving),
    {
        match direction {
            Direction::UP => {
                self.directional_traffic.arriving_up = arriving;
                self.directional_traffic.leaving_up = leaving;
            }
            Direction::DOWN => {
                self.directional_traffic.arriving_down = arriving;
                self.directional_traffic.leaving_down = leaving;
            }
            Direction::RIGHT => {
                self.directional_traffic.arriving_right = arriving;
                self.directional_traffic.leaving_right = leaving;
            }
            Direction::LEFT => {
                self.directional_traffic.arriving_left = arriving;
                self.directional_traffic.leaving_left = leaving;
            }
            Direction::EndOfMap => {}
        }
    }

    /// The node with the connection for `direction` replaced by `Some(to_id)`;
    /// `EndOfMap` leaves the node unchanged.
    pub open spec fn spec_with_connection(self, direction: Direction, to_id: usize) -> Node {
        Node { connections: self.connections.spec_set(direction, to_id), ..self }
    }

    /// Records `Some(to_id)` as the neighbor in `direction`, replacing any
    /// previous neighbor; a no-op for `EndOfMap`.
    pub fn set_connection(&mut self, direction: Direction, to_id: usize)
        ensures
            *final(self) == old(self).spec_with_connection(direction, to_id),
    {
        match direction {
            Direction::RIGHT => self.connections.right = Some(to_id),
            Direction::LEFT => self.connections.left = Some(to_id),
            Direction::UP => self.connections.up = Some(to_id),
            Direction::DOWN => self.connections.down = Some(to_id),
            Direction::EndOfMap => {}
        }
    }
}

} // verus!
