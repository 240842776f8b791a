use vstd::prelude::*;

use crate::direction::Direction;
use crate::errors::TrafficError;
use crate::node::{DirectionDensity, DirectionProbability, Node, NodeConnections, PROB_SCALE};

verus! {

/// The fixed cap on the recursion depth of traffic prediction.
pub const MAX_VIEW_LEVEL: u32 = 5;

/// A connection target is either absent or a valid intersection id.
pub open spec fn conn_wf(conn: Option<usize>, len: nat) -> bool {
    match conn {
        Some(t) => t < len,
        None => true,
    }
}

/// A single intersection is well formed with respect to an intersection
/// count `len`: its probability table holds real probabilities and every
/// recorded neighbor id is in range.
pub open spec fn node_wf(node: Node, len: nat) -> bool {
    &&& node.node_prob.wf()
    &&& conn_wf(node.connections.right, len)
    &&& conn_wf(node.connections.left, len)
    &&& conn_wf(node.connections.up, len)
    &&& conn_wf(node.connections.down, len)
}

/// Every intersection carries its own row-major position as id and is well
/// formed with respect to the intersection count.
pub open spec fn nodes_wf(nodes: Seq<Node>) -> bool {
    forall|i: int|
        0 <= i < nodes.len() ==> (#[trigger] nodes[i]).id == i && node_wf(
            nodes[i],
            nodes.len(),
        )
}

/// The three real directions other than `direction`, in the order the
/// engine examines them as incoming roads; `EndOfMap` has no incoming
/// directions and yields a triple of `EndOfMap` (which never carries a
/// connection).
pub open spec fn spec_incoming(direction: Direction) -> (Direction, Direction, Direction) {
    match direction {
        Direction::RIGHT => (Direction::LEFT, Direction::DOWN, Direction::UP),
        Direction::LEFT => (Direction::RIGHT, Direction::DOWN, Direction::UP),
        Direction::UP => (Direction::DOWN, Direction::RIGHT, Direction::LEFT),
        Direction::DOWN => (Direction::UP, Direction::RIGHT, Direction::LEFT),
        Direction::EndOfMap => (Direction::EndOfMap, Direction::EndOfMap, Direction::EndOfMap),
    }
}

/// The predicted traffic exiting intersection `node_id` in `direction`,
/// propagated over at most `depth` hops, with `visited` the ids already on
/// the current recursion path.
///
/// At depth zero, or on an id already on the path, the prediction is zero —
/// even the node's own baseline arrivals are not counted. Otherwise it is
/// the node's baseline arrivals in `direction` plus, for each connected
/// incoming direction, the probability-scaled (and per-level truncated)
/// prediction of the neighbor in that same incoming direction.
pub open spec fn spec_predict(
    nodes: Seq<Node>,
    node_id: int,
    direction: Direction,
    depth: nat,
    visited: Set<int>,
) -> nat
    decreases depth, 0nat,
{
    if depth == 0 || visited.contains(node_id) {
        0
    } else {
        let node = nodes[node_id];
        let on_path = visited.insert(node_id);
        let inc = spec_incoming(direction);
        node.directional_traffic.spec_arriving(direction) as nat + spec_contribution(
            nodes,
            node,
            inc.0,
            direction,
            (depth - 1) as nat,
            on_path,
        ) + spec_contribution(nodes, node, inc.1, direction, (depth - 1) as nat, on_path)
            + spec_contribution(nodes, node, inc.2, direction, (depth - 1) as nat, on_path)
    }
}

/// The contribution of the neighbor of `node` in `incoming` to the traffic
/// exiting `node` in `direction`: the neighbor's own prediction in
/// `incoming`, scaled by the turning probability and truncated toward zero.
/// No connection contributes nothing.
pub open spec fn spec_contribution(
    nodes: Seq<Node>,
    node: Node,
    incoming: Direction,
    direction: Direction,
    depth: nat,
    visited: Set<int>,
) -> nat
    decreases depth, 1nat,
{
    match node.connections.spec_get(incoming) {
        None => 0,
        Some(neighbor) => ((node.node_prob.spec_probability(incoming, direction) as int
            * spec_predict(nodes, neighbor as int, incoming, depth, visited) as int) / (
        PROB_SCALE as int)) as nat,
    }
}

/// Zero depth yields a zero prediction for every intersection, direction
/// and path — the starting node's own arrivals are not counted either.
pub proof fn lemma_predict_depth_zero(
    nodes: Seq<Node>,
    node_id: int,
    direction: Direction,
    visited: Set<int>,
)
    ensures
        spec_predict(nodes, node_id, direction, 0, visited) == 0,
{
}

/// How far a prediction can grow per level of depth, as a multiple of the
/// largest baseline count: each level adds the node's own baseline plus up
/// to three undiminished neighbor contributions.
pub open spec fn growth_cap(depth: nat) -> nat
    decreases depth,
{
    if depth == 0 {
        0
    } else {
        1 + 3 * growth_cap((depth - 1) as nat)
    }
}

/// Within the fixed view-level cap the growth factor never exceeds 121.
pub proof fn lemma_growth_cap_at_most(depth: nat)
    requires
        depth <= MAX_VIEW_LEVEL,
    ensures
        growth_cap(depth) <= 121,
{
    assert(growth_cap(0) == 0);
    assert(growth_cap(1) == 1);
    assert(growth_cap(2) == 4);
    assert(growth_cap(3) == 13);
    assert(growth_cap(4) == 40);
    assert(growth_cap(5) == 121);
}

/// Scaling a count by a probability of at most one, with truncation toward
/// zero, never increases the count and never goes negative.
pub proof fn lemma_scaled_le(p: int, x: int)
    requires
        0 <= p <= PROB_SCALE,
        0 <= x,
    ensures
        0 <= (p * x) / (PROB_SCALE as int) <= x,
{
    vstd::arithmetic::mul::lemma_mul_inequality(p, PROB_SCALE as int, x);
    vstd::arithmetic::div_mod::lemma_div_is_ordered(
        p * x,
        (PROB_SCALE as int) * x,
        PROB_SCALE as int,
    );
    vstd::arithmetic::div_mod::lemma_div_multiples_vanish(x, PROB_SCALE as int);
    vstd::arithmetic::mul::lemma_mul_nonnegative(p, x);
    vstd::arithmetic::div_mod::lemma_div_pos_is_pos(p * x, PROB_SCALE as int);
}

/// A prediction over a well-formed node sequence is bounded by the growth
/// factor of its depth times the largest baseline count, so the engine's
/// 64-bit arithmetic cannot overflow.
pub proof fn lemma_predict_bounded(
    nodes: Seq<Node>,
    node_id: int,
    direction: Direction,
    depth: nat,
    visited: Set<int>,
)
    requires
        nodes_wf(nodes),
        0 <= node_id < nodes.len(),
    ensures
        spec_predict(nodes, node_id, direction, depth, visited) <= growth_cap(depth) * (
        u32::MAX as nat),
    decreases depth, 0nat,
{
    if depth == 0 || visited.contains(node_id) {
    } else {
        let node = nodes[node_id];
        assert(node_wf(node, nodes.len()));
        let inc = spec_incoming(direction);
        let on_path = visited.insert(node_id);
        let d1 = (depth - 1) as nat;
        lemma_contribution_bounded(nodes, node, inc.0, direction, d1, on_path);
        lemma_contribution_bounded(nodes, node, inc.1, direction, d1, on_path);
        lemma_contribution_bounded(nodes, node, inc.2, direction, d1, on_path);
        let m = u32::MAX as int;
        let g = growth_cap(d1) as int;
        assert(growth_cap(depth) == 1 + 3 * growth_cap(d1));
        assert(m + 3 * (g * m) == (1 + 3 * g) * m) by (nonlinear_arith);
    }
}

/// One neighbor's contribution is bounded by the growth factor of the
/// remaining depth times the largest baseline count.
pub proof fn lemma_contribution_bounded(
    nodes: Seq<Node>,
    node: Node,
    incoming: Direction,
    direction: Direction,
    depth: nat,
    visited: Set<int>,
)
    requires
        nodes_wf(nodes),
        node_wf(node, nodes.len()),
    ensures
        spec_contribution(nodes, node, incoming, direction, depth, visited) <= growth_cap(depth)
            * (u32::MAX as nat),
    decreases depth, 1nat,
{
    match node.connections.spec_get(incoming) {
        None => {
            vstd::arithmetic::mul::lemma_mul_nonnegative(
                growth_cap(depth) as int,
                u32::MAX as int,
            );
        },
        Some(neighbor) => {
            lemma_predict_bounded(nodes, neighbor as int, incoming, depth, visited);
            let p = node.node_prob.spec_probability(incoming, direction) as int;
            let sub = spec_predict(nodes, neighbor as int, incoming, depth, visited) as int;
            assert(p <= PROB_SCALE);
            lemma_scaled_le(p, sub);
        },
    }
}

/// The set of ids marked true in a visited buffer: the ids on the current
/// recursion path.
pub open spec fn visited_set(s: Seq<bool>) -> Set<int> {
    Set::new(|i: int| 0 <= i < s.len() && s[i])
}

/// The three real directions other than `direction`, in the order the
/// engine examines them.
fn incoming_directions(direction: Direction) -> (r: (Direction, Direction, Direction))
    ensures
        r == spec_incoming(direction),
{
    match direction {
        Direction::RIGHT => (Direction::LEFT, Direction::DOWN, Direction::UP),
        Direction::LEFT => (Direction::RIGHT, Direction::DOWN, Direction::UP),
        Direction::UP => (Direction::DOWN, Direction::RIGHT, Direction::LEFT),
        Direction::DOWN => (Direction::UP, Direction::RIGHT, Direction::LEFT),
        Direction::EndOfMap => (Direction::EndOfMap, Direction::EndOfMap, Direction::EndOfMap),
    }
}

/// The grid of intersections: `rows * cols` nodes in row-major order
/// (`id == row * cols + col`), with the dimensions fixed at construction.
#[derive(Debug)]
pub struct TrafficNetwork {
    pub nodes: Vec<Node>,
    pub rows: usize,
    pub cols: usize,
}

impl TrafficNetwork {
    /// The network invariant: the node count matches the grid dimensions
    /// and every node is well formed.
    pub open spec fn wf(self) -> bool {
        &&& self.nodes@.len() == self.rows * self.cols
        &&& nodes_wf(self.nodes@)
    }

    /// The grid row of intersection `id`.
    pub open spec fn spec_row(self, id: usize) -> int {
        id as int / self.cols as int
    }

    /// The grid column of intersection `id`.
    pub open spec fn spec_col(self, id: usize) -> int {
        id as int % self.cols as int
    }

    /// Whether connecting `from_id` to `to_id` via `direction` agrees with
    /// the row-major grid arithmetic. `EndOfMap` is always accepted (and
    /// performs no connection).
    pub open spec fn spec_connection_valid(
        self,
        from_id: usize,
        to_id: usize,
        direction: Direction,
    ) -> bool {
        match direction {
            Direction::RIGHT => self.spec_col(to_id) == self.spec_col(from_id) + 1,
            Direction::LEFT => self.spec_col(from_id) > 0 && self.spec_col(to_id) == self.spec_col(
                from_id,
            ) - 1,
            Direction::DOWN => self.spec_row(to_id) == self.spec_row(from_id) + 1,
            Direction::UP => self.spec_row(from_id) > 0 && self.spec_row(to_id) == self.spec_row(
                from_id,
            ) - 1,
            Direction::EndOfMap => true,
        }
    }

    /// Whether both ids are valid and `from_id` records `to_id` as its
    /// neighbor in `direction`.
    pub open spec fn spec_is_linked(
        self,
        from_id: usize,
        to_id: usize,
        direction: Direction,
    ) -> bool {
        &&& from_id < self.nodes@.len()
        &&& to_id < self.nodes@.len()
        &&& self.nodes@[from_id as int].connections.spec_get(direction) == Some(to_id)
    }

    /// Builds a `rows x cols` network of fresh intersections with default
    /// tables and no connections.
    pub fn new(rows: usize, cols: usize) -> (r: Self)
        requires
            rows * cols <= usize::MAX,
        ensures
            r.wf(),
            r.rows == rows,
            r.cols == cols,
            r.nodes@.len() == rows * cols,
            forall|i: int| 0 <= i < r.nodes@.len() ==> r.nodes@[i] == Node::spec_new(i as usize),
    {
        let count = rows * cols;
        let mut nodes: Vec<Node> = Vec::new();
        let mut id: usize = 0;
        while id < count
            invariant
                id <= count,
                nodes@.len() == id as int,
                forall|i: int| 0 <= i < id as int ==> nodes@[i] == Node::spec_new(i as usize),
            decreases count - id,
        {
            nodes.push(Node::new(id));
            id = id + 1;
        }
        let r = TrafficNetwork { nodes, rows, cols };
        proof {
            assert(DirectionProbability::default_table().wf());
            assert forall|i: int| 0 <= i < r.nodes@.len() implies (#[trigger] r.nodes@[i]).id == i
                && node_wf(r.nodes@[i], r.nodes@.len()) by {
                assert(r.nodes@[i] == Node::spec_new(i as usize));
            }
        }
        r
    }

    /// Establishes the road "`from_id` exits in `direction` and arrives at
    /// `to_id`", recording the connection on both endpoints: `direction ->
    /// to_id` on the `from` node and `opposite(direction) -> from_id` on the
    /// `to` node. Reconnecting a direction replaces the previous neighbor.
    ///
    /// Validation, in order: both ids must be in range, else
    /// `IndexOutOfBounds`; the direction must agree with the row-major grid
    /// arithmetic, else `InvalidRoadConnection`; `EndOfMap` is always
    /// accepted and performs no connection. After a success with a real
    /// direction the two endpoints are linked in both directions.
    pub fn connect_nodes(
        &mut self,
        from_id: usize,
        to_id: usize,
        direction: Direction,
    ) -> (r: Result<(), TrafficError>)
        requires
            old(self).wf(),
        ensures
            final(self).wf(),
            final(self).rows == old(self).rows,
            final(self).cols == old(self).cols,
            final(self).nodes@.len() == old(self).nodes@.len(),
            match r {
                Ok(()) => {
                    &&& from_id < old(self).nodes@.len()
                    &&& to_id < old(self).nodes@.len()
                    &&& old(self).spec_connection_valid(from_id, to_id, direction)
                    &&& if direction == Direction::EndOfMap {
                        *final(self) == *old(self)
                    } else {
                        &&& from_id != to_id
                        &&& final(self).nodes@[from_id as int] == old(self).nodes@[
                            from_id as int
                        ].spec_with_connection(direction, to_id)
                        &&& final(self).nodes@[to_id as int] == old(self).nodes@[
                            to_id as int
                        ].spec_with_connection(direction.spec_opposite(), from_id)
                        &&& forall|i: int|
                            0 <= i < old(self).nodes@.len() && i != from_id && i != to_id
                                ==> final(self).nodes@[i] == old(self).nodes@[i]
                        &&& final(self).spec_is_linked(from_id, to_id, direction)
                        &&& final(self).spec_is_linked(
                            to_id,
                            from_id,
                            direction.spec_opposite(),
                        )
                    }
                },
                Err(e) => {
                    &&& *final(self) == *old(self)
                    &&& if from_id >= old(self).nodes@.len() || to_id >= old(
                        self,
                    ).nodes@.len() {
                        e == TrafficError::IndexOutOfBounds
                    } else {
                        e == TrafficError::InvalidRoadConnection && !old(
                            self,
                        ).spec_connection_valid(from_id, to_id, direction)
                    }
                },
            },
    {
        if from_id >= self.nodes.len() || to_id >= self.nodes.len() {
            return Err(TrafficError::IndexOutOfBounds);
        }
        proof {
            if self.cols == 0 {
                assert(self.nodes@.len() == self.rows * 0);
                assert(self.rows * 0 == 0) by (nonlinear_arith);
            }
        }
        let from_row = from_id / self.cols;
        let from_col = from_id % self.cols;
        let to_row = to_id / self.cols;
        let to_col = to_id % self.cols;

        match direction {
            Direction::RIGHT => {
                if to_col != from_col + 1 {
                    return Err(TrafficError::InvalidRoadConnection);
                }
            },
            Direction::LEFT => {
                if from_col == 0 || to_col != from_col - 1 {
                    return Err(TrafficError::InvalidRoadConnection);
                }
            },
            Direction::DOWN => {
                if to_row != from_row + 1 {
                    return Err(TrafficError::InvalidRoadConnection);
                }
            },
            Direction::UP => {
                if from_row == 0 || to_row != from_row - 1 {
                    return Err(TrafficError::InvalidRoadConnection);
                }
            },
            Direction::EndOfMap => {
                return Ok(());
            },
        }

        let mut from_node = self.nodes[from_id];
        from_node.set_connection(direction, to_id);
        self.nodes.set(from_id, from_node);
        let opp = direction.opposite();
        let mut to_node = self.nodes[to_id];
        to_node.set_connection(opp, from_id);
        self.nodes.set(to_id, to_node);

        proof {
            let len = self.nodes@.len();
            assert forall|i: int|
                0 <= i < len implies (#[trigger] self.nodes@[i]).id == i && node_wf(
                self.nodes@[i],
                len,
            ) by {
                assert(old(self).nodes@[i].id == i && node_wf(old(self).nodes@[i], len));
            }
        }
        Ok(())
    }

    /// Builds a `rows x cols` network whose intersections all start with
    /// the probability and density tables supplied by the caller, instead
    /// of the defaults. A probability table with an entry above one (above
    /// `PROB_SCALE`) is rejected with `InvalidProbability`.
    pub fn with_tables(
        rows: usize,
        cols: usize,
        prob: DirectionProbability,
        density: DirectionDensity,
    ) -> (r: Result<Self, TrafficError>)
        requires
            rows * cols <= usize::MAX,
        ensures
            match r {
                Ok(network) => {
                    &&& prob.wf()
                    &&& network.wf()
                    &&& network.rows == rows
                    &&& network.cols == cols
                    &&& network.nodes@.len() == rows * cols
                    &&& forall|i: int|
                        0 <= i < network.nodes@.len() ==> network.nodes@[i] == (Node {
                            id: i as usize,
                            node_prob: prob,
                            directional_traffic: density,
                            connections: NodeConnections {
                                right: None,
                                left: None,
                                up: None,
                                down: None,
                            },
                        })
                },
                Err(e) => e == TrafficError::InvalidProbability && !prob.wf(),
            },
    {
        if !prob.is_valid() {
            return Err(TrafficError::InvalidProbability);
        }
        let count = rows * cols;
        let mut nodes: Vec<Node> = Vec::new();
        let mut id: usize = 0;
        while id < count
            invariant
                id <= count,
                nodes@.len() == id as int,
                forall|i: int|
                    0 <= i < id as int ==> nodes@[i] == (Node {
                        id: i as usize,
                        node_prob: prob,
                        directional_traffic: density,
                        connections: NodeConnections {
                            right: None,
                            left: None,
                            up: None,
                            down: None,
                        },
                    }),
            decreases count - id,
        {
            nodes.push(
                Node {
                    id,
                    node_prob: prob,
                    directional_traffic: density,
                    connections: NodeConnections::new(),
                },
            );
            id = id + 1;
        }
        let network = TrafficNetwork { nodes, rows, cols };
        proof {
            assert forall|i: int|
                0 <= i < network.nodes@.len() implies (#[trigger] network.nodes@[i]).id == i
                && node_wf(network.nodes@[i], network.nodes@.len()) by {}
        }
        Ok(network)
    }

    /// True iff `from_id` and `to_id` are both valid ids and `from_id`'s
    /// connection in `direction` equals `to_id`. Purely a lookup.
    pub fn is_linked(&self, from_id: usize, to_id: usize, direction: Direction) -> (r: bool)
        ensures
            r == self.spec_is_linked(from_id, to_id, direction),
    {
        if from_id >= self.nodes.len() || to_id >= self.nodes.len() {
            return false;
        }
        match self.nodes[from_id].get_connection(direction) {
            Some(connected_id) => connected_id == to_id,
            None => false,
        }
    }

    /// The contribution of the neighbor of `node` in `incoming` to the
    /// traffic exiting `node` in `direction`, computed by recursing one
    /// level deeper. Restores the visited buffer before returning.
    fn neighbor_contribution(
        &self,
        node: &Node,
        incoming: Direction,
        direction: Direction,
        view_level: u32,
        visited: &mut Vec<bool>,
    ) -> (r: u64)
        requires
            self.wf(),
            node_wf(*node, self.nodes@.len()),
            old(visited)@.len() == self.nodes@.len(),
            1 <= view_level <= MAX_VIEW_LEVEL,
        ensures
            final(visited)@ == old(visited)@,
            r == spec_contribution(
                self.nodes@,
                *node,
                incoming,
                direction,
                (view_level - 1) as nat,
                visited_set(old(visited)@),
            ),
            r <= 121 * (u32::MAX as u64),
        decreases view_level, 0nat,
    {
        match node.get_connection(incoming) {
            None => 0,
            Some(neighbor) => {
                let ghost d1 = (view_level - 1) as nat;
                let ghost path = visited_set(old(visited)@);
                let sub = self.calculate_traffic_recursive(
                    neighbor,
                    incoming,
                    view_level - 1,
                    visited,
                );
                let p = node.node_prob.get_probability(incoming, direction);
                proof {
                    lemma_predict_bounded(self.nodes@, neighbor as int, incoming, d1, path);
                    lemma_growth_cap_at_most(d1);
                    vstd::arithmetic::mul::lemma_mul_inequality(
                        growth_cap(d1) as int,
                        121,
                        u32::MAX as int,
                    );
                    assert(sub <= 121 * (u32::MAX as int));
                    assert(p <= PROB_SCALE);
                    lemma_scaled_le(p as int, sub as int);
                    vstd::arithmetic::mul::lemma_mul_inequality(
                        p as int,
                        PROB_SCALE as int,
                        sub as int,
                    );
                }
                (p as u64) * sub / (PROB_SCALE as u64)
            },
        }
    }

    /// The bounded, cycle-safe recursive core of traffic prediction: the
    /// predicted traffic exiting `node_id` in `direction` at the given
    /// remaining depth, with `visited` marking the ids on the current
    /// recursion path. The buffer is mutated on entry and restored on exit,
    /// so sibling branches never see each other's marks.
    fn calculate_traffic_recursive(
        &self,
        node_id: usize,
        direction: Direction,
        view_level: u32,
        visited: &mut Vec<bool>,
    ) -> (r: u64)
        requires
            self.wf(),
            node_id < self.nodes@.len(),
            old(visited)@.len() == self.nodes@.len(),
            view_level <= MAX_VIEW_LEVEL,
        ensures
            final(visited)@ == old(visited)@,
            r == spec_predict(
                self.nodes@,
                node_id as int,
                direction,
                view_level as nat,
                visited_set(old(visited)@),
            ),
        decreases view_level, 1nat,
    {
        if view_level == 0 {
            return 0;
        }
        if visited[node_id] {
            proof {
                assert(visited_set(old(visited)@).contains(node_id as int));
            }
            return 0;
        }
        let ghost pre = old(visited)@;
        let ghost on_path = visited_set(pre).insert(node_id as int);
        visited.set(node_id, true);
        proof {
            assert(visited_set(visited@) =~= on_path);
        }
        let node = self.nodes[node_id];
        proof {
            assert(node_wf(node, self.nodes@.len()));
        }
        let (inc0, inc1, inc2) = incoming_directions(direction);
        let mut total: u64 = node.directional_traffic.get_arriving(direction) as u64;
        let c0 = self.neighbor_contribution(&node, inc0, direction, view_level, visited);
        total = total + c0;
        let c1 = self.neighbor_contribution(&node, inc1, direction, view_level, visited);
        total = total + c1;
        let c2 = self.neighbor_contribution(&node, inc2, direction, view_level, visited);
        total = total + c2;
        visited.set(node_id, false);
        proof {
            assert(visited@ =~= pre);
            assert(!visited_set(pre).contains(node_id as int));
        }
        total
    }

    /// Predicts the traffic exiting `start_node` in `direction`, propagated
    /// over at most `view_level` hops.
    ///
    /// Fails with `MaxViewLevelReached` when `view_level` exceeds
    /// [`MAX_VIEW_LEVEL`], before any other work. A zero view level yields
    /// zero for any id. Otherwise an id at or beyond the intersection count
    /// fails with `IndexOutOfBounds`, and a valid id yields exactly the
    /// recursive prediction [`spec_predict`] started with an empty path.
    pub fn predict_traffic(
        &self,
        start_node: usize,
        direction: Direction,
        view_level: u32,
    ) -> (r: Result<u64, TrafficError>)
        requires
            self.wf(),
        ensures
            match r {
                Ok(v) => view_level <= MAX_VIEW_LEVEL && (view_level == 0 || start_node
                    < self.nodes@.len()) && v == spec_predict(
                    self.nodes@,
                    start_node as int,
                    direction,
                    view_level as nat,
                    Set::empty(),
                ),
                Err(e) => (view_level > MAX_VIEW_LEVEL && e == TrafficError::MaxViewLevelReached)
                    || (0 < view_level <= MAX_VIEW_LEVEL && start_node >= self.nodes@.len() && e
                    == TrafficError::IndexOutOfBounds),
            },
    {
        if view_level > MAX_VIEW_LEVEL {
            return Err(TrafficError::MaxViewLevelReached);
        }
        if view_level == 0 {
            return Ok(0);
        }
        if start_node >= self.nodes.len() {
            return Err(TrafficError::IndexOutOfBounds);
        }
        let len = self.nodes.len();
        let mut visited: Vec<bool> = Vec::new();
        let mut i: usize = 0;
        while i < len
            invariant
                i <= len,
                visited@.len() == i as int,
                forall|j: int| 0 <= j < i as int ==> !visited@[j],
            decreases len - i,
        {
            visited.push(false);
            i = i + 1;
        }
        proof {
            assert(visited_set(visited@) =~= Set::<int>::empty());
        }
        let r = self.calculate_traffic_recursive(start_node, direction, view_level, &mut visited);
        Ok(r)
    }

    /// Whether a prediction for `(node_id, view_level)` succeeds: the view
    /// level is within the cap and, unless it is zero, the id is valid.
    pub open spec fn spec_predict_ok(self, node_id: usize, view_level: u32) -> bool {
        view_level <= MAX_VIEW_LEVEL && (view_level == 0 || node_id < self.nodes@.len())
    }

    /// What `predict_traffic` yields for one direction, as an option:
    /// `None` exactly where the prediction fails.
    pub open spec fn spec_node_traffic(
        self,
        node_id: usize,
        direction: Direction,
        view_level: u32,
    ) -> Option<u64> {
        if self.spec_predict_ok(node_id, view_level) {
            Some(
                spec_predict(
                    self.nodes@,
                    node_id as int,
                    direction,
                    view_level as nat,
                    Set::empty(),
                ) as u64,
            )
        } else {
            None
        }
    }

    /// The peak predicted traffic of one intersection: the running maximum,
    /// starting from zero, of the predictions for the four real directions
    /// in the order RIGHT, LEFT, UP, DOWN — or zero if the view level is
    /// over the cap and every prediction fails.
    pub open spec fn spec_cell_density(self, node_id: int, view_level: u32) -> nat {
        if view_level <= MAX_VIEW_LEVEL && 0 <= node_id < self.nodes@.len() {
            spec_max(
                spec_max(
                    spec_max(
                        spec_max(
                            0,
                            spec_predict(
                                self.nodes@,
                                node_id,
                                Direction::RIGHT,
                                view_level as nat,
                                Set::empty(),
                            ),
                        ),
                        spec_predict(
                            self.nodes@,
                            node_id,
                            Direction::LEFT,
                            view_level as nat,
                            Set::empty(),
                        ),
                    ),
                    spec_predict(
                        self.nodes@,
                        node_id,
                        Direction::UP,
                        view_level as nat,
                        Set::empty(),
                    ),
                ),
                spec_predict(
                    self.nodes@,
                    node_id,
                    Direction::DOWN,
                    view_level as nat,
                    Set::empty(),
                ),
            )
        } else {
            0
        }
    }

    /// Computes, for every intersection, the maximum of the four
    /// directional predictions at `view_level`, as a `rows x cols` grid.
    /// A failing prediction (a view level over the cap) is skipped and
    /// leaves the running maximum — so then every cell is zero.
    pub fn get_traffic_density(&self, view_level: u32) -> (r: Vec<Vec<u64>>)
        requires
            self.wf(),
        ensures
            r@.len() == self.rows,
            forall|i: int| 0 <= i < r@.len() ==> (#[trigger] r@[i])@.len() == self.cols,
            forall|i: int, j: int|
                0 <= i < r@.len() && 0 <= j < self.cols ==> (#[trigger] r@[i]@[j])
                    == self.spec_cell_density(i * self.cols + j, view_level),
    {
        let _len: usize = self.nodes.len();
        proof {
            assert(self.rows * self.cols <= usize::MAX);
        }
        let mut density: Vec<Vec<u64>> = Vec::new();
        let mut row: usize = 0;
        while row < self.rows
            invariant
                self.wf(),
                self.rows * self.cols <= usize::MAX,
                row <= self.rows,
                density@.len() == row as int,
                forall|i: int|
                    0 <= i < row as int ==> (#[trigger] density@[i])@.len() == self.cols,
                forall|i: int, j: int|
                    0 <= i < row as int && 0 <= j < self.cols ==> (#[trigger] density@[i]@[j])
                        == self.spec_cell_density(i * self.cols + j, view_level),
            decreases self.rows - row,
        {
            let mut line: Vec<u64> = Vec::new();
            let mut col: usize = 0;
            proof {
                assert((row + 1) * self.cols <= self.rows * self.cols) by (nonlinear_arith)
                    requires
                        row < self.rows,
                ;
                assert(row * self.cols + self.cols == (row + 1) * self.cols) by (nonlinear_arith);
            }
            while col < self.cols
                invariant
                    self.wf(),
                    self.rows * self.cols <= usize::MAX,
                    row < self.rows,
                    col <= self.cols,
                    row * self.cols + self.cols <= self.rows * self.cols,
                    line@.len() == col as int,
                    forall|j: int|
                        0 <= j < col as int ==> (#[trigger] line@[j]) == self.spec_cell_density(
                            row as int * self.cols + j,
                            view_level,
                        ),
                decreases self.cols - col,
            {
                let node_id = row * self.cols + col;
                let mut cell: u64 = 0;
                match self.predict_traffic(node_id, Direction::RIGHT, view_level) {
                    Ok(t) => if t > cell {
                        cell = t;
                    },
                    Err(_) => {},
                }
                match self.predict_traffic(node_id, Direction::LEFT, view_level) {
                    Ok(t) => if t > cell {
                        cell = t;
                    },
                    Err(_) => {},
                }
                match self.predict_traffic(node_id, Direction::UP, view_level) {
                    Ok(t) => if t > cell {
                        cell = t;
                    },
                    Err(_) => {},
                }
                match self.predict_traffic(node_id, Direction::DOWN, view_level) {
                    Ok(t) => if t > cell {
                        cell = t;
                    },
                    Err(_) => {},
                }
                line.push(cell);
                col = col + 1;
            }
            density.push(line);
            row = row + 1;
        }
        density
    }

    /// Computes the prediction for `node_id` in each real direction,
    /// collecting successes and omitting failed directions ("fail open"):
    /// each field is `Some` exactly where `predict_traffic` succeeds.
    pub fn get_node_traffic(&self, node_id: usize, view_level: u32) -> (r: NodeTraffic)
        requires
            self.wf(),
        ensures
            r.right == self.spec_node_traffic(node_id, Direction::RIGHT, view_level),
            r.left == self.spec_node_traffic(node_id, Direction::LEFT, view_level),
            r.up == self.spec_node_traffic(node_id, Direction::UP, view_level),
            r.down == self.spec_node_traffic(node_id, Direction::DOWN, view_level),
    {
        let right = match self.predict_traffic(node_id, Direction::RIGHT, view_level) {
            Ok(t) => Some(t),
            Err(_) => None,
        };
        let left = match self.predict_traffic(node_id, Direction::LEFT, view_level) {
            Ok(t) => Some(t),
            Err(_) => None,
        };
        let up = match self.predict_traffic(node_id, Direction::UP, view_level) {
            Ok(t) => Some(t),
            Err(_) => None,
        };
        let down = match self.predict_traffic(node_id, Direction::DOWN, view_level) {
            Ok(t) => Some(t),
            Err(_) => None,
        };
        NodeTraffic { right, left, up, down }
    }
}

/// The larger of two counts.
pub open spec fn spec_max(a: nat, b: nat) -> nat {
    if a >= b {
        a
    } else {
        b
    }
}

/// The per-direction predictions of one intersection: `Some(count)` for
/// each direction whose prediction succeeded, `None` for each that failed.
#[derive(Debug, Clone, Copy, PartialEq, Eq)]
pub struct NodeTraffic {
    pub right: Option<u64>,
    pub left: Option<u64>,
    pub up: Option<u64>,
    pub down: Option<u64>,
}

} // verus!
