//! A traffic-prediction engine over a rectangular grid of intersections.
//!
//! A [`TrafficNetwork`] owns a `rows x cols` grid of [`Node`]s laid out in
//! row-major order. Roads between geometrically adjacent intersections are
//! recorded as directional connections on both endpoints, and the engine
//! predicts how much traffic exits an intersection in a given direction by a
//! bounded-depth, cycle-safe recursive propagation over the road graph.

pub mod direction;
pub mod errors;
pub mod node;
pub mod traffic_network;

pub use direction::Direction;
pub use errors::TrafficError;
pub use node::{DirectionDensity, DirectionProbability, Node, NodeConnections, PROB_SCALE};
pub use traffic_network::{NodeTraffic, TrafficNetwork, MAX_VIEW_LEVEL};
