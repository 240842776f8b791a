use traffic_network::{
    Direction, DirectionDensity, DirectionProbability, NodeConnections, TrafficError,
    TrafficNetwork,
};

#[test]
fn opposite_pairs() {
    assert_eq!(Direction::RIGHT.opposite(), Direction::LEFT);
    assert_eq!(Direction::LEFT.opposite(), Direction::RIGHT);
    assert_eq!(Direction::UP.opposite(), Direction::DOWN);
    assert_eq!(Direction::DOWN.opposite(), Direction::UP);
    assert_eq!(Direction::EndOfMap.opposite(), Direction::EndOfMap);
}

#[test]
fn opposite_is_an_involution() {
    let dirs = [
        Direction::RIGHT,
        Direction::LEFT,
        Direction::UP,
        Direction::DOWN,
        Direction::EndOfMap,
    ];
    for d in dirs {
        assert_eq!(d.opposite().opposite(), d);
    }
}

#[test]
fn connect_success_is_bidirectional() {
    let mut network = TrafficNetwork::new(5, 5);
    assert!(network.connect_nodes(0, 1, Direction::RIGHT).is_ok());
    assert!(network.is_linked(0, 1, Direction::RIGHT));
    assert!(network.is_linked(1, 0, Direction::LEFT));
    assert!(!network.is_linked(0, 1, Direction::LEFT));

    assert!(network.connect_nodes(0, 5, Direction::DOWN).is_ok());
    assert!(network.is_linked(0, 5, Direction::DOWN));
    assert!(network.is_linked(5, 0, Direction::UP));

    assert!(network.connect_nodes(6, 1, Direction::UP).is_ok());
    assert!(network.is_linked(6, 1, Direction::UP));
    assert!(network.is_linked(1, 6, Direction::DOWN));

    assert!(network.connect_nodes(6, 5, Direction::LEFT).is_ok());
    assert!(network.is_linked(6, 5, Direction::LEFT));
    assert!(network.is_linked(5, 6, Direction::RIGHT));
}

#[test]
fn connect_rejects_out_of_bounds_ids() {
    let mut network = TrafficNetwork::new(2, 2);
    assert!(matches!(
        network.connect_nodes(0, 4, Direction::RIGHT),
        Err(TrafficError::IndexOutOfBounds)
    ));
    assert!(matches!(
        network.connect_nodes(4, 0, Direction::RIGHT),
        Err(TrafficError::IndexOutOfBounds)
    ));
    // The bounds check comes before the EndOfMap pass-through.
    assert!(matches!(
        network.connect_nodes(0, 4, Direction::EndOfMap),
        Err(TrafficError::IndexOutOfBounds)
    ));
}

#[test]
fn connect_rejects_geometric_mismatches() {
    let mut network = TrafficNetwork::new(5, 5);
    assert!(matches!(
        network.connect_nodes(0, 2, Direction::RIGHT),
        Err(TrafficError::InvalidRoadConnection)
    ));
    assert!(matches!(
        network.connect_nodes(0, 1, Direction::LEFT),
        Err(TrafficError::InvalidRoadConnection)
    ));
    assert!(matches!(
        network.connect_nodes(1, 0, Direction::RIGHT),
        Err(TrafficError::InvalidRoadConnection)
    ));
    assert!(matches!(
        network.connect_nodes(0, 5, Direction::UP),
        Err(TrafficError::InvalidRoadConnection)
    ));
    assert!(matches!(
        network.connect_nodes(0, 1, Direction::DOWN),
        Err(TrafficError::InvalidRoadConnection)
    ));
}

#[test]
fn connect_end_of_map_is_a_noop_success() {
    let mut network = TrafficNetwork::new(5, 5);
    assert!(network.connect_nodes(0, 24, Direction::EndOfMap).is_ok());
    assert!(!network.is_linked(0, 24, Direction::EndOfMap));
    assert_eq!(network.nodes[0].get_connection(Direction::RIGHT), None);
    assert_eq!(network.nodes[0].get_connection(Direction::LEFT), None);
    assert_eq!(network.nodes[0].get_connection(Direction::UP), None);
    assert_eq!(network.nodes[0].get_connection(Direction::DOWN), None);
    assert_eq!(network.nodes[0].get_connection(Direction::EndOfMap), None);
}

#[test]
fn reconnect_replaces_previous_neighbor() {
    let mut network = TrafficNetwork::new(5, 5);
    // Node 6 sits in the next row but in column 1, which the RIGHT rule
    // accepts: only the column arithmetic is checked.
    assert!(network.connect_nodes(0, 6, Direction::RIGHT).is_ok());
    assert!(network.is_linked(0, 6, Direction::RIGHT));
    assert!(network.connect_nodes(0, 1, Direction::RIGHT).is_ok());
    assert!(network.is_linked(0, 1, Direction::RIGHT));
    assert!(!network.is_linked(0, 6, Direction::RIGHT));
    // The reverse edge recorded on node 6 is not retracted by the overwrite.
    assert!(network.is_linked(6, 0, Direction::LEFT));
}

#[test]
fn predict_zero_depth_yields_zero() {
    let network = TrafficNetwork::new(2, 2);
    for d in [Direction::RIGHT, Direction::LEFT, Direction::UP, Direction::DOWN] {
        assert_eq!(network.predict_traffic(0, d, 0), Ok(0));
        assert_eq!(network.predict_traffic(3, d, 0), Ok(0));
        // At depth zero even an invalid id yields zero, before any lookup.
        assert_eq!(network.predict_traffic(999, d, 0), Ok(0));
    }
}

#[test]
fn predict_rejects_view_level_above_cap() {
    let network = TrafficNetwork::new(2, 2);
    assert!(matches!(
        network.predict_traffic(0, Direction::RIGHT, 6),
        Err(TrafficError::MaxViewLevelReached)
    ));
    assert!(matches!(
        network.predict_traffic(0, Direction::RIGHT, u32::MAX),
        Err(TrafficError::MaxViewLevelReached)
    ));
}

#[test]
fn predict_rejects_out_of_bounds_start() {
    let network = TrafficNetwork::new(2, 2);
    assert!(matches!(
        network.predict_traffic(4, Direction::RIGHT, 1),
        Err(TrafficError::IndexOutOfBounds)
    ));
}

#[test]
fn predict_depth_one_is_baseline_arrivals() {
    let network = TrafficNetwork::new(2, 2);
    assert_eq!(network.predict_traffic(0, Direction::RIGHT, 1), Ok(6));
    assert_eq!(network.predict_traffic(0, Direction::LEFT, 1), Ok(7));
    assert_eq!(network.predict_traffic(0, Direction::UP, 1), Ok(2));
    assert_eq!(network.predict_traffic(0, Direction::DOWN, 1), Ok(3));
}

#[test]
fn predict_truncates_at_every_level() {
    let mut network = TrafficNetwork::new(1, 2);
    assert!(network.connect_nodes(0, 1, Direction::RIGHT).is_ok());
    // Node 0's baseline 7 plus floor(0.3 * 6) = 1 from the neighbor's
    // own depth-one prediction.
    assert_eq!(network.predict_traffic(0, Direction::LEFT, 2), Ok(8));
}

fn fully_connected_2x2() -> TrafficNetwork {
    let mut network = TrafficNetwork::new(2, 2);
    assert!(network.connect_nodes(0, 1, Direction::RIGHT).is_ok());
    assert!(network.connect_nodes(2, 3, Direction::RIGHT).is_ok());
    assert!(network.connect_nodes(0, 2, Direction::DOWN).is_ok());
    assert!(network.connect_nodes(1, 3, Direction::DOWN).is_ok());
    network
}

#[test]
fn predict_terminates_on_cycles_within_cap() {
    let network = fully_connected_2x2();
    for view_level in 0..=5 {
        for d in [Direction::RIGHT, Direction::LEFT, Direction::UP, Direction::DOWN] {
            for id in 0..4 {
                assert!(network.predict_traffic(id, d, view_level).is_ok());
            }
        }
    }
    assert!(matches!(
        network.predict_traffic(0, Direction::RIGHT, 6),
        Err(TrafficError::MaxViewLevelReached)
    ));
}

#[test]
fn predict_on_cyclic_grid_exact_values() {
    let network = fully_connected_2x2();
    // 6 + floor(0.1 * 3) from the neighbor below.
    assert_eq!(network.predict_traffic(0, Direction::RIGHT, 2), Ok(6));
    // 7 + floor(0.3 * 6) + floor(0.0 * 4); the path-local visited set cuts
    // the 0 -> 1 -> 0 and 0 -> 2 -> 0 cycles.
    assert_eq!(network.predict_traffic(0, Direction::LEFT, 3), Ok(8));
}

#[test]
fn end_of_map_prediction_is_zero() {
    let network = fully_connected_2x2();
    for view_level in 0..=5 {
        assert_eq!(network.predict_traffic(0, Direction::EndOfMap, view_level), Ok(0));
    }
}

#[test]
fn grid_scenario_links_and_depth_zero_traffic() {
    let mut network = TrafficNetwork::new(5, 5);
    assert!(network.connect_nodes(0, 1, Direction::RIGHT).is_ok());
    assert!(network.connect_nodes(1, 2, Direction::RIGHT).is_ok());
    assert!(network.connect_nodes(1, 6, Direction::DOWN).is_ok());
    assert!(network.connect_nodes(7, 2, Direction::UP).is_ok());

    assert!(network.is_linked(1, 0, Direction::LEFT));
    assert!(network.is_linked(2, 7, Direction::DOWN));

    let traffic = network.get_node_traffic(1, 0);
    assert_eq!(traffic.right, Some(0));
    assert_eq!(traffic.left, Some(0));
    assert_eq!(traffic.up, Some(0));
    assert_eq!(traffic.down, Some(0));
}

#[test]
fn node_traffic_collects_successes() {
    let mut network = TrafficNetwork::new(1, 2);
    assert!(network.connect_nodes(0, 1, Direction::RIGHT).is_ok());
    let traffic = network.get_node_traffic(1, 2);
    assert_eq!(traffic.right, Some(10));
    assert_eq!(traffic.left, Some(7));
    assert_eq!(traffic.up, Some(5));
    assert_eq!(traffic.down, Some(8));
}

#[test]
fn node_traffic_omits_failed_directions() {
    let network = TrafficNetwork::new(2, 2);
    // View level over the cap: every direction fails and is omitted.
    let over_cap = network.get_node_traffic(0, 6);
    assert_eq!(over_cap.right, None);
    assert_eq!(over_cap.left, None);
    assert_eq!(over_cap.up, None);
    assert_eq!(over_cap.down, None);
    // Invalid id at a positive view level: every direction fails too.
    let bad_id = network.get_node_traffic(99, 1);
    assert_eq!(bad_id.right, None);
    assert_eq!(bad_id.left, None);
    assert_eq!(bad_id.up, None);
    assert_eq!(bad_id.down, None);
    // At view level zero every prediction succeeds with zero, even there.
    let zero = network.get_node_traffic(99, 0);
    assert_eq!(zero.right, Some(0));
    assert_eq!(zero.left, Some(0));
    assert_eq!(zero.up, Some(0));
    assert_eq!(zero.down, Some(0));
}

#[test]
fn traffic_density_has_grid_dimensions() {
    let network = TrafficNetwork::new(3, 2);
    let density = network.get_traffic_density(1);
    assert_eq!(density.len(), 3);
    for row in &density {
        assert_eq!(row.len(), 2);
    }
}

#[test]
fn traffic_density_is_per_cell_maximum() {
    let network = TrafficNetwork::new(3, 2);
    // At depth one each prediction is the baseline arrivals, whose maximum
    // over the four directions is the LEFT baseline 7.
    assert_eq!(network.get_traffic_density(1), vec![vec![7, 7], vec![7, 7], vec![7, 7]]);

    let mut pair = TrafficNetwork::new(1, 2);
    assert!(pair.connect_nodes(0, 1, Direction::RIGHT).is_ok());
    // Node 0 peaks LEFT at 7 + floor(0.3 * 6) = 8; node 1 peaks RIGHT at
    // 6 + floor(0.6 * 7) = 10.
    assert_eq!(pair.get_traffic_density(2), vec![vec![8, 10]]);
}

#[test]
fn traffic_density_swallows_failures_as_zero() {
    let network = TrafficNetwork::new(2, 2);
    assert_eq!(network.get_traffic_density(0), vec![vec![0, 0], vec![0, 0]]);
    assert_eq!(network.get_traffic_density(6), vec![vec![0, 0], vec![0, 0]]);
}

#[test]
fn set_traffic_overwrites_one_direction() {
    let mut network = TrafficNetwork::new(2, 2);
    network.nodes[0].set_traffic(Direction::RIGHT, 100, 50);
    assert_eq!(network.nodes[0].directional_traffic.get_arriving(Direction::RIGHT), 100);
    assert_eq!(network.nodes[0].directional_traffic.get_leaving(Direction::RIGHT), 50);
    // The other directions keep their defaults.
    assert_eq!(network.nodes[0].directional_traffic.get_arriving(Direction::LEFT), 7);
    assert_eq!(network.nodes[0].directional_traffic.get_leaving(Direction::LEFT), 3);
    assert_eq!(network.predict_traffic(0, Direction::RIGHT, 1), Ok(100));
}

#[test]
fn set_traffic_end_of_map_is_a_noop() {
    let mut network = TrafficNetwork::new(2, 2);
    let before = network.nodes[0];
    network.nodes[0].set_traffic(Direction::EndOfMap, 100, 50);
    assert_eq!(network.nodes[0], before);
}

#[test]
fn density_defaults_and_end_of_map() {
    let density = DirectionDensity::new();
    assert_eq!(density.get_arriving(Direction::UP), 2);
    assert_eq!(density.get_arriving(Direction::DOWN), 3);
    assert_eq!(density.get_arriving(Direction::RIGHT), 6);
    assert_eq!(density.get_arriving(Direction::LEFT), 7);
    assert_eq!(density.get_arriving(Direction::EndOfMap), 0);
    assert_eq!(density.get_leaving(Direction::UP), 4);
    assert_eq!(density.get_leaving(Direction::DOWN), 5);
    assert_eq!(density.get_leaving(Direction::RIGHT), 5);
    assert_eq!(density.get_leaving(Direction::LEFT), 3);
    assert_eq!(density.get_leaving(Direction::EndOfMap), 0);
}

#[test]
fn probability_lookup_is_total() {
    let table = DirectionProbability::new();
    assert_eq!(table.get_probability(Direction::RIGHT, Direction::LEFT), 300);
    assert_eq!(table.get_probability(Direction::DOWN, Direction::LEFT), 0);
    // Degenerate and sentinel pairs are not in the table and yield zero.
    assert_eq!(table.get_probability(Direction::RIGHT, Direction::RIGHT), 0);
    assert_eq!(table.get_probability(Direction::EndOfMap, Direction::LEFT), 0);
    assert_eq!(table.get_probability(Direction::UP, Direction::EndOfMap), 0);
}

#[test]
fn set_probability_enforces_the_unit_range() {
    let mut table = DirectionProbability::new();
    assert!(matches!(
        table.set_probability(Direction::RIGHT, Direction::LEFT, 1001),
        Err(TrafficError::InvalidProbability)
    ));
    assert_eq!(table.get_probability(Direction::RIGHT, Direction::LEFT), 300);
    assert!(table.set_probability(Direction::RIGHT, Direction::LEFT, 450).is_ok());
    assert_eq!(table.get_probability(Direction::RIGHT, Direction::LEFT), 450);
    // The full range endpoint is accepted.
    assert!(table.set_probability(Direction::UP, Direction::DOWN, 1000).is_ok());
    assert_eq!(table.get_probability(Direction::UP, Direction::DOWN), 1000);
    // A pair outside the table is an accepted no-op.
    let before = table;
    assert!(table.set_probability(Direction::UP, Direction::UP, 500).is_ok());
    assert_eq!(table, before);
}

#[test]
fn with_tables_uses_caller_configuration() {
    let mut prob = DirectionProbability::new();
    assert!(prob.set_probability(Direction::LEFT, Direction::RIGHT, 500).is_ok());
    let mut density = DirectionDensity::new();
    density.arriving_right = 20;
    density.arriving_left = 11;
    let mut network = TrafficNetwork::with_tables(1, 2, prob, density).unwrap();
    assert!(network.connect_nodes(0, 1, Direction::RIGHT).is_ok());
    // Node 1's RIGHT baseline 20 plus floor(0.5 * 11) from node 0.
    assert_eq!(network.predict_traffic(1, Direction::RIGHT, 2), Ok(25));
}

#[test]
fn with_tables_rejects_probability_above_one() {
    let mut prob = DirectionProbability::new();
    prob.up_down = 1001;
    assert!(!prob.is_valid());
    let density = DirectionDensity::new();
    assert!(matches!(
        TrafficNetwork::with_tables(2, 2, prob, density),
        Err(TrafficError::InvalidProbability)
    ));
    assert!(DirectionProbability::new().is_valid());
}

#[test]
fn error_messages() {
    assert_eq!(TrafficError::IndexOutOfBounds.message(), "Index out of bounds");
    assert_eq!(TrafficError::InvalidProbability.message(), "Invalid probability value");
    assert_eq!(TrafficError::MaxViewLevelReached.message(), "Maximum view level reached");
    assert_eq!(TrafficError::InvalidRoadConnection.message(), "Invalid road connection");
}

#[test]
fn fresh_network_layout() {
    let network = TrafficNetwork::new(3, 4);
    assert_eq!(network.rows, 3);
    assert_eq!(network.cols, 4);
    assert_eq!(network.nodes.len(), 12);
    for (i, node) in network.nodes.iter().enumerate() {
        assert_eq!(node.id, i);
        assert_eq!(node.connections, NodeConnections::new());
    }
}

#[test]
fn empty_network_queries() {
    let network = TrafficNetwork::new(0, 5);
    assert_eq!(network.nodes.len(), 0);
    assert!(matches!(
        network.predict_traffic(0, Direction::RIGHT, 1),
        Err(TrafficError::IndexOutOfBounds)
    ));
    assert_eq!(network.get_traffic_density(1), Vec::<Vec<u64>>::new());
    assert!(!network.is_linked(0, 0, Direction::RIGHT));
}
