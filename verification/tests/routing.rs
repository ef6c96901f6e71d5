use geoviewer::graph::choose_stop;
use geoviewer::graph::GraphBuilder;
use geoviewer::graph::GraphError;
use geoviewer::graph::RouteError;
use geoviewer::graph::StopChange;

fn sample_graph() -> GraphBuilder {
    let mut b = GraphBuilder::new();
    b.add_node(10);
    b.add_node(20);
    b.add_node(30);
    b.add_node(40);
    b.add_edge(0, 1);
    b.add_edge(1, 2);
    b
}

#[test]
fn nodes_are_found_by_id() {
    let b = sample_graph();
    assert_eq!(b.node_count(), 4);
    assert_eq!(b.index_of(30), Some(2));
    assert_eq!(b.index_of(99), None);
}

#[test]
fn a_repeated_id_refers_to_the_last_node() {
    let mut b = GraphBuilder::new();
    b.add_node(7);
    b.add_node(7);
    assert_eq!(b.index_of(7), Some(1));
    assert_eq!(b.node_count(), 2);
}

#[test]
fn topology_keeps_edges_and_marks_the_main_component() {
    let t = sample_graph().finish().ok().unwrap();
    assert_eq!(t.node_count(), 4);
    assert_eq!(t.edge_count(), 2);
    assert_eq!(t.source(1), 1);
    assert_eq!(t.target(1), 2);
    assert_eq!(t.outgoing(1), &vec![1usize]);
    assert_eq!(t.outgoing(3), &Vec::<usize>::new());
    assert!(t.is_main(0) && t.is_main(1) && t.is_main(2));
    assert!(!t.is_main(3));
}

#[test]
fn the_first_largest_component_is_main() {
    let mut b = GraphBuilder::new();
    for id in 0..4 {
        b.add_node(id);
    }
    b.add_edge(0, 1);
    b.add_edge(2, 3);
    let t = b.finish().ok().unwrap();
    assert!(t.is_main(0) && t.is_main(1));
    assert!(!t.is_main(2) && !t.is_main(3));
}

#[test]
fn a_graph_without_edges_is_refused() {
    let mut b = GraphBuilder::new();
    b.add_node(1);
    assert!(matches!(b.finish(), Err(GraphError::NoEdges)));
}

#[test]
fn routes_are_read_back_from_parents() {
    let t = sample_graph().finish().ok().unwrap();
    let parent = vec![None, Some(0usize), Some(1usize), None];
    assert_eq!(t.route(true, &parent, 0, 2), Ok(vec![0usize, 1]));
    assert_eq!(t.route(true, &parent, 0, 0), Ok(vec![]));
    assert_eq!(t.route(false, &parent, 0, 2), Err(RouteError::NoRoute));
    assert_eq!(t.route(true, &parent, 0, 3), Err(RouteError::Incomplete));
}

#[test]
fn a_looping_parent_chain_is_a_cycle() {
    let t = sample_graph().finish().ok().unwrap();
    let parent = vec![None, Some(1usize), None, None];
    assert_eq!(t.route(true, &parent, 0, 1), Err(RouteError::Cycle));
}

#[test]
fn route_geometry_uses_shapes_or_end_nodes() {
    let t = sample_graph().finish().ok().unwrap();
    let nodes = vec![(0, 0), (1, 0), (2, 0), (3, 0)];
    let shapes = vec![vec![], vec![(1, 0), (1, 5), (2, 0)]];
    assert_eq!(
        t.route_geometry(&nodes, &shapes, &vec![0, 1]),
        vec![(0, 0), (1, 0), (1, 0), (1, 5), (2, 0)]
    );
}

#[test]
fn stops_hold_a_start_and_a_finish() {
    let mut stops = Vec::new();
    assert_eq!(choose_stop(&mut stops, 5), StopChange::Added);
    assert_eq!(choose_stop(&mut stops, 5), StopChange::Unchanged);
    assert_eq!(choose_stop(&mut stops, 7), StopChange::Added);
    assert_eq!(stops, vec![5, 7]);
    assert_eq!(choose_stop(&mut stops, 9), StopChange::Restarted);
    assert_eq!(stops, vec![9]);
}

#[test]
fn routing_errors_have_messages() {
    assert_eq!(RouteError::NoRoute.message(), "No connected route; choose another road node");
    assert_eq!(RouteError::Incomplete.message(), "Incomplete route");
    assert_eq!(RouteError::Cycle.message(), "Route cycle");
    assert_eq!(GraphError::NoEdges.message(), "Routing graph has no edges");
}

#[test]
fn route_geometry_of_joined_routes_is_joined() {
    let t = sample_graph().finish().ok().unwrap();
    let nodes = vec![(0, 0), (1, 0), (2, 0), (3, 0)];
    let shapes = vec![vec![], vec![(1, 0), (1, 5), (2, 0)]];
    let a = vec![0, 1];
    let b = vec![1, 0];
    let joined = [a.clone(), b.clone()].concat();
    let mut expected = t.route_geometry(&nodes, &shapes, &a);
    expected.extend(t.route_geometry(&nodes, &shapes, &b));
    assert_eq!(t.route_geometry(&nodes, &shapes, &joined), expected);
    assert_eq!(t.route_geometry(&nodes, &shapes, &vec![0]), vec![(0, 0), (1, 0)]);
    assert_eq!(t.route_geometry(&nodes, &shapes, &vec![]), Vec::<(i32, i32)>::new());
}
