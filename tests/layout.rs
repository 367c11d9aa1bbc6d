use iced::{Point, Rectangle, Size};
use iced_node_editor::{
    layout_pass, Anchor, Endpoint, GraphElement, LayoutError, Link, LogicalEndpoint, PassError,
    ResolveError, SocketLayoutState, SocketRole,
};

fn blob(x: f32, y: f32) -> Rectangle {
    Rectangle::new(Point::new(x - 5.0, y - 5.0), Size::new(10.0, 10.0))
}

fn out_socket(node_index: usize, socket_index: usize) -> LogicalEndpoint {
    LogicalEndpoint { node_index, role: SocketRole::Out, socket_index }
}

fn in_socket(node_index: usize, socket_index: usize) -> LogicalEndpoint {
    LogicalEndpoint { node_index, role: SocketRole::In, socket_index }
}

fn connection(from: LogicalEndpoint, to: LogicalEndpoint) -> GraphElement<Point, Rectangle> {
    GraphElement::Connection(
        Link::from_unordered(Endpoint::Socket(from), Endpoint::Socket(to)).unwrap(),
    )
}

/// Three nodes: the first with two outputs, the second with one input and two outputs, the
/// third with two inputs; each socket's blob sits on its node's left (inputs) or right
/// (outputs) edge, one row of 30 below the other.
fn three_nodes() -> Vec<GraphElement<Point, Rectangle>> {
    vec![
        GraphElement::Node(vec![
            (SocketRole::Out, blob(200.0, 75.0)),
            (SocketRole::Out, blob(200.0, 105.0)),
        ]),
        GraphElement::Node(vec![
            (SocketRole::In, blob(250.0, 325.0)),
            (SocketRole::Out, blob(450.0, 355.0)),
            (SocketRole::Out, blob(450.0, 385.0)),
        ]),
        GraphElement::Node(vec![
            (SocketRole::In, blob(500.0, 325.0)),
            (SocketRole::In, blob(500.0, 355.0)),
        ]),
    ]
}

#[test]
fn record_node_appends_one_entry_per_role() {
    let mut state: SocketLayoutState<Rectangle> = SocketLayoutState::new();
    state
        .record_node(&vec![(SocketRole::Out, blob(1.0, 1.0)), (SocketRole::Out, blob(1.0, 2.0))])
        .unwrap();
    state
        .record_node(&vec![
            (SocketRole::In, blob(2.0, 1.0)),
            (SocketRole::Out, blob(3.0, 1.0)),
            (SocketRole::In, blob(2.0, 2.0)),
        ])
        .unwrap();
    assert_eq!(state.inputs().len(), 2);
    assert_eq!(state.outputs().len(), 2);
    assert_eq!(state.inputs()[0], vec![]);
    assert_eq!(state.outputs()[0], vec![blob(1.0, 1.0), blob(1.0, 2.0)]);
    assert_eq!(state.inputs()[1], vec![blob(2.0, 1.0), blob(2.0, 2.0)]);
    assert_eq!(state.outputs()[1], vec![blob(3.0, 1.0)]);
    assert!(!state.is_done());
}

#[test]
fn node_after_connections_is_refused() {
    let mut state: SocketLayoutState<Rectangle> = SocketLayoutState::new();
    state.record_node(&vec![(SocketRole::Out, blob(1.0, 1.0))]).unwrap();
    state.begin_connections();
    assert!(state.is_done());
    let r = state.record_node(&vec![(SocketRole::In, blob(2.0, 1.0))]);
    assert_eq!(r, Err(LayoutError::NodeAfterConnection));
    assert_eq!(state.inputs().len(), 1);
    assert_eq!(state.outputs().len(), 1);
}

#[test]
fn clear_starts_a_new_pass() {
    let mut state: SocketLayoutState<Rectangle> = SocketLayoutState::new();
    state.record_node(&vec![(SocketRole::In, blob(1.0, 1.0))]).unwrap();
    state.begin_connections();
    state.clear();
    assert!(state.inputs().is_empty());
    assert!(state.outputs().is_empty());
    assert!(!state.is_done());
    assert!(state.record_node(&vec![]).is_ok());
}

#[test]
fn lookups_out_of_range_are_reported() {
    let mut state: SocketLayoutState<Rectangle> = SocketLayoutState::new();
    state.record_node(&vec![(SocketRole::Out, blob(1.0, 1.0))]).unwrap();
    assert_eq!(state.socket_blob(out_socket(0, 0)), Ok(blob(1.0, 1.0)));
    assert_eq!(
        state.socket_blob(out_socket(1, 0)),
        Err(ResolveError::NodeOutOfRange { role: SocketRole::Out, node_index: 1, node_count: 1 })
    );
    assert_eq!(
        state.socket_blob(out_socket(0, 3)),
        Err(ResolveError::SocketOutOfRange {
            role: SocketRole::Out,
            node_index: 0,
            socket_index: 3,
            socket_count: 1,
        })
    );
    assert_eq!(
        state.socket_blob(in_socket(0, 0)),
        Err(ResolveError::SocketOutOfRange {
            role: SocketRole::In,
            node_index: 0,
            socket_index: 0,
            socket_count: 0,
        })
    );
}

#[test]
fn absolute_endpoint_locates_to_its_point() {
    let state: SocketLayoutState<Rectangle> = SocketLayoutState::new();
    let e: Endpoint<Point> = Endpoint::Absolute(Point::new(3.0, 4.0));
    assert_eq!(e.locate(&state), Ok(Anchor::Point(Point::new(3.0, 4.0))));
}

#[test]
fn connection_before_any_node_is_an_order_error() {
    let mut elements = vec![connection(out_socket(0, 0), in_socket(1, 0))];
    elements.extend(three_nodes());
    let mut state: SocketLayoutState<Rectangle> = SocketLayoutState::new();
    let r = layout_pass(&elements, &mut state);
    assert_eq!(r.err(), Some(PassError::NodeAfterConnection { element_index: 1 }));
    assert!(state.inputs().is_empty());
    assert!(!state.is_done());
}

#[test]
fn node_between_connections_is_an_order_error() {
    let mut elements = three_nodes();
    elements.insert(2, connection(out_socket(0, 1), in_socket(1, 0)));
    let mut state: SocketLayoutState<Rectangle> = SocketLayoutState::new();
    let r = layout_pass(&elements, &mut state);
    assert_eq!(r.err(), Some(PassError::NodeAfterConnection { element_index: 3 }));
}

#[test]
fn nodes_only_pass_succeeds_and_stays_open() {
    let elements = three_nodes();
    let mut state: SocketLayoutState<Rectangle> = SocketLayoutState::new();
    let anchors = layout_pass(&elements, &mut state).unwrap();
    assert!(anchors.is_empty());
    assert!(!state.is_done());
    assert_eq!(state.inputs().len(), 3);
    assert_eq!(state.outputs().len(), 3);
    assert_eq!(state.inputs()[0].len(), 0);
    assert_eq!(state.outputs()[0].len(), 2);
    assert_eq!(state.inputs()[1].len(), 1);
    assert_eq!(state.outputs()[1].len(), 2);
    assert_eq!(state.inputs()[2].len(), 2);
    assert_eq!(state.outputs()[2].len(), 0);
}

#[test]
fn pass_clears_what_an_earlier_pass_recorded() {
    let mut state: SocketLayoutState<Rectangle> = SocketLayoutState::new();
    state.record_node(&vec![(SocketRole::In, blob(9.0, 9.0))]).unwrap();
    state.begin_connections();
    let elements: Vec<GraphElement<Point, Rectangle>> =
        vec![GraphElement::Node(vec![(SocketRole::Out, blob(1.0, 1.0))])];
    layout_pass(&elements, &mut state).unwrap();
    assert_eq!(state.inputs().clone(), vec![vec![]]);
    assert_eq!(state.outputs().clone(), vec![vec![blob(1.0, 1.0)]]);
    assert!(!state.is_done());
}

#[test]
fn three_nodes_two_connections_end_to_end() {
    let mut elements = three_nodes();
    elements.push(connection(out_socket(0, 1), in_socket(1, 0)));
    elements.push(connection(out_socket(1, 1), in_socket(2, 0)));
    let mut state: SocketLayoutState<Rectangle> = SocketLayoutState::new();
    let anchors = layout_pass(&elements, &mut state).unwrap();
    assert!(state.is_done());
    assert_eq!(anchors.len(), 2);
    assert_eq!(anchors[0], (Anchor::Blob(blob(200.0, 105.0)), Anchor::Blob(blob(250.0, 325.0))));
    assert_eq!(anchors[1], (Anchor::Blob(blob(450.0, 385.0)), Anchor::Blob(blob(500.0, 325.0))));
    match anchors[0] {
        (Anchor::Blob(a), Anchor::Blob(b)) => {
            assert!((a.center().x - 200.0).abs() < 1e-4 && (a.center().y - 105.0).abs() < 1e-4);
            assert!((b.center().x - 250.0).abs() < 1e-4 && (b.center().y - 325.0).abs() < 1e-4);
        }
        _ => panic!("both ends are sockets"),
    }
}

#[test]
fn dangling_connection_after_connections_locates_its_point() {
    let mut elements = three_nodes();
    elements.push(connection(out_socket(0, 1), in_socket(1, 0)));
    let pointer = Point::new(320.0, 40.0);
    elements.push(GraphElement::Connection(Link::dangling(out_socket(1, 0), pointer)));
    let mut state: SocketLayoutState<Rectangle> = SocketLayoutState::new();
    let anchors = layout_pass(&elements, &mut state).unwrap();
    assert_eq!(anchors[1], (Anchor::Blob(blob(450.0, 355.0)), Anchor::Point(pointer)));
}

#[test]
fn connection_to_missing_socket_stops_the_pass() {
    let mut elements = three_nodes();
    elements.push(connection(out_socket(0, 1), in_socket(1, 0)));
    elements.push(connection(out_socket(1, 1), in_socket(2, 5)));
    elements.push(connection(out_socket(7, 0), in_socket(2, 0)));
    let mut state: SocketLayoutState<Rectangle> = SocketLayoutState::new();
    let r = layout_pass(&elements, &mut state);
    assert_eq!(
        r.err(),
        Some(PassError::Unresolved {
            element_index: 4,
            error: ResolveError::SocketOutOfRange {
                role: SocketRole::In,
                node_index: 2,
                socket_index: 5,
                socket_count: 2,
            },
        })
    );
}

#[test]
fn connection_to_missing_node_is_reported() {
    let mut elements = three_nodes();
    elements.push(connection(out_socket(3, 0), in_socket(2, 0)));
    let mut state: SocketLayoutState<Rectangle> = SocketLayoutState::new();
    let r = layout_pass(&elements, &mut state);
    assert_eq!(
        r.err(),
        Some(PassError::Unresolved {
            element_index: 3,
            error: ResolveError::NodeOutOfRange {
                role: SocketRole::Out,
                node_index: 3,
                node_count: 3,
            },
        })
    );
}
