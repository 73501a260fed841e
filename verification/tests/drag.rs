use cosmos::celestial::{Graph, NodeType, Position2D};
use cosmos::ui::interactions::drag_handler::{DragAction, DragHandler, DragMode, Pointer};

fn at(x: i128, y: i128) -> Position2D {
    Position2D::new(x, y)
}

fn pointer(pos: Option<Position2D>) -> Pointer {
    Pointer {
        hover_pos: pos,
        double_clicked: false,
        drag_started: false,
        secondary_down: false,
        primary_down: false,
        dragged: false,
        drag_delta: at(0, 0),
        drag_released: false,
        clicked: false,
    }
}

fn two_nodes() -> (Graph, String, String) {
    let mut graph = Graph::new();
    let a = graph.create_node("a".to_string(), NodeType::Star, at(100000, 100000));
    let b = graph.create_node("b".to_string(), NodeType::Star, at(110000, 100000));
    (graph, a, b)
}

#[test]
fn pointer_hits_within_reach() {
    let (graph, a, _) = two_nodes();
    let handler = DragHandler::new();
    let node = graph.get_node(&a).unwrap();
    assert!(handler.is_pos_in_node(node, at(100000, 100000)));
    assert!(handler.is_pos_in_node(node, at(119999, 100000)));
    assert!(!handler.is_pos_in_node(node, at(120000, 100000)));
    assert!(!handler.is_pos_in_node(node, at(100000, 80000)));
    assert!(handler.is_pos_in_node(node, at(100000, 80001)));
    assert!(handler.is_pos_in_node(node, at(114142, 114142)));
    assert!(!handler.is_pos_in_node(node, at(114143, 114143)));
    assert!(!handler.is_pos_in_node(node, at(i128::MAX, i128::MIN)));
    assert!(!handler.is_pos_in_node(node, at(i128::MIN, 100000)));
    let mut far = graph.get_node(&a).unwrap().clone();
    far.position = at(-5000, 5000);
    assert!(handler.is_pos_in_node(&far, at(5000, -5000)));
    assert!(!handler.is_pos_in_node(&far, at(15000, -5000)));
    far.position = at(i128::MIN, i128::MAX);
    assert!(!handler.is_pos_in_node(&far, at(i128::MAX, i128::MIN)));
    assert!(handler.is_pos_in_node(&far, at(i128::MIN + 1, i128::MAX - 1)));
}

#[test]
fn pointer_off_the_view_is_ignored() {
    let (graph, _, _) = two_nodes();
    let mut handler = DragHandler::new();
    let mut p = pointer(None);
    p.clicked = true;
    p.double_clicked = true;
    p.drag_released = true;
    handler.drag_mode = DragMode::MoveNode;
    assert!(handler.handle_drag(&p, &graph).is_none());
    assert_eq!(handler.drag_mode, DragMode::MoveNode);
}

#[test]
fn double_click_comes_first() {
    let (graph, a, _) = two_nodes();
    let mut handler = DragHandler::new();
    let mut p = pointer(Some(at(105000, 100000)));
    p.double_clicked = true;
    p.clicked = true;
    p.drag_started = true;
    p.primary_down = true;
    // both nodes are within reach: the first of the graph is taken
    assert!(matches!(handler.handle_drag(&p, &graph), Some(DragAction::NodeDoubleClicked(id)) if id == a));
    assert_eq!(handler.drag_mode, DragMode::Idle);
    p.hover_pos = Some(at(0, 0));
    assert!(matches!(handler.handle_drag(&p, &graph), Some(DragAction::RequestCreateNode(pos)) if pos == at(0, 0)));
}

#[test]
fn primary_drag_moves_a_node() {
    let (graph, _, b) = two_nodes();
    let mut handler = DragHandler::new();
    let mut p = pointer(Some(at(125000, 100000)));
    p.drag_started = true;
    p.primary_down = true;
    assert!(matches!(handler.handle_drag(&p, &graph), Some(DragAction::StartMoveNode(id)) if id == b));
    assert_eq!(handler.drag_mode, DragMode::MoveNode);
    assert_eq!(handler.dragging, Some((b.clone(), at(125000, 100000))));

    let mut p = pointer(Some(at(300000, 300000)));
    p.dragged = true;
    match handler.handle_drag(&p, &graph) {
        Some(DragAction::Dragging { node_id, mode, current_pos }) => {
            assert_eq!(node_id, b);
            assert_eq!(mode, DragMode::MoveNode);
            assert_eq!(current_pos, at(300000, 300000));
        }
        other => panic!("unexpected {:?}", other),
    }
    assert_eq!(handler.dragging, Some((b.clone(), at(125000, 100000))));

    let mut p = pointer(Some(at(310000, 300000)));
    p.drag_released = true;
    p.clicked = true;
    match handler.handle_drag(&p, &graph) {
        Some(DragAction::EndMoveNode { node_id, end_pos }) => {
            assert_eq!(node_id, b);
            assert_eq!(end_pos, at(310000, 300000));
        }
        other => panic!("unexpected {:?}", other),
    }
    assert_eq!(handler.drag_mode, DragMode::Idle);
    assert_eq!(handler.dragging, None);
}

#[test]
fn primary_drag_on_nothing_pans() {
    let (graph, _, _) = two_nodes();
    let mut handler = DragHandler::new();
    let mut p = pointer(Some(at(0, 0)));
    p.drag_started = true;
    p.primary_down = true;
    assert!(matches!(handler.handle_drag(&p, &graph), Some(DragAction::StartViewPan)));
    assert_eq!(handler.drag_mode, DragMode::ViewPan);
    assert_eq!(handler.dragging, None);
    let mut p = pointer(Some(at(5, 5)));
    p.dragged = true;
    p.drag_delta = at(3, -4);
    assert!(matches!(handler.handle_drag(&p, &graph), Some(DragAction::ViewPan(d)) if d == at(3, -4)));
    let mut p = pointer(Some(at(5, 5)));
    p.drag_released = true;
    assert!(handler.handle_drag(&p, &graph).is_none());
    assert_eq!(handler.drag_mode, DragMode::Idle);
}

#[test]
fn secondary_drag_draws_a_connection() {
    let (graph, a, _) = two_nodes();
    let mut handler = DragHandler::new();
    let mut p = pointer(Some(at(99000, 99000)));
    p.drag_started = true;
    p.secondary_down = true;
    p.primary_down = true;
    match handler.handle_drag(&p, &graph) {
        Some(DragAction::StartDrawConnection(id, pos)) => {
            assert_eq!(id, a);
            assert_eq!(pos, at(99000, 99000));
        }
        other => panic!("unexpected {:?}", other),
    }
    assert_eq!(handler.drag_mode, DragMode::DrawConnection);
    let mut p = pointer(Some(at(1, 2)));
    p.dragged = true;
    match handler.handle_drag(&p, &graph) {
        Some(DragAction::DrawingConnection { source_id, current_pos }) => {
            assert_eq!(source_id, a);
            assert_eq!(current_pos, at(1, 2));
        }
        other => panic!("unexpected {:?}", other),
    }
    let mut p = pointer(Some(at(7, 8)));
    p.drag_released = true;
    match handler.handle_drag(&p, &graph) {
        Some(DragAction::CreateChildNode { parent_id, position }) => {
            assert_eq!(parent_id, a);
            assert_eq!(position, at(7, 8));
        }
        other => panic!("unexpected {:?}", other),
    }
    assert_eq!(handler.drag_mode, DragMode::Idle);
    assert!(handler.dragging.is_none());
}

#[test]
fn secondary_drag_on_nothing_starts_nothing() {
    let (graph, _, _) = two_nodes();
    let mut handler = DragHandler::new();
    let mut p = pointer(Some(at(0, 0)));
    p.drag_started = true;
    p.secondary_down = true;
    p.primary_down = true;
    p.clicked = true;
    // the start is passed over, and the click counts
    assert!(matches!(handler.handle_drag(&p, &graph), Some(DragAction::Deselect)));
    assert_eq!(handler.drag_mode, DragMode::Idle);
}

#[test]
fn click_selects_or_deselects() {
    let (graph, a, b) = two_nodes();
    let mut handler = DragHandler::new();
    let mut p = pointer(Some(at(90000, 100000)));
    p.clicked = true;
    assert!(matches!(handler.handle_drag(&p, &graph), Some(DragAction::SelectNode(id)) if id == a));
    p.hover_pos = Some(at(129000, 100000));
    assert!(matches!(handler.handle_drag(&p, &graph), Some(DragAction::SelectNode(id)) if id == b));
    p.hover_pos = Some(at(500000, 100000));
    assert!(matches!(handler.handle_drag(&p, &graph), Some(DragAction::Deselect)));
    let p = pointer(Some(at(90000, 100000)));
    assert!(handler.handle_drag(&p, &graph).is_none());
}

#[test]
fn drag_without_a_grip_goes_on_to_the_release() {
    let (graph, _, _) = two_nodes();
    let mut handler = DragHandler::new();
    handler.drag_mode = DragMode::MoveNode;
    let mut p = pointer(Some(at(0, 0)));
    p.dragged = true;
    p.drag_released = true;
    assert!(handler.handle_drag(&p, &graph).is_none());
    assert_eq!(handler.drag_mode, DragMode::Idle);
    handler.drag_mode = DragMode::CreateNode;
    handler.dragging = Some(("x".to_string(), at(0, 0)));
    let mut p = pointer(Some(at(0, 0)));
    p.dragged = true;
    assert!(handler.handle_drag(&p, &graph).is_none());
    assert_eq!(handler.drag_mode, DragMode::CreateNode);
    p.drag_released = true;
    assert!(handler.handle_drag(&p, &graph).is_none());
    assert_eq!(handler.drag_mode, DragMode::Idle);
    assert!(handler.dragging.is_none());
}
