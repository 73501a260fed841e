use cosmos::celestial::{Graph, Node, NodeType, Position2D, RelationType};
use cosmos::ui::components::connection_menu::ConnectionAction;
use cosmos::ui::components::node_creator::{CreationAction, NodeCreator};
use cosmos::ui::components::node_editor::{EditorAction, NodeEditor};
use cosmos::ui::interactions::drag_handler::{DragAction, DragMode};
use cosmos::ui::views::cosmos_view::{BangStep, CosmosView};
use cosmos::universe::Universe;

fn at(x: i128, y: i128) -> Position2D {
    Position2D::new(x, y)
}

#[test]
fn points_stay_on_the_plane() {
    assert_eq!(at(1, 2).plus(at(10, -20)), at(11, -18));
    assert_eq!(at(1, 2).minus(at(10, -20)), at(-9, 22));
    assert_eq!(at(i128::MAX, i128::MIN).plus(at(1, -1)), at(i128::MAX, i128::MIN));
    assert_eq!(at(i128::MAX, i128::MIN).minus(at(-1, 1)), at(i128::MAX, i128::MIN));
    assert_eq!(at(i128::MIN, i128::MAX).minus(at(i128::MIN, i128::MAX)), at(0, 0));
    assert_eq!(at(-1, 0).minus(at(i128::MAX, i128::MIN)), at(i128::MIN, i128::MAX));
    assert_eq!(at(-2, 1).minus(at(i128::MAX, i128::MIN)), at(i128::MIN, i128::MAX));
}

#[test]
fn creator_offers_the_children_of_the_source() {
    let mut graph = Graph::new();
    let star = graph.create_node("s".to_string(), NodeType::Star, at(0, 0));
    let root = graph.create_node("r".to_string(), NodeType::Root, at(0, 0));
    let mut creator = NodeCreator::new();
    assert!(creator.offered_kinds(&graph).is_empty());
    creator.source_node_id = Some(star.clone());
    assert_eq!(creator.offered_kinds(&graph), vec![NodeType::Planet]);
    creator.source_node_id = Some(root.clone());
    assert_eq!(creator.offered_kinds(&graph), vec![NodeType::Concept, NodeType::Category]);
    creator.source_node_id = Some("gone".to_string());
    assert!(creator.offered_kinds(&graph).is_empty());
}

#[test]
fn creator_makes_a_child() {
    let mut graph = Graph::new();
    let root = graph.create_node("r".to_string(), NodeType::Root, at(0, 0));
    let mut creator = NodeCreator::new();
    creator.source_node_id = Some(root.clone());
    creator.new_node_title = "kid".to_string();
    creator.description = "about".to_string();
    creator.hover_pos = Some(at(3, 4));
    // closed
    assert!(creator.pick_child(&graph, NodeType::Concept).is_none());
    creator.show_creator = true;
    // not offered
    assert!(creator.pick_child(&graph, NodeType::Task).is_none());
    assert!(creator.pick_root().is_none());
    assert!(creator.show_creator);
    assert_eq!(creator.new_node_title, "kid");
    match creator.pick_child(&graph, NodeType::Category) {
        Some(CreationAction::CreateChild { parent_id, title, description, node_type, position }) => {
            assert_eq!(parent_id, root);
            assert_eq!(title, "kid");
            assert_eq!(description, "about");
            assert_eq!(node_type, NodeType::Category);
            assert_eq!(position, at(3, 4));
        }
        other => panic!("unexpected {:?}", other),
    }
    assert!(!creator.show_creator);
    assert_eq!(creator.new_node_title, "");
    assert_eq!(creator.description, "");
    assert!(creator.hover_pos.is_none() && creator.source_node_id.is_none() && creator.creation_info.is_none());
}

#[test]
fn creator_makes_a_root_or_an_evolution() {
    let mut creator = NodeCreator::new();
    creator.show_creator = true;
    creator.new_node_title = "sun".to_string();
    assert!(creator.pick_root().is_none());
    creator.hover_pos = Some(at(1, 2));
    assert!(creator.pick_evolution().is_none());
    match creator.pick_root() {
        Some(CreationAction::CreateRoot { title, description, position }) => {
            assert_eq!((title.as_str(), description.as_str(), position), ("sun", "", at(1, 2)));
        }
        other => panic!("unexpected {:?}", other),
    }
    assert!(!creator.show_creator);

    creator.show_creator = true;
    creator.hover_pos = Some(at(1, 2));
    creator.source_node_id = Some("base".to_string());
    creator.new_node_title = "next".to_string();
    match creator.pick_evolution() {
        Some(CreationAction::CreateEvolution { base_id, title, description: _, position }) => {
            assert_eq!((base_id.as_str(), title.as_str(), position), ("base", "next", at(1, 50002)));
        }
        other => panic!("unexpected {:?}", other),
    }
    assert!(creator.source_node_id.is_none());
    creator.show_creator = true;
    creator.hover_pos = Some(at(0, i128::MAX - 1));
    creator.source_node_id = Some("base".to_string());
    match creator.pick_evolution() {
        Some(CreationAction::CreateEvolution { position, .. }) => assert_eq!(position, at(0, i128::MAX)),
        other => panic!("unexpected {:?}", other),
    }
    creator.show_creator = true;
    creator.reset();
    assert!(!creator.show_creator);
}

#[test]
fn editor_controls() {
    let mut editor = NodeEditor::new();
    let mut node = Node::new("n".to_string(), NodeType::Planet, at(0, 0));
    assert_eq!(editor.shown_color(&node), [186, 223, 255, 255]);
    node.set_color([1, 2, 3, 4]);
    assert_eq!(editor.shown_color(&node), [1, 2, 3, 4]);
    editor.toggle_color_picker();
    assert!(editor.show_color_picker);
    editor.toggle_color_picker();
    assert!(!editor.show_color_picker);
    assert!(editor.slide_size(7000).is_none());
    editor.toggle_size_edit(&node);
    assert!(editor.size_edit_mode);
    assert_eq!(editor.temp_size, 15000);
    assert!(matches!(editor.slide_size(7000), Some(EditorAction::UpdateSize(7000))));
    assert_eq!(editor.temp_size, 7000);
    assert!(matches!(editor.slide_size(1), Some(EditorAction::UpdateSize(5000))));
    assert!(matches!(editor.slide_size(50001), Some(EditorAction::UpdateSize(50000))));
    assert_eq!(editor.temp_size, 50000);
    node.set_size(9000);
    editor.toggle_size_edit(&node);
    assert!(!editor.size_edit_mode);
    assert_eq!(editor.temp_size, 9000);
    let table = [
        (NodeType::Star, [255, 223, 186, 255], 20000),
        (NodeType::Root, [255, 223, 186, 255], 20000),
        (NodeType::Planet, [186, 223, 255, 255], 15000),
        (NodeType::Concept, [186, 223, 255, 255], 15000),
        (NodeType::Satellite, [200, 200, 200, 255], 8000),
        (NodeType::Task, [200, 200, 200, 255], 8000),
        (NodeType::Asteroid, [169, 169, 169, 255], 5000),
        (NodeType::Note, [169, 169, 169, 255], 5000),
        (NodeType::Evolution, [169, 169, 169, 255], 5000),
    ];
    for (kind, color, size) in table {
        assert_eq!(editor.get_default_color(&kind), color);
        assert_eq!(editor.get_default_size(&kind), size);
    }
}

#[test]
fn plane_view_opens_behind_the_start_menu() {
    let view = CosmosView::new();
    assert!(view.show_start_menu);
    assert!(!view.big_bang_active && !view.show_time_log);
    assert_eq!(view.universe_title, "New Universe");
    assert_eq!(view.graph.node_count(), 1);
    let star = view.graph.node_at(0);
    assert_eq!(star.title, "New Star");
    assert_eq!(star.node_type, NodeType::Star);
    assert_eq!(star.position, at(400000, 300000));
    assert_eq!(view.view_offset, at(0, 0));
    assert_eq!(view.current_universe_id.as_ref().unwrap().len(), 36);
    assert!(view.cached_universe_list.is_empty());
    assert_eq!(view.world_to_screen_pos(5, 6), at(5, 6));
}

#[test]
fn drag_actions_select_and_pan() {
    let mut view = CosmosView::new();
    view.temp_connection_line = Some(("x".to_string(), at(0, 0)));
    assert!(!view.handle_drag_action(DragAction::SelectNode("a".to_string())));
    assert_eq!(view.node_selector.selected_node, Some("a".to_string()));
    assert!(view.temp_connection_line.is_none());
    view.handle_drag_action(DragAction::StartDrawConnection("a".to_string(), at(1, 1)));
    assert_eq!(view.temp_connection_line, Some(("a".to_string(), at(1, 1))));
    view.handle_drag_action(DragAction::DrawingConnection { source_id: "a".to_string(), current_pos: at(2, 2) });
    assert_eq!(view.temp_connection_line, Some(("a".to_string(), at(2, 2))));
    view.handle_drag_action(DragAction::EndDrawConnection { source_id: "a".to_string(), end_pos: at(2, 2) });
    assert!(view.temp_connection_line.is_none());
    assert_eq!(view.node_selector.selected_node, Some("a".to_string()));
    view.handle_drag_action(DragAction::StartMoveNode("b".to_string()));
    assert_eq!(view.node_selector.selected_node, Some("b".to_string()));
    view.handle_drag_action(DragAction::EndMoveNode { node_id: "b".to_string(), end_pos: at(0, 0) });
    assert_eq!(view.node_selector.selected_node, Some("b".to_string()));
    view.handle_drag_action(DragAction::StartViewPan);
    assert!(view.node_selector.selected_node.is_none());
    view.handle_drag_action(DragAction::ViewPan(at(10, -5)));
    view.handle_drag_action(DragAction::ViewPan(at(10, -5)));
    assert_eq!(view.view_offset, at(20, -10));
    assert_eq!(view.world_to_screen_pos(1, 1), at(21, -9));
    view.handle_drag_action(DragAction::SelectNode("a".to_string()));
    view.handle_drag_action(DragAction::Deselect);
    assert!(view.node_selector.selected_node.is_none());
}

#[test]
fn drag_actions_move_and_make_nodes() {
    let mut view = CosmosView::new();
    let star = view.graph.id_at(0).clone();
    view.handle_drag_action(DragAction::ViewPan(at(100, 100)));
    view.handle_drag_action(DragAction::Dragging { node_id: star.clone(), mode: DragMode::MoveNode, current_pos: at(600, 700) });
    assert_eq!(view.graph.get_node(&star).unwrap().position, at(500, 600));
    view.handle_drag_action(DragAction::Dragging { node_id: star.clone(), mode: DragMode::ViewPan, current_pos: at(0, 0) });
    view.handle_drag_action(DragAction::Dragging { node_id: "gone".to_string(), mode: DragMode::MoveNode, current_pos: at(0, 0) });
    assert_eq!(view.graph.get_node(&star).unwrap().position, at(500, 600));

    view.node_creator.show_creator = true;
    view.drag_handler.drag_mode = DragMode::MoveNode;
    view.drag_handler.dragging = Some((star.clone(), at(0, 0)));
    assert!(view.handle_drag_action(DragAction::RequestCreateNode(at(1100, 2100))));
    assert_eq!(view.graph.node_count(), 2);
    let made = view.graph.node_at(1);
    assert_eq!(made.title, "New Star");
    assert_eq!(made.node_type, NodeType::Star);
    assert_eq!(made.position, at(1000, 2000));
    assert_eq!(view.node_selector.selected_node, Some(made.id.clone()));
    assert!(!view.node_creator.show_creator);
    assert_eq!(view.drag_handler.drag_mode, DragMode::Idle);
    assert!(view.drag_handler.dragging.is_none());

    view.temp_connection_line = Some((star.clone(), at(0, 0)));
    assert!(!view.handle_drag_action(DragAction::CreateChildNode { parent_id: star.clone(), position: at(300, 400) }));
    assert!(view.temp_connection_line.is_none());
    assert_eq!(view.graph.node_count(), 3);
    let planet = view.graph.node_at(2).clone();
    assert_eq!(planet.title, "New Planet");
    assert_eq!(planet.node_type, NodeType::Planet);
    assert_eq!(planet.position, at(200, 300));
    assert_eq!(planet.parent_id, Some(star.clone()));
    assert_eq!(view.graph.get_relations()[0].relation_type, RelationType::Hierarchy);
    view.handle_drag_action(DragAction::CreateChildNode { parent_id: planet.id.clone(), position: at(0, 0) });
    let satellite = view.graph.node_at(3).clone();
    assert_eq!(satellite.title, "New Satellite");
    view.handle_drag_action(DragAction::CreateChildNode { parent_id: satellite.id.clone(), position: at(0, 0) });
    let asteroid = view.graph.node_at(4).clone();
    assert_eq!(asteroid.title, "New Asteroid");
    assert_eq!(asteroid.node_type, NodeType::Asteroid);
    // an asteroid has no children, and neither has a node that is gone
    view.handle_drag_action(DragAction::CreateChildNode { parent_id: asteroid.id.clone(), position: at(0, 0) });
    view.handle_drag_action(DragAction::CreateChildNode { parent_id: "gone".to_string(), position: at(0, 0) });
    assert_eq!(view.graph.node_count(), 5);
    assert_eq!(view.graph.relation_count(), 3);
}

#[test]
fn double_click_opens_the_editor() {
    let mut view = CosmosView::new();
    let star = view.graph.id_at(0).clone();
    view.graph.get_node_mut(&star).unwrap().set_description("bright".to_string());
    view.node_editor.description = "old".to_string();
    view.handle_drag_action(DragAction::NodeDoubleClicked("gone".to_string()));
    assert!(view.node_editor.show_editor);
    assert_eq!(view.node_editor.editing_node, Some("gone".to_string()));
    assert_eq!(view.node_editor.description, "old");
    view.handle_drag_action(DragAction::NodeDoubleClicked(star.clone()));
    assert_eq!(view.node_editor.editing_node, Some(star.clone()));
    assert_eq!(view.node_editor.description, "bright");
    let bare = view.graph.create_node("bare".to_string(), NodeType::Star, at(0, 0));
    view.handle_drag_action(DragAction::NodeDoubleClicked(bare));
    assert_eq!(view.node_editor.description, "");
}

#[test]
fn creation_actions_make_nodes() {
    let mut view = CosmosView::new();
    let star = view.graph.id_at(0).clone();
    assert!(view.handle_creation_action(CreationAction::CreateRoot {
        title: "sun".to_string(),
        description: "hot".to_string(),
        position: at(1, 2),
    }));
    let sun = view.graph.node_at(1).clone();
    assert_eq!((sun.title.as_str(), sun.node_type, sun.position), ("sun", NodeType::Star, at(1, 2)));
    assert_eq!(sun.description, Some("hot".to_string()));
    assert!(view.handle_creation_action(CreationAction::CreateChild {
        parent_id: star.clone(),
        title: "earth".to_string(),
        description: "wet".to_string(),
        node_type: NodeType::Planet,
        position: at(3, 4),
    }));
    let earth = view.graph.node_at(2).clone();
    assert_eq!((earth.title.as_str(), earth.node_type, earth.position), ("earth", NodeType::Planet, at(3, 4)));
    assert_eq!(earth.description, Some("wet".to_string()));
    assert_eq!(earth.parent_id, Some(star.clone()));
    assert!(view.handle_creation_action(CreationAction::CreateEvolution {
        base_id: earth.id.clone(),
        title: "earth 2".to_string(),
        description: "dry".to_string(),
        position: at(5, 6),
    }));
    let next = view.graph.node_at(3).clone();
    assert_eq!((next.title.as_str(), next.node_type, next.position), ("earth 2", NodeType::Planet, at(5, 6)));
    assert_eq!(next.description, Some("dry".to_string()));
    assert_eq!(view.graph.get_relations()[1].relation_type, RelationType::Evolution);
    assert_eq!(view.graph.get_relations()[1].source_id, earth.id);
    assert!(view.handle_creation_action(CreationAction::CreateChild {
        parent_id: "gone".to_string(),
        title: "x".to_string(),
        description: "x".to_string(),
        node_type: NodeType::Planet,
        position: at(0, 0),
    }));
    assert!(view.handle_creation_action(CreationAction::CreateEvolution {
        base_id: "gone".to_string(),
        title: "x".to_string(),
        description: "x".to_string(),
        position: at(0, 0),
    }));
    assert_eq!(view.graph.node_count(), 4);
    assert_eq!(view.graph.relation_count(), 2);
}

#[test]
fn editor_actions_change_the_selected_node() {
    let mut view = CosmosView::new();
    let star = view.graph.id_at(0).clone();
    assert!(!view.handle_editor_action(EditorAction::UpdateTitle("x".to_string())));
    view.node_selector.select_node("gone".to_string());
    view.node_editor.show_editor = true;
    assert!(!view.handle_editor_action(EditorAction::UpdateTitle("x".to_string())));
    assert!(!view.handle_editor_action(EditorAction::CreateEvolutionLayer));
    assert!(!view.node_editor.show_editor);
    assert_eq!(view.graph.node_at(0).title, "New Star");
    assert_eq!(view.graph.node_count(), 1);

    view.node_selector.select_node(star.clone());
    assert!(view.handle_editor_action(EditorAction::UpdateTitle("Sun".to_string())));
    assert!(view.handle_editor_action(EditorAction::UpdateDescription("bright".to_string())));
    assert!(view.handle_editor_action(EditorAction::UpdateColor([9, 8, 7, 6])));
    assert!(view.handle_editor_action(EditorAction::UpdateSize(30000)));
    let node = view.graph.get_node(&star).unwrap().clone();
    assert_eq!(node.title, "Sun");
    assert_eq!(node.description, Some("bright".to_string()));
    assert_eq!(node.custom_color_rgba, Some([9, 8, 7, 6]));
    assert_eq!(node.custom_size, Some(30000));
    assert_eq!(node.position, at(400000, 300000));

    view.node_editor.show_editor = true;
    assert!(view.handle_editor_action(EditorAction::CreateEvolutionLayer));
    assert!(!view.node_editor.show_editor);
    let next = view.graph.node_at(1).clone();
    assert_eq!(next.title, "Sun Evolution");
    assert_eq!(next.node_type, NodeType::Star);
    assert_eq!(next.position, at(400000, 250000));
    assert_eq!(view.graph.get_relations()[0].relation_type, RelationType::Evolution);
    assert_eq!(view.graph.get_relations()[0].source_id, star);
    assert_eq!(view.graph.get_relations()[0].target_id, next.id);
}

#[test]
fn connection_action_adds_the_link() {
    let mut view = CosmosView::new();
    assert!(view.handle_connection_action(ConnectionAction::CreateConnection {
        source_id: "a".to_string(),
        target_id: "b".to_string(),
        relation_type: RelationType::Orbit,
    }));
    assert_eq!(view.graph.relation_count(), 1);
    let link = &view.graph.get_relations()[0];
    assert_eq!((link.source_id.as_str(), link.target_id.as_str(), link.relation_type), ("a", "b", RelationType::Orbit));
    assert_eq!(view.graph.node_count(), 1);
}

#[test]
fn saving_is_due_after_the_interval() {
    let mut view = CosmosView::new();
    view.mark_saved(1000);
    assert!(!view.save_is_due(1000));
    assert!(!view.save_is_due(5999));
    assert!(view.save_is_due(6000));
    assert!(!view.save_is_due(-1));
    view.mark_saved(i64::MIN);
    assert!(view.save_is_due(i64::MAX));
    view.mark_saved(i64::MAX);
    assert!(!view.save_is_due(i64::MIN));
    view.mark_saved(0);
    view.current_universe_id = None;
    assert!(!view.save_is_due(6000));
    assert!(!view.save_and_exit());
}

#[test]
fn way_back_and_universes() {
    let mut view = CosmosView::new();
    view.show_start_menu = false;
    assert!(!view.wants_name());
    assert!(view.save_and_exit());
    assert!(view.show_start_menu);
    view.universe_title = String::new();
    assert!(view.wants_name());

    view.node_selector.select_node("a".to_string());
    view.node_creator.show_creator = true;
    view.node_creator.new_node_title = "t".to_string();
    view.drag_handler.dragging = Some(("a".to_string(), at(0, 0)));
    view.view_offset = at(5, 5);
    let old_id = view.current_universe_id.clone();
    view.create_new_universe();
    assert!(view.graph.is_empty());
    assert_eq!(view.universe_title, "New Universe");
    assert_ne!(view.current_universe_id, old_id);
    assert!(view.node_selector.selected_node.is_none());
    assert!(!view.node_creator.show_creator);
    assert_eq!(view.node_creator.new_node_title, "");
    assert!(view.drag_handler.dragging.is_none());
    assert_eq!(view.view_offset, at(0, 0));

    let mut graph = Graph::new();
    graph.create_node("a".to_string(), NodeType::Star, at(0, 0));
    graph.create_node("b".to_string(), NodeType::Star, at(0, 0));
    view.load_universe(Universe::new("ignored".to_string(), "Mine".to_string(), graph), "u7");
    assert_eq!(view.universe_title, "Mine");
    assert_eq!(view.current_universe_id, Some("u7".to_string()));
    assert_eq!(view.graph.node_count(), 2);
}

#[test]
fn big_bang_lasts_three_seconds() {
    let mut view = CosmosView::new();
    assert_eq!(view.update_big_bang(), BangStep { throw_sparks: false, over: false });
    assert_eq!(view.big_bang_frames, 0);
    view.big_bang_frames = 77;
    view.start_big_bang();
    assert!(view.big_bang_active);
    assert_eq!(view.big_bang_frames, 0);
    for frame in 1..180 {
        let step = view.update_big_bang();
        assert_eq!(step, BangStep { throw_sparks: frame < 60, over: false });
        assert!(view.big_bang_active);
        assert_eq!(view.graph.node_count(), 1);
    }
    assert_eq!(view.update_big_bang(), BangStep { throw_sparks: false, over: true });
    assert!(!view.big_bang_active);
    assert!(!view.show_start_menu);
    assert!(view.graph.is_empty());
    assert_eq!(view.update_big_bang(), BangStep { throw_sparks: false, over: false });
    view.start_big_bang();
    view.big_bang_frames = u32::MAX;
    assert_eq!(view.update_big_bang(), BangStep { throw_sparks: false, over: true });
}
