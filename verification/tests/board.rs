use cosmos::board::{Board, CakeStructure, ConnectionType, InteractionMode, NodeType};
use cosmos::celestial::Position2D;

#[test]
fn board_opens_with_two_cakes_and_their_roots() {
    let board = Board::new();
    assert_eq!(board.cakes.len(), 2);
    assert_eq!(board.cakes[0].id, "main_project");
    assert_eq!(board.cakes[0].title, "Main Project");
    assert_eq!(board.cakes[0].center, Position2D::new(300000, 300000));
    assert_eq!((board.cakes[0].color_theme, board.cakes[0].max_layer, board.cakes[0].size_scale), (0, 0, 1000));
    assert_eq!(board.cakes[1].id, "research");
    assert_eq!(board.cakes[1].title, "Research Area");
    assert_eq!(board.cakes[1].center, Position2D::new(700000, 200000));
    assert_eq!(board.cakes[1].color_theme, 1);
    assert_eq!(board.nodes.len(), 2);
    assert_eq!(board.nodes[0].id, "Main_Goal_0");
    assert_eq!(board.nodes[0].title, "Main Goal");
    assert_eq!(board.nodes[0].cake_id, "main_project");
    assert_eq!((board.nodes[0].layer, board.nodes[0].angle, board.nodes[0].radius), (0, 0, 80000));
    assert_eq!(board.nodes[0].node_type, NodeType::Root);
    assert!(!board.nodes[0].selected);
    assert_eq!(board.nodes[1].id, "Research_1");
    assert_eq!(board.nodes[1].cake_id, "research");
    assert!(board.connections.is_empty());
    assert!(board.selected_node.is_none() && board.selected_cake.is_none());
    assert!(matches!(board.interaction_mode, InteractionMode::Idle));
    assert!(board.show_layers && board.show_connections && board.show_cake_titles);
    assert!(!board.show_create_menu && !board.show_cake_creator);
    assert_eq!(board.new_node_type, NodeType::Root);
}

#[test]
fn empty_board_has_nothing() {
    let board = Board::empty();
    assert!(board.cakes.is_empty() && board.nodes.is_empty() && board.connections.is_empty());
    assert_eq!(board.find_node("x"), None);
    assert_eq!(board.find_cake("x"), None);
    assert_eq!(board.count_on("x", 0), 0);
}

#[test]
fn node_kinds_of_the_board() {
    let table = [
        (NodeType::Root, "🌌", [255, 215, 0], 0),
        (NodeType::Concept, "💭", [100, 149, 237], 1),
        (NodeType::Task, "📋", [255, 105, 180], 2),
        (NodeType::Note, "📝", [50, 205, 50], 3),
    ];
    for (kind, glyph, rgb, layer) in table {
        assert_eq!(kind.emoji(), glyph);
        assert_eq!(kind.color(), rgb);
        assert_eq!(kind.layer(), layer);
    }
}

#[test]
fn added_node_is_named_by_title_and_number() {
    let mut board = Board::new();
    board.add_node_to_cake("My Big Plan", NodeType::Task, "research", 2, 2400);
    let node = &board.nodes[2];
    assert_eq!(node.id, "My_Big_Plan_2");
    assert_eq!(node.title, "My Big Plan");
    assert_eq!((node.layer, node.angle, node.radius), (2, 2400, 51200));
    assert_eq!(node.cake_id, "research");
    assert_eq!(board.cakes[1].max_layer, 2);
    assert_eq!(board.cakes[0].max_layer, 0);
    for i in 3..12 {
        board.add_node_to_cake("n", NodeType::Note, "nowhere", 7, 0);
        assert_eq!(board.nodes[i].id, format!("n_{}", i));
        assert_eq!(board.nodes[i].radius, 24000);
    }
    assert_eq!(board.nodes[10].id, "n_10");
    assert_eq!(board.cakes[1].max_layer, 2);
    board.add_node_to_cake(" a  b ", NodeType::Note, "research", 1, 0);
    assert_eq!(board.nodes[12].id, "_a__b__12");
    assert_eq!(board.nodes[12].radius, 64000);
    // a lower tier does not shrink the cake
    assert_eq!(board.cakes[1].max_layer, 2);
}

#[test]
fn cake_grows_but_does_not_shrink() {
    let mut cake = CakeStructure::new("c".to_string(), "C".to_string(), Position2D::new(1, 2));
    cake.expand_to_layer(3);
    assert_eq!(cake.max_layer, 3);
    cake.expand_to_layer(1);
    assert_eq!(cake.max_layer, 3);
    cake.expand_to_layer(3);
    assert_eq!(cake.max_layer, 3);
    assert_eq!((cake.id.as_str(), cake.title.as_str()), ("c", "C"));
}

#[test]
fn cake_colors_by_theme() {
    let mut cake = CakeStructure::new("c".to_string(), "C".to_string(), Position2D::new(0, 0));
    assert_eq!(cake.get_layer_color(0), [255, 215, 0, 120]);
    assert_eq!(cake.get_layer_color(5), [221, 160, 221, 120]);
    assert_eq!(cake.get_layer_color(6), [200, 200, 200, 120]);
    assert_eq!(cake.get_layer_color(600), [200, 200, 200, 120]);
    cake.color_theme = 1;
    assert_eq!(cake.get_layer_color(0), [255, 140, 0, 120]);
    assert_eq!(cake.get_layer_color(3), [255, 218, 185, 120]);
    assert_eq!(cake.get_layer_color(9), [255, 245, 230, 120]);
    cake.color_theme = 2;
    assert_eq!(cake.get_layer_color(1), [135, 206, 250, 120]);
    assert_eq!(cake.get_layer_color(4), [240, 248, 255, 120]);
    assert_eq!(cake.get_layer_color(7), [250, 250, 255, 120]);
    cake.color_theme = 3;
    assert_eq!(cake.get_layer_color(2), [154, 205, 50, 120]);
    cake.color_theme = 17;
    assert_eq!(cake.get_layer_color(0), [139, 69, 19, 120]);
    assert_eq!(cake.get_layer_color(8), [245, 245, 220, 120]);
}

#[test]
fn connection_by_titles() {
    let mut board = Board::new();
    board.add_node_to_cake("Research", NodeType::Concept, "main_project", 1, 0);
    board.add_connection("Main Goal", "Research", ConnectionType::InterCake);
    assert_eq!(board.connections.len(), 1);
    assert_eq!(board.connections[0].from_id, "Main_Goal_0");
    // the first node of that title counts
    assert_eq!(board.connections[0].to_id, "Research_1");
    assert_eq!(board.connections[0].connection_type, ConnectionType::InterCake);
    board.add_connection("Main Goal", "Nobody", ConnectionType::IntraCake);
    board.add_connection("Nobody", "Main Goal", ConnectionType::IntraCake);
    assert_eq!(board.connections.len(), 1);
}

#[test]
fn quick_cakes_are_numbered() {
    let mut board = Board::new();
    board.quick_new_cake();
    assert_eq!(board.cakes.len(), 3);
    let cake = &board.cakes[2];
    assert_eq!(cake.id, "cake_2");
    assert_eq!(cake.title, "Cake 3");
    assert_eq!(cake.center, Position2D::new(900000, 300000));
    assert_eq!((cake.color_theme, cake.max_layer), (2, 0));
    let root = &board.nodes[2];
    assert_eq!(root.id, "Root_2");
    assert_eq!(root.cake_id, "cake_2");
    assert_eq!((root.layer, root.radius, root.node_type), (0, 80000, NodeType::Root));
    for _ in 0..8 {
        board.quick_new_cake();
    }
    assert_eq!(board.cakes[10].id, "cake_10");
    assert_eq!(board.cakes[10].title, "Cake 11");
    assert_eq!(board.cakes[10].color_theme, 2);
    assert_eq!(board.cakes[9].color_theme, 1);
    assert_eq!(board.cakes[10].center, Position2D::new(3300000, 300000));
    assert_eq!(board.nodes[10].cake_id, "cake_10");
}

#[test]
fn cake_from_the_cake_window() {
    let mut board = Board::new();
    board.show_cake_creator = true;
    board.confirm_create_cake(Position2D::new(5, 6));
    assert_eq!(board.cakes.len(), 2);
    assert!(!board.show_cake_creator);
    board.show_cake_creator = true;
    board.new_cake_title = "Garden".to_string();
    board.new_cake_theme = 3;
    board.confirm_create_cake(Position2D::new(5, 6));
    assert!(!board.show_cake_creator);
    assert_eq!(board.new_cake_title, "");
    assert_eq!(board.cakes.len(), 3);
    assert_eq!(board.cakes[2].id, "cake_2");
    assert_eq!(board.cakes[2].title, "Garden");
    assert_eq!(board.cakes[2].center, Position2D::new(5, 6));
    assert_eq!(board.cakes[2].color_theme, 3);
    assert_eq!(board.nodes[2].title, "Root");
    assert_eq!(board.nodes[2].cake_id, "cake_2");
    board.new_cake_title = "Second".to_string();
    board.create_new_cake(Position2D::new(1, 1));
    assert_eq!(board.cakes[3].title, "Second");
    assert_eq!(board.new_cake_title, "Second");
}

#[test]
fn node_from_the_node_window() {
    let mut board = Board::new();
    board.show_create_menu = true;
    board.confirm_create_node();
    assert!(!board.show_create_menu);
    assert_eq!(board.nodes.len(), 2);

    board.new_node_title = "Idea".to_string();
    board.new_node_type = NodeType::Concept;
    board.show_create_menu = true;
    board.confirm_create_node();
    assert!(!board.show_create_menu);
    assert_eq!(board.new_node_title, "");
    let node = &board.nodes[2];
    assert_eq!(node.id, "Idea_2");
    // without a selection the first cake is taken
    assert_eq!(node.cake_id, "main_project");
    assert_eq!((node.layer, node.angle, node.radius), (1, 0, 64000));
    assert_eq!(board.cakes[0].max_layer, 1);

    board.selected_cake = Some("main_project".to_string());
    for (i, title) in ["b", "c"].iter().enumerate() {
        board.new_node_title = title.to_string();
        board.confirm_create_node();
        assert_eq!(board.nodes[3 + i].angle, 1200 * (i as i128 + 1));
    }
    board.selected_cake = Some("research".to_string());
    board.new_node_title = "d".to_string();
    board.new_node_type = NodeType::Note;
    board.confirm_create_node();
    assert_eq!(board.nodes[5].cake_id, "research");
    assert_eq!((board.nodes[5].layer, board.nodes[5].angle), (3, 0));
    assert_eq!(board.cakes[1].max_layer, 3);
    assert_eq!(board.count_on("main_project", 1), 3);
    assert_eq!(board.count_on("research", 3), 1);
}

#[test]
fn node_window_without_a_cake_makes_nothing() {
    let mut board = Board::empty();
    board.new_node_title = "Idea".to_string();
    board.show_create_menu = true;
    board.confirm_create_node();
    assert!(!board.show_create_menu);
    assert!(board.nodes.is_empty());
    assert_eq!(board.new_node_title, "Idea");
    // a selected cake that the board lacks still takes the node
    board.selected_cake = Some("lost".to_string());
    board.confirm_create_node();
    assert_eq!(board.nodes.len(), 1);
    assert_eq!(board.nodes[0].cake_id, "lost");
}

#[test]
fn clicks_select() {
    let mut board = Board::new();
    board.click(Some("Main_Goal_0"), Some("main_project"), false);
    assert_eq!(board.selected_node, Some("Main_Goal_0".to_string()));
    assert_eq!(board.selected_cake, None);
    assert_eq!(board.editing_node, None);
    board.click(None, Some("research"), true);
    assert_eq!(board.selected_cake, Some("research".to_string()));
    assert_eq!(board.selected_node, Some("Main_Goal_0".to_string()));
    board.click(Some("Research_1"), None, true);
    assert_eq!(board.selected_node, Some("Research_1".to_string()));
    assert_eq!(board.editing_node, Some("Research_1".to_string()));
    assert_eq!(board.edit_title, "Research");
    board.click(Some("nobody"), None, true);
    assert_eq!(board.selected_node, Some("nobody".to_string()));
    assert_eq!(board.editing_node, Some("Research_1".to_string()));
    board.click(None, None, false);
    assert_eq!(board.selected_node, None);
    assert_eq!(board.selected_cake, None);
    assert_eq!(board.editing_node, Some("Research_1".to_string()));
}

#[test]
fn drags_begin_by_what_was_hit() {
    let mut board = Board::new();
    board.begin_drag(Some("Main_Goal_0"), Some("main_project"));
    assert!(matches!(&board.interaction_mode, InteractionMode::CreatingConnection(id) if id == "Main_Goal_0"));
    board.begin_drag(None, Some("research"));
    assert!(matches!(&board.interaction_mode, InteractionMode::DraggingCake(id) if id == "research"));
    board.drag_cake(Position2D::new(1000, -2000));
    assert_eq!(board.cakes[1].center, Position2D::new(701000, 198000));
    assert_eq!(board.cakes[0].center, Position2D::new(300000, 300000));
    board.drag_cake(Position2D::new(i128::MAX, i128::MIN));
    assert_eq!(board.cakes[1].center, Position2D::new(i128::MAX, i128::MIN + 198000));
    board.end_drag(None);
    assert!(matches!(board.interaction_mode, InteractionMode::Idle));
    board.drag_cake(Position2D::new(1, 1));
    assert_eq!(board.cakes[1].center, Position2D::new(i128::MAX, i128::MIN + 198000));
    board.begin_drag(None, None);
    assert!(matches!(board.interaction_mode, InteractionMode::PanningView));
    board.begin_drag(None, Some("lost"));
    board.drag_cake(Position2D::new(1, 1));
    assert_eq!(board.cakes[0].center, Position2D::new(300000, 300000));
}

#[test]
fn drawn_connections_follow_the_rules() {
    let mut board = Board::new();
    board.add_node_to_cake("Idea", NodeType::Concept, "main_project", 1, 0);
    // between cakes
    board.begin_drag(Some("Main_Goal_0"), None);
    board.end_drag(Some("Research_1"));
    assert!(matches!(board.interaction_mode, InteractionMode::Idle));
    assert_eq!(board.connections.len(), 1);
    assert_eq!(board.connections[0].from_id, "Main_Goal_0");
    assert_eq!(board.connections[0].to_id, "Research_1");
    assert_eq!(board.connections[0].connection_type, ConnectionType::InterCake);
    // within a cake
    board.begin_drag(Some("Idea_2"), None);
    board.end_drag(Some("Main_Goal_0"));
    assert_eq!(board.connections.len(), 2);
    assert_eq!(board.connections[1].connection_type, ConnectionType::IntraCake);
    assert!(board.are_joined("Main_Goal_0", "Idea_2"));
    assert!(!board.are_joined("Research_1", "Idea_2"));
    // not twice, in neither direction
    board.begin_drag(Some("Main_Goal_0"), None);
    board.end_drag(Some("Idea_2"));
    board.begin_drag(Some("Idea_2"), None);
    board.end_drag(Some("Main_Goal_0"));
    assert_eq!(board.connections.len(), 2);
    // not to itself, not to nothing, not to a node that the board lacks
    board.begin_drag(Some("Idea_2"), None);
    board.end_drag(Some("Idea_2"));
    board.begin_drag(Some("Idea_2"), None);
    board.end_drag(None);
    board.begin_drag(Some("Idea_2"), None);
    board.end_drag(Some("nobody"));
    assert_eq!(board.connections.len(), 2);
    // only while a connection is drawn
    board.begin_drag(None, Some("research"));
    board.end_drag(Some("Research_1"));
    board.end_drag(Some("Research_1"));
    assert_eq!(board.connections.len(), 2);
    // from a node that the board lacks the connection leads between cakes
    board.begin_drag(Some("ghost"), None);
    board.end_drag(Some("Research_1"));
    assert_eq!(board.connections.len(), 3);
    assert_eq!(board.connections[2].from_id, "ghost");
    assert_eq!(board.connections[2].connection_type, ConnectionType::InterCake);
}

#[test]
fn edit_window_renames_and_deletes() {
    let mut board = Board::new();
    board.add_node_to_cake("Idea", NodeType::Concept, "main_project", 1, 0);
    board.add_connection("Main Goal", "Idea", ConnectionType::IntraCake);
    board.add_connection("Idea", "Research", ConnectionType::InterCake);
    board.add_connection("Main Goal", "Research", ConnectionType::InterCake);
    board.click(Some("Idea_2"), None, true);
    board.edit_title = "Better idea".to_string();
    board.save_edit();
    assert_eq!(board.editing_node, None);
    assert_eq!(board.nodes[2].title, "Better idea");
    assert_eq!(board.nodes[2].id, "Idea_2");
    assert_eq!(board.nodes[0].title, "Main Goal");
    assert_eq!(board.selected_node, Some("Idea_2".to_string()));

    board.click(Some("Idea_2"), None, true);
    board.cancel_edit();
    assert_eq!(board.editing_node, None);
    assert_eq!(board.nodes.len(), 3);

    board.click(Some("Idea_2"), None, true);
    board.delete_edited();
    assert_eq!(board.editing_node, None);
    assert_eq!(board.selected_node, None);
    let ids: Vec<&str> = board.nodes.iter().map(|n| n.id.as_str()).collect();
    assert_eq!(ids, vec!["Main_Goal_0", "Research_1"]);
    assert_eq!(board.connections.len(), 1);
    assert_eq!(board.connections[0].to_id, "Research_1");

    board.selected_node = Some("Main_Goal_0".to_string());
    board.delete_edited();
    assert_eq!(board.nodes.len(), 2);
    assert_eq!(board.selected_node, None);
    board.editing_node = Some("nobody".to_string());
    board.save_edit();
    board.editing_node = Some("nobody".to_string());
    board.delete_edited();
    assert_eq!(board.nodes.len(), 2);
    assert_eq!(board.connections.len(), 1);
}
