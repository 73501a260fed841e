use cosmos::celestial::{Graph, NodeType, Position2D, RelationType};
use cosmos::storage::{
    count_nodes, count_occurrences, describe, graph_file_name, newest_first, plan_load, universe_file_name,
    universe_id_of, LoadPlan, UniverseInfo,
};
use cosmos::ui::cosmos_view::{CosmosView, ViewMode};

#[test]
fn view_opens_with_a_small_universe() {
    let view = CosmosView::new();
    assert_eq!(view.view_mode, ViewMode::Mode3D);
    assert!(view.auto_arrange_cake && view.show_layer_info);
    assert!(!view.show_node_creator && !view.show_node_content && !view.editing_node);
    assert!(view.selected_node.is_none() && view.new_node_type.is_none());
    assert_eq!(view.current_universe_id.as_ref().unwrap().len(), 36);
    assert_eq!(view.last_node_count, 0);
    let titles: Vec<String> = view.graph.get_nodes().iter().map(|n| n.title.clone()).collect();
    assert_eq!(titles, vec!["🌌 Cosmos Root", "💭 Main Concept", "🎯 Core Idea", "📋 Task A", "📝 Task B", "📓 Note 1"]);
    let kinds: Vec<NodeType> = view.graph.get_nodes().iter().map(|n| n.node_type).collect();
    assert_eq!(kinds, vec![
        NodeType::Root, NodeType::Concept, NodeType::Concept, NodeType::Task, NodeType::Task, NodeType::Note,
    ]);
    assert_eq!(view.graph.get_nodes()[1].position, Position2D::new(100000, -100000));
    let links = view.graph.get_relations();
    assert_eq!(links.len(), 5);
    let ends: Vec<(usize, usize)> = links.iter().map(|l| {
        let from = (0..6).find(|i| view.graph.id_at(*i) == &l.source_id).unwrap();
        let to = (0..6).find(|i| view.graph.id_at(*i) == &l.target_id).unwrap();
        (from, to)
    }).collect();
    assert_eq!(ends, vec![(0, 1), (0, 2), (1, 3), (1, 4), (2, 5)]);
    assert!(links.iter().all(|l| l.relation_type == RelationType::Parent));
    // the links name no parents, so that all but the root are placed as orphans
    assert_eq!(view.scene_3d.get_layer_stats(), vec![(0, 1, 8), (1, 2, 6), (2, 2, 4), (3, 1, 3), (4, 0, 2)]);
    let children: Vec<String> = view.graph.get_children(view.graph.id_at(0)).iter().map(|n| n.title.clone()).collect();
    assert_eq!(children, vec!["💭 Main Concept", "🎯 Core Idea"]);
}

#[test]
fn cake_is_kept_fresh_when_the_number_of_nodes_changes() {
    let mut view = CosmosView::new();
    assert!(view.keep_cake_fresh());
    assert_eq!(view.last_node_count, 6);
    assert!(!view.keep_cake_fresh());
    view.graph.create_node("late".to_string(), NodeType::Root, Position2D::new(0, 0));
    assert_eq!(view.scene_3d.get_layer_stats()[0], (0, 1, 8));
    assert!(view.keep_cake_fresh());
    assert_eq!(view.last_node_count, 7);
    assert_eq!(view.scene_3d.get_layer_stats()[0], (0, 2, 8));
    view.auto_arrange_cake = false;
    view.graph.create_node("later".to_string(), NodeType::Root, Position2D::new(0, 0));
    assert!(!view.keep_cake_fresh());
    assert_eq!(view.last_node_count, 7);
    assert_eq!(view.scene_3d.get_layer_stats()[0], (0, 2, 8));
    view.arrange();
    assert_eq!(view.scene_3d.get_layer_stats()[0], (0, 3, 8));
    assert_eq!(view.last_node_count, 7);
    view.auto_arrange_cake = true;
    view.create_new_universe();
    assert!(!view.keep_cake_fresh());
    assert_eq!(view.last_node_count, 7);
}

#[test]
fn pointer_on_the_cake() {
    let mut view = CosmosView::new();
    view.handle_3d_interactions(true, false, false, Some("a"));
    assert_eq!(view.selected_node, Some("a".to_string()));
    assert!(!view.show_node_content && !view.show_node_creator);
    view.handle_3d_interactions(false, false, true, Some("b"));
    assert_eq!(view.selected_node, Some("a".to_string()));
    assert!(!view.show_node_creator);
    view.handle_3d_interactions(true, true, false, Some("b"));
    assert_eq!(view.selected_node, Some("b".to_string()));
    assert!(view.show_node_content);
    view.handle_3d_interactions(false, true, false, None);
    assert_eq!(view.selected_node, Some("b".to_string()));
    view.handle_3d_interactions(false, true, false, Some("c"));
    assert_eq!(view.selected_node, Some("c".to_string()));
    view.handle_3d_interactions(true, false, true, None);
    assert_eq!(view.selected_node, None);
    assert!(view.show_node_creator);
    assert!(view.show_node_content);
}

#[test]
fn node_window_makes_a_node_on_the_lowest_tier() {
    let mut view = CosmosView::new();
    view.show_node_creator = true;
    view.new_node_title = "Fresh".to_string();
    assert!(view.confirm_node_creator().is_none());
    assert!(view.show_node_creator);
    assert_eq!(view.new_node_title, "Fresh");
    assert_eq!(view.graph.node_count(), 6);
    view.new_node_type = Some(NodeType::Task);
    let id = view.confirm_node_creator().unwrap();
    assert!(!view.show_node_creator);
    assert_eq!(view.new_node_title, "");
    assert_eq!(view.new_node_type, None);
    let node = view.graph.get_node(&id).unwrap();
    assert_eq!(node.title, "Fresh");
    assert_eq!(node.node_type, NodeType::Task);
    assert_eq!(node.layer, 0);
    let place = view.scene_3d.get_position(&id).unwrap();
    assert_eq!((place.layer, place.anchor), (0, 45000));
    assert_eq!(node.layer_position, Some(place));
    assert_eq!(view.graph.relation_count(), 5);
}

#[test]
fn nodes_made_for_show() {
    let mut view = CosmosView::new();
    let id = view.add_demo_node(1, 2, 3, 0);
    let node = view.graph.get_node(&id).unwrap();
    assert_eq!(node.title, "🌟 Plan");
    assert_eq!(node.node_type, NodeType::Task);
    assert_eq!(view.graph.node_count(), 7);
    let link = view.graph.get_relations().last().unwrap();
    assert_eq!(&link.source_id, view.graph.id_at(0));
    assert_eq!(link.target_id, id);
    assert_eq!(link.relation_type, RelationType::Parent);
    assert_eq!(view.scene_3d.get_position(&id).unwrap().layer, 0);

    let own = view.add_demo_node(0, 0, 0, 700);
    let node = view.graph.get_node(&own).unwrap();
    assert_eq!(node.title, "💡 Idea");
    assert_eq!(node.node_type, NodeType::Concept);
    // a choice beyond the last node stands for the last, which is the new node
    assert_eq!(view.graph.get_relations().last().unwrap().source_id, own);

    let last = view.add_demo_node(9, 9, 9, 8);
    let node = view.graph.get_node(&last).unwrap();
    assert_eq!(node.title, "💭 Insight");
    assert_eq!(node.node_type, NodeType::Note);
    assert_eq!(view.graph.get_relations().last().unwrap().source_id, last);
    let fifth = view.add_demo_node(2, 4, 4, 8);
    assert_eq!(view.graph.get_node(&fifth).unwrap().title, "🔍 Memory");
    assert_eq!(view.graph.get_relations().last().unwrap().source_id, last);
    let sixth = view.add_demo_node(2, 1, 1, 0);
    assert_eq!(view.graph.get_node(&sixth).unwrap().title, "🎯 Thought");
    let seventh = view.add_demo_node(2, 3, 2, 0);
    assert_eq!(view.graph.get_node(&seventh).unwrap().title, "📝 Goal");
}

#[test]
fn random_nodes_for_show_vary() {
    let mut view = CosmosView::new();
    for _ in 0..60 {
        view.add_random_demo_node();
    }
    assert_eq!(view.graph.node_count(), 66);
    assert_eq!(view.graph.relation_count(), 65);
    let names = ["Idea", "Thought", "Plan", "Goal", "Memory", "Insight"];
    let emojis = ["💡", "🎯", "📝", "🌟", "🔍", "💭"];
    let made: Vec<_> = view.graph.get_nodes()[6..].iter().map(|n| (n.title.clone(), n.node_type)).collect();
    for (title, kind) in &made {
        let (emoji, name) = title.split_once(' ').unwrap();
        assert!(emojis.contains(&emoji));
        assert!(names.contains(&name));
        assert!([NodeType::Concept, NodeType::Task, NodeType::Note].contains(kind));
    }
    assert!(made.iter().any(|m| m.1 != made[0].1));
    assert!(made.iter().any(|m| m.0 != made[0].0));
    let sources: Vec<usize> = view.graph.get_relations()[5..].iter().map(|l| {
        (0..66).find(|i| view.graph.id_at(*i) == &l.source_id).unwrap()
    }).collect();
    for (k, source) in sources.iter().enumerate() {
        assert!(*source <= 6 + k);
    }
    assert!(sources.iter().any(|s| *s != 0));
    for (level, count, room) in view.scene_3d.get_layer_stats() {
        assert!(count <= room, "tier {}", level);
    }
}

#[test]
fn universe_is_started_and_loaded() {
    let mut view = CosmosView::new();
    let old_id = view.current_universe_id.clone();
    view.selected_node = Some("x".to_string());
    view.create_new_universe();
    assert!(view.graph.is_empty());
    assert_eq!(view.graph.relation_count(), 0);
    assert!(view.scene_3d.get_target_positions().is_empty());
    assert_ne!(view.current_universe_id, old_id);
    assert_eq!(view.selected_node, Some("x".to_string()));

    let mut graph = Graph::new();
    let root = graph.create_node("R".to_string(), NodeType::Root, Position2D::new(0, 0));
    let kid = graph.create_child_node("k".to_string(), NodeType::Note, &root, Position2D::new(0, 0)).unwrap();
    view.load_universe(graph, "saved");
    assert_eq!(view.current_universe_id, Some("saved".to_string()));
    assert_eq!(view.graph.node_count(), 2);
    assert_eq!(view.scene_3d.get_position(&root).unwrap().layer, 0);
    assert_eq!(view.scene_3d.get_position(&kid).unwrap().layer, 1);
}

#[test]
fn file_names() {
    assert_eq!(universe_file_name("abc"), "abc.json");
    assert_eq!(graph_file_name("abc"), "graph_abc.json");
    assert_eq!(universe_file_name(""), ".json");
    assert_eq!(universe_id_of("graph_abc"), "abc");
    assert_eq!(universe_id_of("abc"), "abc");
    assert_eq!(universe_id_of("graph_"), "");
    assert_eq!(universe_id_of("graph"), "graph");
    assert_eq!(universe_id_of("my_graph_x"), "my_graph_x");
    assert_eq!(universe_id_of("graph_graph_x"), "graph_x");
}

#[test]
fn listing_entry() {
    let info = describe("graph_u1", 3, 77);
    assert_eq!(info.id, "u1");
    assert_eq!(info.title, "Universe u1");
    assert_eq!((info.node_count, info.created_at), (3, 77));
    assert_eq!(describe("plain", 0, -1).title, "Universe plain");
}

#[test]
fn nodes_are_counted_by_their_identifiers() {
    assert_eq!(count_nodes(""), 0);
    assert_eq!(count_nodes("{\"nodes\":{}}"), 0);
    assert_eq!(count_nodes("{\"id\":\"a\",\"x\":{\"id\":\"b\"}}"), 2);
    assert_eq!(count_nodes("\"id\":\"id\":\"id\""), 2);
    assert_eq!(count_nodes("\"id\" :"), 0);
    assert_eq!(count_nodes("é\"id\":é"), 1);
    assert_eq!(count_occurrences(b"aaaa", b"aa"), 2);
    assert_eq!(count_occurrences(b"aaaaa", b"aa"), 2);
    assert_eq!(count_occurrences(b"abab", b"bab"), 1);
    assert_eq!(count_occurrences(b"ab", b"abc"), 0);
    assert_eq!(count_occurrences(b"abc", b""), 0);
    assert_eq!(count_occurrences(b"", b""), 0);
    assert_eq!(count_occurrences(b"xabcabc", b"abc"), 2);
}

fn entry(id: &str, created_at: i64) -> UniverseInfo {
    UniverseInfo { id: id.to_string(), title: String::new(), created_at, node_count: 0 }
}

#[test]
fn listing_has_the_newest_first() {
    let sorted = newest_first(vec![entry("a", 5), entry("b", 9), entry("c", 5), entry("d", -3), entry("e", 9), entry("f", 7)]);
    let ids: Vec<&str> = sorted.iter().map(|i| i.id.as_str()).collect();
    assert_eq!(ids, vec!["b", "e", "f", "a", "c", "d"]);
    assert!(newest_first(Vec::new()).is_empty());
    let one = newest_first(vec![entry("x", 1)]);
    assert_eq!(one[0].id, "x");
    let sorted = newest_first(vec![entry("a", 1), entry("b", 2), entry("c", 3)]);
    let ids: Vec<&str> = sorted.iter().map(|i| i.id.as_str()).collect();
    assert_eq!(ids, vec!["c", "b", "a"]);
}

#[test]
fn graph_file_comes_before_universe_file() {
    assert_eq!(plan_load(true, true), LoadPlan::GraphFile);
    assert_eq!(plan_load(true, false), LoadPlan::GraphFile);
    assert_eq!(plan_load(false, true), LoadPlan::UniverseFile);
    assert_eq!(plan_load(false, false), LoadPlan::NotFound);
}
