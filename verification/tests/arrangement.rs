use cosmos::celestial::{Graph, NodeType, Position2D};
use cosmos::ui::scene_3d::{anchor_angle, Layer, Scene3D};

fn origin() -> Position2D {
    Position2D::new(0, 0)
}

fn exact_cake(capacities: &[usize]) -> Scene3D {
    Scene3D::with_layers(&capacities.to_vec(), 200000, 0, 0)
}

fn total_occupancy(scene: &Scene3D) -> usize {
    scene.get_layer_stats().iter().map(|s| s.1).sum()
}

fn assert_within_rooms(scene: &Scene3D) {
    for (level, count, room) in scene.get_layer_stats() {
        assert!(count <= room, "tier {} holds {} of {}", level, count, room);
    }
}

#[test]
fn root_and_three_children_spill_to_the_third_tier() {
    let mut graph = Graph::new();
    let root = graph.create_node("R".to_string(), NodeType::Root, origin());
    let a = graph.create_child_node("a".to_string(), NodeType::Concept, &root, origin()).unwrap();
    let b = graph.create_child_node("b".to_string(), NodeType::Concept, &root, origin()).unwrap();
    let c = graph.create_child_node("c".to_string(), NodeType::Concept, &root, origin()).unwrap();
    let mut scene = exact_cake(&[2, 2, 2]);
    scene.arrange_graph_as_cake(&mut graph);

    let at_root = scene.get_position(&root).unwrap();
    assert_eq!(at_root.layer, 0);
    assert_eq!(at_root.radius, 200000);
    assert_eq!(at_root.angle, 0);
    assert_eq!(at_root.anchor, 0);
    assert_eq!(at_root.height_offset, 0);

    let at_a = scene.get_position(&a).unwrap();
    assert_eq!((at_a.layer, at_a.anchor, at_a.radius, at_a.height_offset), (1, 0, 160000, 100000));
    let at_b = scene.get_position(&b).unwrap();
    assert_eq!((at_b.layer, at_b.anchor, at_b.radius, at_b.height_offset), (1, 180000, 160000, 100000));
    let at_c = scene.get_position(&c).unwrap();
    assert_eq!((at_c.layer, at_c.anchor, at_c.radius, at_c.height_offset), (2, 0, 128000, 200000));

    assert_eq!(scene.get_layer_stats(), vec![(0, 1, 2), (1, 2, 2), (2, 1, 2)]);
}

#[test]
fn root_radius_stays_within_the_play() {
    let mut graph = Graph::new();
    let root = graph.create_node("R".to_string(), NodeType::Root, origin());
    let mut scene = Scene3D::with_layers(&vec![2, 2, 2], 200000, 15000, 200);
    scene.arrange_graph_as_cake(&mut graph);
    let at_root = scene.get_position(&root).unwrap();
    assert_eq!(at_root.layer, 0);
    assert_eq!(at_root.anchor, 0);
    assert!(160000 <= at_root.radius && at_root.radius < 240000);
    assert!(-15000 <= at_root.angle && at_root.angle < 15000);
}

#[test]
fn empty_graph_gives_empty_cake() {
    let mut graph = Graph::new();
    let mut scene = Scene3D::new();
    scene.arrange_graph_as_cake(&mut graph);
    assert!(scene.get_target_positions().is_empty());
    assert_eq!(scene.get_layer_stats(), vec![(0, 0, 8), (1, 0, 6), (2, 0, 4), (3, 0, 3), (4, 0, 2)]);
}

#[test]
fn empty_graph_clears_what_stood_on_the_cake() {
    let mut graph = Graph::new();
    let mut scene = Scene3D::new();
    scene.add_node_to_cake(&mut graph, "ghost", None);
    assert_eq!(total_occupancy(&scene), 1);
    scene.arrange_graph_as_cake(&mut graph);
    assert!(scene.get_target_positions().is_empty());
    assert_eq!(total_occupancy(&scene), 0);
    assert!(scene.get_position("ghost").is_none());
}

#[test]
fn orphan_note_goes_to_the_tier_of_its_kind() {
    let mut graph = Graph::new();
    let note = graph.create_node("n".to_string(), NodeType::Note, origin());
    let mut scene = Scene3D::new();
    scene.arrange_graph_as_cake(&mut graph);
    let at = scene.get_position(&note).unwrap();
    assert_eq!(at.layer, 3);
    assert_eq!(at.anchor, 0);
    assert_eq!(scene.get_layer_stats()[3], (3, 1, 3));
}

#[test]
fn orphans_take_the_tier_that_their_kind_prefers() {
    let mut graph = Graph::new();
    let concept = graph.create_node("c".to_string(), NodeType::Concept, origin());
    let task = graph.create_node("t".to_string(), NodeType::Task, origin());
    let note = graph.create_node("n".to_string(), NodeType::Note, origin());
    let star = graph.create_node("s".to_string(), NodeType::Star, origin());
    let mut scene = exact_cake(&[8, 6, 4, 3, 2]);
    scene.arrange_graph_as_cake(&mut graph);
    assert_eq!(scene.get_position(&concept).unwrap().layer, 1);
    assert_eq!(scene.get_position(&task).unwrap().layer, 2);
    assert_eq!(scene.get_position(&note).unwrap().layer, 3);
    assert_eq!(scene.get_position(&star).unwrap().layer, 2);
    // each orphan stands at the place of its rank among the orphans
    assert_eq!(scene.get_position(&concept).unwrap().anchor, 0);
    assert_eq!(scene.get_position(&task).unwrap().anchor, 90000);
    assert_eq!(scene.get_position(&note).unwrap().anchor, 240000);
    assert_eq!(scene.get_position(&star).unwrap().anchor, 270000);
}

#[test]
fn second_root_is_promoted_when_the_lowest_tier_is_full() {
    let mut graph = Graph::new();
    let first = graph.create_node("one".to_string(), NodeType::Root, origin());
    let second = graph.create_node("two".to_string(), NodeType::Root, origin());
    let mut scene = exact_cake(&[1, 4, 4]);
    scene.arrange_graph_as_cake(&mut graph);
    assert_eq!(scene.get_position(&first).unwrap().layer, 0);
    assert_eq!(scene.get_position(&second).unwrap().layer, 1);
    assert_eq!(scene.get_position(&second).unwrap().anchor, 0);
    assert_eq!(scene.get_layer_stats(), vec![(0, 1, 1), (1, 1, 4), (2, 0, 4)]);
}

#[test]
fn roots_stand_lowest_wherever_they_were_entered() {
    let mut graph = Graph::new();
    let note = graph.create_node("n".to_string(), NodeType::Note, origin());
    let first = graph.create_node("one".to_string(), NodeType::Root, origin());
    let task = graph.create_node("t".to_string(), NodeType::Task, origin());
    let second = graph.create_node("two".to_string(), NodeType::Root, origin());
    let mut scene = exact_cake(&[8, 6, 4, 3, 2]);
    scene.arrange_graph_as_cake(&mut graph);
    let at_first = scene.get_position(&first).unwrap();
    let at_second = scene.get_position(&second).unwrap();
    assert_eq!((at_first.layer, at_first.anchor), (0, 0));
    assert_eq!((at_second.layer, at_second.anchor), (0, 45000));
    assert_eq!(scene.get_position(&note).unwrap().layer, 3);
    assert_eq!(scene.get_position(&task).unwrap().layer, 2);
}

#[test]
fn a_root_named_as_a_child_keeps_the_lowest_tier() {
    let mut graph = Graph::new();
    let first = graph.create_node("one".to_string(), NodeType::Root, origin());
    let second = graph.create_child_node("two".to_string(), NodeType::Root, &first, origin()).unwrap();
    let mut scene = exact_cake(&[8, 6, 4]);
    scene.arrange_graph_as_cake(&mut graph);
    assert_eq!(scene.get_position(&first).unwrap().layer, 0);
    assert_eq!(scene.get_position(&second).unwrap().layer, 0);
    assert_eq!(scene.get_layer_stats(), vec![(0, 2, 8), (1, 0, 6), (2, 0, 4)]);
}

#[test]
fn children_stand_on_the_tier_of_their_depth() {
    let mut graph = Graph::new();
    let root = graph.create_node("R".to_string(), NodeType::Root, origin());
    let concept = graph.create_child_node("c".to_string(), NodeType::Concept, &root, origin()).unwrap();
    let task = graph.create_child_node("t".to_string(), NodeType::Task, &concept, origin()).unwrap();
    let note = graph.create_child_node("n".to_string(), NodeType::Note, &task, origin()).unwrap();
    let deeper = graph.create_child_node("d".to_string(), NodeType::Note, &note, origin()).unwrap();
    let deepest = graph.create_child_node("e".to_string(), NodeType::Note, &deeper, origin()).unwrap();
    let mut scene = exact_cake(&[8, 6, 4, 3, 2]);
    scene.arrange_graph_as_cake(&mut graph);
    assert_eq!(scene.get_position(&root).unwrap().layer, 0);
    assert_eq!(scene.get_position(&concept).unwrap().layer, 1);
    assert_eq!(scene.get_position(&task).unwrap().layer, 2);
    assert_eq!(scene.get_position(&note).unwrap().layer, 3);
    assert_eq!(scene.get_position(&deeper).unwrap().layer, 4);
    // the depth is held at the deepest tier
    assert_eq!(scene.get_position(&deepest).unwrap().layer, 4);
}

#[test]
fn nodes_beyond_the_room_of_the_cake_stay_off_it() {
    let mut graph = Graph::new();
    let root = graph.create_node("R".to_string(), NodeType::Root, origin());
    let a = graph.create_child_node("a".to_string(), NodeType::Concept, &root, origin()).unwrap();
    let b = graph.create_child_node("b".to_string(), NodeType::Concept, &root, origin()).unwrap();
    let c = graph.create_child_node("c".to_string(), NodeType::Concept, &root, origin()).unwrap();
    let mut scene = exact_cake(&[1, 1, 1]);
    scene.arrange_graph_as_cake(&mut graph);
    assert_eq!(scene.get_position(&root).unwrap().layer, 0);
    assert_eq!(scene.get_position(&a).unwrap().layer, 1);
    assert_eq!(scene.get_position(&b).unwrap().layer, 2);
    assert!(scene.get_position(&c).is_none());
    assert_eq!(scene.get_target_positions().len(), 3);
    assert_eq!(scene.get_layer_stats(), vec![(0, 1, 1), (1, 1, 1), (2, 1, 1)]);
    // the node that found no room was not told a place
    assert!(graph.get_node(&c).unwrap().layer_position.is_none());
}

#[test]
fn a_cake_without_tiers_holds_nothing() {
    let mut graph = Graph::new();
    let root = graph.create_node("R".to_string(), NodeType::Root, origin());
    let child = graph.create_child_node("a".to_string(), NodeType::Concept, &root, origin()).unwrap();
    let mut scene = exact_cake(&[]);
    scene.arrange_graph_as_cake(&mut graph);
    assert!(scene.get_position(&root).is_none());
    assert!(scene.get_position(&child).is_none());
    scene.add_node_to_cake(&mut graph, &root, None);
    scene.move_node_to_layer(&mut graph, &root, 0);
    assert!(scene.get_target_positions().is_empty());
    assert!(scene.get_layer_stats().is_empty());
}

#[test]
fn a_child_of_a_missing_parent_is_placed_as_an_orphan() {
    let mut graph = Graph::new();
    let root = graph.create_node("R".to_string(), NodeType::Root, origin());
    let lost = graph.create_child_node("lost".to_string(), NodeType::Note, &root, origin()).unwrap();
    graph.remove_node(&root);
    assert!(graph.get_node(&lost).unwrap().parent_id.is_some());
    let mut scene = exact_cake(&[8, 6, 4, 3, 2]);
    scene.arrange_graph_as_cake(&mut graph);
    assert_eq!(scene.get_position(&lost).unwrap().layer, 3);
}

#[test]
fn a_child_under_a_node_that_hangs_under_no_root_stays_off_the_cake() {
    let mut graph = Graph::new();
    let concept = graph.create_node("c".to_string(), NodeType::Concept, origin());
    let task = graph.create_child_node("t".to_string(), NodeType::Task, &concept, origin()).unwrap();
    let mut scene = exact_cake(&[8, 6, 4, 3, 2]);
    scene.arrange_graph_as_cake(&mut graph);
    assert_eq!(scene.get_position(&concept).unwrap().layer, 1);
    assert!(scene.get_position(&task).is_none());
}

#[test]
fn parents_that_name_each_other_do_not_hold_up_the_arrangement() {
    let mut graph = Graph::new();
    let a = graph.create_node("a".to_string(), NodeType::Concept, origin());
    let b = graph.create_child_node("b".to_string(), NodeType::Concept, &a, origin()).unwrap();
    graph.get_node_mut(&a).unwrap().parent_id = Some(b.clone());
    let root = graph.create_node("R".to_string(), NodeType::Root, origin());
    graph.get_node_mut(&root).unwrap().parent_id = Some(root.clone());
    let mut scene = exact_cake(&[8, 6, 4, 3, 2]);
    scene.arrange_graph_as_cake(&mut graph);
    assert_eq!(scene.get_position(&root).unwrap().layer, 0);
    assert!(scene.get_position(&a).is_none());
    assert!(scene.get_position(&b).is_none());
    assert_eq!(scene.get_layer_stats()[0], (0, 1, 8));
}

#[test]
fn evolved_node_joins_the_tier_of_its_origin() {
    let mut graph = Graph::new();
    let root = graph.create_node("R".to_string(), NodeType::Root, origin());
    let idea = graph.create_child_node("Idea".to_string(), NodeType::Concept, &root, origin()).unwrap();
    let evolved = graph.create_node("Idea (Evolution)".to_string(), NodeType::Evolution, origin());
    let mut scene = exact_cake(&[8, 6, 4, 3, 2]);
    scene.arrange_graph_as_cake(&mut graph);
    assert_eq!(scene.get_position(&idea).unwrap().layer, 1);
    let at = scene.get_position(&evolved).unwrap();
    assert_eq!(at.layer, 1);
    // it goes behind the node that stood on the tier: the second of six places
    assert_eq!(at.anchor, 60000);
}

#[test]
fn evolved_node_without_origin_goes_to_the_deepest_tier() {
    let mut graph = Graph::new();
    let evolved = graph.create_node("Nothing (Evolution)".to_string(), NodeType::Evolution, origin());
    let plain = graph.create_node("Plain".to_string(), NodeType::Evolution, origin());
    let mut scene = exact_cake(&[8, 6, 4, 3, 2]);
    scene.arrange_graph_as_cake(&mut graph);
    assert_eq!(scene.get_position(&evolved).unwrap().layer, 4);
    assert_eq!(scene.get_position(&evolved).unwrap().anchor, 0);
    // a title without the mark names the node itself, which stands nowhere yet
    assert_eq!(scene.get_position(&plain).unwrap().layer, 4);
    assert_eq!(scene.get_position(&plain).unwrap().anchor, 180000);
}

#[test]
fn evolved_node_whose_origin_is_off_the_cake_goes_to_the_deepest_tier() {
    let mut graph = Graph::new();
    let evolved = graph.create_node("Late (Evolution)".to_string(), NodeType::Evolution, origin());
    let late = graph.create_node("Late".to_string(), NodeType::Note, origin());
    let mut scene = exact_cake(&[8, 6, 4, 3, 2]);
    scene.arrange_graph_as_cake(&mut graph);
    // the origin is an orphan and is placed only after the evolved nodes
    assert_eq!(scene.get_position(&evolved).unwrap().layer, 4);
    assert_eq!(scene.get_position(&late).unwrap().layer, 3);
}

#[test]
fn only_a_mark_at_the_end_of_the_title_counts() {
    let mut graph = Graph::new();
    let root = graph.create_node("R".to_string(), NodeType::Root, origin());
    let idea = graph.create_child_node("Idea".to_string(), NodeType::Concept, &root, origin()).unwrap();
    let marked_inside = graph.create_node("Idea (Evolution) two".to_string(), NodeType::Evolution, origin());
    let mut scene = exact_cake(&[8, 6, 4, 3, 2]);
    scene.arrange_graph_as_cake(&mut graph);
    assert_eq!(scene.get_position(&idea).unwrap().layer, 1);
    assert_eq!(scene.get_position(&marked_inside).unwrap().layer, 4);
}

#[test]
fn arranging_twice_gives_the_same_tiers_and_anchors() {
    let mut graph = Graph::new();
    let root = graph.create_node("R".to_string(), NodeType::Root, origin());
    let mut ids = vec![root.clone()];
    for i in 0..7 {
        ids.push(graph.create_child_node(format!("c{}", i), NodeType::Concept, &root, origin()).unwrap());
    }
    ids.push(graph.create_node("c0 (Evolution)".to_string(), NodeType::Evolution, origin()));
    ids.push(graph.create_node("note".to_string(), NodeType::Note, origin()));
    let mut scene = exact_cake(&[8, 6, 4, 3, 2]);
    scene.arrange_graph_as_cake(&mut graph);
    let first: Vec<_> = ids.iter().map(|id| scene.get_position(id)).collect();
    let stats = scene.get_layer_stats();
    scene.arrange_graph_as_cake(&mut graph);
    let second: Vec<_> = ids.iter().map(|id| scene.get_position(id)).collect();
    assert_eq!(first, second);
    assert_eq!(stats, scene.get_layer_stats());
}

#[test]
fn arranging_with_play_gives_the_same_tiers_and_anchors() {
    let mut graph = Graph::new();
    let root = graph.create_node("R".to_string(), NodeType::Root, origin());
    let mut ids = vec![root.clone()];
    for i in 0..9 {
        ids.push(graph.create_child_node(format!("c{}", i), NodeType::Concept, &root, origin()).unwrap());
    }
    let mut exact = exact_cake(&[8, 6, 4, 3, 2]);
    exact.arrange_graph_as_cake(&mut graph);
    let mut loose = Scene3D::new();
    loose.arrange_graph_as_cake(&mut graph);
    for id in &ids {
        let a = exact.get_position(id).unwrap();
        let b = loose.get_position(id).unwrap();
        assert_eq!((a.layer, a.anchor, a.height_offset), (b.layer, b.anchor, b.height_offset));
        assert!(b.anchor - 15000 <= b.angle && b.angle < b.anchor + 15000);
        assert!(a.radius * 800 / 1000 <= b.radius && b.radius < a.radius * 1200 / 1000);
    }
    rebalance_keeps(&mut loose, &mut graph, &ids);
}

fn rebalance_keeps(scene: &mut Scene3D, graph: &mut Graph, ids: &[String]) {
    let before: Vec<_> = ids.iter().map(|id| {
        let p = scene.get_position(id).unwrap();
        (p.layer, p.anchor)
    }).collect();
    scene.rebalance_cake(graph);
    let after: Vec<_> = ids.iter().map(|id| {
        let p = scene.get_position(id).unwrap();
        (p.layer, p.anchor)
    }).collect();
    assert_eq!(before, after);
}

#[test]
fn the_play_spreads_the_angles() {
    let mut graph = Graph::new();
    let mut scene = Scene3D::with_layers(&vec![64], 200000, 15000, 200);
    let mut angle_offsets = Vec::new();
    let mut radii = Vec::new();
    for i in 0..64 {
        let id = format!("n{}", i);
        scene.add_node_to_cake(&mut graph, &id, None);
        let p = scene.get_position(&id).unwrap();
        assert!(-15000 <= p.angle - p.anchor && p.angle - p.anchor < 15000);
        assert!(160000 <= p.radius && p.radius < 240000);
        angle_offsets.push(p.angle - p.anchor);
        radii.push(p.radius);
    }
    assert!(angle_offsets.iter().any(|o| *o != -15000));
    assert!(angle_offsets.iter().any(|o| *o != angle_offsets[0]));
    assert!(radii.iter().any(|r| *r != 160000));
    assert!(radii.iter().any(|r| *r != radii[0]));
}

#[test]
fn arrangement_tells_the_nodes_their_places() {
    let mut graph = Graph::new();
    let root = graph.create_node("R".to_string(), NodeType::Root, origin());
    let child = graph.create_child_node("c".to_string(), NodeType::Task, &root, origin()).unwrap();
    let before = graph.get_node(&child).unwrap().clone();
    assert_eq!(before.layer, 2);
    let mut scene = Scene3D::new();
    scene.arrange_graph_as_cake(&mut graph);
    let record = scene.get_position(&child).unwrap();
    let node = graph.get_node(&child).unwrap();
    assert_eq!(node.layer, 1);
    assert_eq!(node.layer, record.layer);
    assert_eq!(node.layer_radius, record.radius);
    assert_eq!(node.layer_angle, record.angle);
    assert_eq!(node.layer_position, Some(record));
    assert_eq!(node.title, before.title);
    assert_eq!(node.parent_id, before.parent_id);
    assert_eq!(node.position, before.position);
    assert_eq!(graph.node_count(), 2);
    assert_eq!(graph.relation_count(), 1);
}

#[test]
fn adding_a_child_puts_it_above_its_parent() {
    let mut graph = Graph::new();
    let mut scene = exact_cake(&[8, 6, 4, 3, 2]);
    scene.add_node_to_cake(&mut graph, "root", None);
    scene.add_node_to_cake(&mut graph, "kid", Some("root"));
    scene.add_node_to_cake(&mut graph, "kid2", Some("root"));
    scene.add_node_to_cake(&mut graph, "grandkid", Some("kid"));
    assert_eq!(scene.get_position("root").unwrap().layer, 0);
    assert_eq!(scene.get_position("kid").unwrap().layer, 1);
    assert_eq!(scene.get_position("kid").unwrap().anchor, 0);
    assert_eq!(scene.get_position("kid2").unwrap().layer, 1);
    assert_eq!(scene.get_position("kid2").unwrap().anchor, 60000);
    assert_eq!(scene.get_position("grandkid").unwrap().layer, 2);
    assert_eq!(scene.get_layer_stats(), vec![(0, 1, 8), (1, 2, 6), (2, 1, 4), (3, 0, 3), (4, 0, 2)]);
}

#[test]
fn adding_under_a_parent_that_is_off_the_cake_uses_the_lowest_tier() {
    let mut graph = Graph::new();
    let mut scene = exact_cake(&[8, 6, 4, 3, 2]);
    scene.add_node_to_cake(&mut graph, "kid", Some("nobody"));
    assert_eq!(scene.get_position("kid").unwrap().layer, 0);
}

#[test]
fn adding_under_the_deepest_tier_stays_on_it() {
    let mut graph = Graph::new();
    let mut scene = exact_cake(&[2, 2, 2]);
    scene.add_node_to_cake(&mut graph, "a", None);
    scene.add_node_to_cake(&mut graph, "b", Some("a"));
    scene.add_node_to_cake(&mut graph, "c", Some("b"));
    scene.add_node_to_cake(&mut graph, "d", Some("c"));
    assert_eq!(scene.get_position("c").unwrap().layer, 2);
    assert_eq!(scene.get_position("d").unwrap().layer, 2);
    scene.add_node_to_cake(&mut graph, "e", Some("d"));
    assert!(scene.get_position("e").is_none());
    assert_within_rooms(&scene);
}

#[test]
fn adding_touches_no_other_node() {
    let mut graph = Graph::new();
    let root = graph.create_node("R".to_string(), NodeType::Root, origin());
    let other = graph.create_node("o".to_string(), NodeType::Note, origin());
    let mut scene = Scene3D::new();
    scene.arrange_graph_as_cake(&mut graph);
    let root_before = scene.get_position(&root).unwrap();
    let other_before = scene.get_position(&other).unwrap();
    let fresh = graph.create_child_node("f".to_string(), NodeType::Concept, &root, origin()).unwrap();
    scene.add_node_to_cake(&mut graph, &fresh, Some(&root));
    assert_eq!(scene.get_position(&root).unwrap(), root_before);
    assert_eq!(scene.get_position(&other).unwrap(), other_before);
    assert_eq!(scene.get_position(&fresh).unwrap().layer, 1);
    assert_eq!(graph.get_node(&fresh).unwrap().layer_position, scene.get_position(&fresh));
}

#[test]
fn moving_to_another_tier_moves_the_count() {
    let mut graph = Graph::new();
    let mut scene = exact_cake(&[8, 6, 4, 3, 2]);
    scene.add_node_to_cake(&mut graph, "a", None);
    scene.add_node_to_cake(&mut graph, "b", None);
    scene.move_node_to_layer(&mut graph, "a", 3);
    assert_eq!(scene.get_position("a").unwrap().layer, 3);
    assert_eq!(scene.get_position("a").unwrap().anchor, 0);
    assert_eq!(scene.get_position("a").unwrap().radius, 102400);
    assert_eq!(scene.get_position("a").unwrap().height_offset, 300000);
    assert_eq!(scene.get_layer_stats(), vec![(0, 1, 8), (1, 0, 6), (2, 0, 4), (3, 1, 3), (4, 0, 2)]);
}

#[test]
fn moving_to_the_current_tier_keeps_the_counts() {
    let mut graph = Graph::new();
    let root = graph.create_node("R".to_string(), NodeType::Root, origin());
    let kid = graph.create_child_node("k".to_string(), NodeType::Concept, &root, origin()).unwrap();
    let mut scene = Scene3D::new();
    scene.arrange_graph_as_cake(&mut graph);
    let stats = scene.get_layer_stats();
    let total = total_occupancy(&scene);
    let tier = scene.get_position(&kid).unwrap().layer;
    scene.move_node_to_layer(&mut graph, &kid, tier);
    assert_eq!(scene.get_position(&kid).unwrap().layer, tier);
    assert_eq!(total_occupancy(&scene), total);
    assert_eq!(scene.get_layer_stats(), stats);
}

#[test]
fn moving_beyond_the_cake_changes_nothing() {
    let mut graph = Graph::new();
    let mut scene = exact_cake(&[2, 2, 2]);
    scene.add_node_to_cake(&mut graph, "a", None);
    let before = scene.get_position("a");
    scene.move_node_to_layer(&mut graph, "a", 3);
    assert_eq!(scene.get_position("a"), before);
    assert_eq!(scene.get_layer_stats(), vec![(0, 1, 2), (1, 0, 2), (2, 0, 2)]);
}

#[test]
fn moving_to_a_full_tier_promotes() {
    let mut graph = Graph::new();
    let mut scene = exact_cake(&[2, 1, 2]);
    scene.add_node_to_cake(&mut graph, "a", None);
    scene.add_node_to_cake(&mut graph, "b", Some("a"));
    scene.move_node_to_layer(&mut graph, "a", 1);
    assert_eq!(scene.get_position("a").unwrap().layer, 2);
    assert_eq!(scene.get_layer_stats(), vec![(0, 0, 2), (1, 1, 1), (2, 1, 2)]);
}

#[test]
fn a_move_that_finds_no_room_keeps_the_record_but_frees_the_place() {
    let mut graph = Graph::new();
    let mut scene = exact_cake(&[1, 1]);
    scene.add_node_to_cake(&mut graph, "a", None);
    scene.add_node_to_cake(&mut graph, "b", None);
    assert_eq!(scene.get_position("b").unwrap().layer, 1);
    scene.move_node_to_layer(&mut graph, "a", 1);
    assert_eq!(scene.get_position("a").unwrap().layer, 0);
    assert_eq!(scene.get_layer_stats(), vec![(0, 0, 1), (1, 1, 1)]);
    assert_within_rooms(&scene);
}

#[test]
fn no_tier_is_ever_overfull() {
    let mut graph = Graph::new();
    let root = graph.create_node("R".to_string(), NodeType::Root, origin());
    let mut ids = vec![root.clone()];
    for i in 0..30 {
        let parent = ids[i / 3].clone();
        ids.push(graph.create_child_node(format!("n{}", i), NodeType::Concept, &parent, origin()).unwrap());
    }
    let mut scene = Scene3D::new();
    scene.arrange_graph_as_cake(&mut graph);
    assert_within_rooms(&scene);
    assert_eq!(total_occupancy(&scene), scene.get_target_positions().len());
    for (i, id) in ids.iter().enumerate() {
        scene.add_node_to_cake(&mut graph, id, None);
        assert_within_rooms(&scene);
        scene.move_node_to_layer(&mut graph, id, i % 6);
        assert_within_rooms(&scene);
    }
    scene.rebalance_cake(&mut graph);
    assert_within_rooms(&scene);
    // one root, its three children, and as many below them as the upper tiers hold
    assert_eq!(scene.get_layer_stats(), vec![(0, 1, 8), (1, 3, 6), (2, 4, 4), (3, 3, 3), (4, 2, 2)]);
    assert_eq!(scene.get_target_positions().len(), 13);
}

#[test]
fn records_are_listed_in_the_order_of_placement() {
    let mut graph = Graph::new();
    let mut scene = exact_cake(&[8, 6, 4, 3, 2]);
    scene.add_node_to_cake(&mut graph, "first", None);
    scene.add_node_to_cake(&mut graph, "second", Some("first"));
    scene.add_node_to_cake(&mut graph, "first", None);
    let targets = scene.get_target_positions();
    assert_eq!(targets.len(), 2);
    assert_eq!(targets[0].0, "first");
    assert_eq!(targets[1].0, "second");
    assert_eq!(targets[0].1, scene.get_position("first").unwrap());
    assert_eq!(targets[0].1.anchor, 45000);
    assert_eq!(targets[1].1.layer, 1);
}

#[test]
fn rings_shrink_by_a_fifth_down_to_three_tenths() {
    let radii: Vec<i128> = (0..9).map(|level| Layer::new(level, 200000, 1).radius).collect();
    assert_eq!(radii, vec![200000, 160000, 128000, 102400, 81920, 65536, 60000, 60000, 60000]);
    assert_eq!(Layer::new(3, 1001, 1).radius, 512);
    assert_eq!(Layer::new(1000, 7, 1).radius, 2);
    let layer = Layer::new(2, 200000, 4);
    assert_eq!((layer.level, layer.height, layer.node_count, layer.max_nodes), (2, 200000, 0, 4));
    assert_eq!(layer.color, [1000, 800, 800, 1000]);
    assert!(layer.has_space());
    assert!(!Layer::new(0, 1, 0).has_space());
}

#[test]
fn places_divide_the_full_turn() {
    assert_eq!(anchor_angle(8, 0), 0);
    assert_eq!(anchor_angle(8, 3), 135000);
    assert_eq!(anchor_angle(7, 1), 51428);
    assert_eq!(anchor_angle(1, 2), 720000);
    assert_eq!(anchor_angle(0, 5), 0);
    let mut layer = Layer::new(0, 200000, 6);
    assert_eq!(layer.get_next_angle(), 0);
    layer.node_count = 5;
    assert_eq!(layer.get_next_angle(), 300000);
}

#[test]
fn default_cake_has_five_tiers() {
    let scene = Scene3D::new();
    assert_eq!(scene.max_layers(), 5);
    assert_eq!(scene.base_radius(), 200000);
    let rooms: Vec<usize> = scene.layers().iter().map(|l| l.max_nodes).collect();
    assert_eq!(rooms, vec![8, 6, 4, 3, 2]);
    let heights: Vec<i128> = scene.layers().iter().map(|l| l.height).collect();
    assert_eq!(heights, vec![0, 100000, 200000, 300000, 400000]);
}

#[test]
fn camera_distance_covers_the_cake() {
    assert_eq!(Scene3D::new().get_optimal_camera_distance(), 1000000);
    assert_eq!(exact_cake(&[]).get_optimal_camera_distance(), 400000);
    assert_eq!(Scene3D::with_layers(&vec![1], 40000, 0, 0).get_optimal_camera_distance(), 400000);
    assert_eq!(Scene3D::with_layers(&vec![1, 1], 100001, 0, 0).get_optimal_camera_distance(), 450002);
}

#[test]
fn layer_centers_and_colors() {
    let scene = Scene3D::new();
    let center = scene.get_layer_center(2);
    assert_eq!((center.x, center.y, center.z), (0, 200000, 0));
    let outside = scene.get_layer_center(5);
    assert_eq!((outside.x, outside.y, outside.z), (0, 0, 0));
    assert_eq!(scene.get_layer_color(0), [1000, 900, 700, 1000]);
    assert_eq!(scene.get_layer_color(1), [800, 800, 1000, 1000]);
    assert_eq!(scene.get_layer_color(3), [800, 1000, 800, 1000]);
    assert_eq!(scene.get_layer_color(4), [900, 900, 900, 1000]);
    assert_eq!(scene.get_layer_color(5), [1000, 1000, 1000, 1000]);
}

#[test]
fn play_of_the_radius_is_held_at_the_radius() {
    let mut graph = Graph::new();
    let mut scene = Scene3D::with_layers(&vec![32], 1000, 0, 60000);
    for i in 0..32 {
        let id = format!("n{}", i);
        scene.add_node_to_cake(&mut graph, &id, None);
        let p = scene.get_position(&id).unwrap();
        assert!(0 <= p.radius && p.radius < 2000);
        assert_eq!(p.angle, p.anchor);
    }
}
