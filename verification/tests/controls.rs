use cosmos::celestial::{Graph, NodeType, Position2D, RelationType};
use cosmos::registry::Registry;
use cosmos::ui::components::connection_menu::{ConnectionAction, ConnectionMenu};
use cosmos::ui::gui::{AppState, Step};
use cosmos::ui::interactions::node_selector::NodeSelector;
use cosmos::ui::space_view::{SpaceView, ViewMode};
use cosmos::ui::start_menu::{MenuAction, StartMenu};

#[test]
fn registry_behaves_as_a_map_in_order() {
    let mut table: Registry<u32> = Registry::new();
    assert_eq!(table.len(), 0);
    table.insert("a".to_string(), 1);
    table.insert("b".to_string(), 2);
    table.insert("c".to_string(), 3);
    table.insert("b".to_string(), 20);
    assert_eq!(table.len(), 3);
    assert_eq!(table.find("b"), Some(1));
    assert_eq!(table.get("b"), Some(&20));
    assert_eq!(table.get("d"), None);
    assert!(table.contains_key("c"));
    assert!(!table.contains_key(""));
    assert_eq!(table.key_at(2), "c");
    assert_eq!(*table.value_at(0), 1);
    *table.value_at_mut(0) = 10;
    *table.get_mut("c").unwrap() = 30;
    assert!(table.get_mut("zzz").is_none());
    assert_eq!(table.remove("a"), Some(10));
    assert_eq!(table.remove("a"), None);
    assert_eq!(table.len(), 2);
    assert_eq!(table.find("b"), Some(0));
    assert_eq!(table.get("c"), Some(&30));
    table.clear();
    assert_eq!(table.len(), 0);
    assert_eq!(table.find("b"), None);
}

#[test]
fn connection_menu_answers_once() {
    let mut menu = ConnectionMenu::new();
    assert!(!menu.show_menu);
    assert!(menu.pick(RelationType::Orbit).is_none());
    menu.show_for_nodes("a".to_string(), "b".to_string());
    assert!(menu.show_menu);
    assert_eq!(menu.source_id, Some("a".to_string()));
    assert_eq!(menu.target_id, Some("b".to_string()));
    match menu.pick(RelationType::Evolution) {
        Some(ConnectionAction::CreateConnection { source_id, target_id, relation_type }) => {
            assert_eq!(source_id, "a");
            assert_eq!(target_id, "b");
            assert_eq!(relation_type, RelationType::Evolution);
        }
        None => panic!("the menu was open for two nodes"),
    }
    assert!(!menu.show_menu);
    assert!(menu.source_id.is_none() && menu.target_id.is_none());
    assert!(menu.pick(RelationType::Evolution).is_none());
    menu.show_for_nodes("a".to_string(), "b".to_string());
    menu.reset();
    assert!(!menu.show_menu);
    assert!(menu.pick(RelationType::Reference).is_none());
}

#[test]
fn connection_menu_needs_both_nodes() {
    let mut menu = ConnectionMenu::new();
    menu.show_menu = true;
    menu.source_id = Some("a".to_string());
    assert!(menu.pick(RelationType::Orbit).is_none());
    assert!(menu.show_menu);
    assert_eq!(menu.source_id, Some("a".to_string()));
}

#[test]
fn selector_remembers_one_node() {
    let mut graph = Graph::new();
    let a = graph.create_node("a".to_string(), NodeType::Root, Position2D::new(0, 0));
    let mut selector = NodeSelector::new();
    assert!(!selector.is_selected(&a));
    assert!(selector.get_selected_node(&graph).is_none());
    selector.select_node(a.clone());
    assert!(selector.is_selected(&a));
    assert!(!selector.is_selected("other"));
    assert_eq!(selector.get_selected_node(&graph).unwrap().title, "a");
    selector.select_node("gone".to_string());
    assert!(!selector.is_selected(&a));
    assert!(selector.get_selected_node(&graph).is_none());
    selector.deselect();
    assert!(!selector.is_selected("gone"));
    assert!(selector.selected_node.is_none());
}

#[test]
fn start_menu_leads_on() {
    let _menu = StartMenu::new();
    assert_eq!(AppState::StartMenu.on_menu(MenuAction::BigBang), Step::Show(AppState::Cosmos));
    assert_eq!(AppState::StartMenu.on_menu(MenuAction::TimeLog), Step::Show(AppState::TimeLog));
    assert_eq!(AppState::StartMenu.on_menu(MenuAction::BlackHole), Step::Quit);
    assert_eq!(AppState::StartMenu.on_menu(MenuAction::Nothing), Step::Show(AppState::StartMenu));
    assert_eq!(AppState::Cosmos.on_menu(MenuAction::BlackHole), Step::Show(AppState::Cosmos));
    assert_eq!(AppState::TimeLog.on_menu(MenuAction::BigBang), Step::Show(AppState::TimeLog));
    assert_eq!(AppState::Cosmos.on_back(), AppState::StartMenu);
    assert_eq!(AppState::TimeLog.on_back(), AppState::TimeLog);
    assert_eq!(AppState::StartMenu.on_back(), AppState::StartMenu);
}

#[test]
fn start_screen_answers_what_is_chosen() {
    let mut screen = cosmos::ui::views::start_menu::StartMenu::new();
    assert_eq!(screen.show(), cosmos::ui::views::start_menu::MenuAction::Nothing);
    assert_eq!(screen.show(), cosmos::ui::views::start_menu::MenuAction::Nothing);
}

#[test]
fn time_line_needs_a_selection() {
    assert_eq!(ViewMode::Galaxy.to_timeline(false), ViewMode::Galaxy);
    assert_eq!(ViewMode::Galaxy.to_timeline(true), ViewMode::Timeline);
    assert_eq!(ViewMode::Timeline.to_timeline(false), ViewMode::Timeline);
    let _view = cosmos::ui::node_view::NodeView::new();
}

#[test]
fn view_from_afar() {
    let mut view = SpaceView::new();
    assert_eq!(view.scale, 1000);
    assert_eq!(view.view_mode, ViewMode::Galaxy);
    view.show_timeline();
    assert_eq!(view.view_mode, ViewMode::Galaxy);
    view.drag(Position2D::new(3, 4));
    view.drag(Position2D::new(3, 4));
    assert_eq!(view.offset, Position2D::new(6, 8));
    view.click_node("a".to_string());
    assert_eq!(view.selected_node, Some("a".to_string()));
    assert_eq!(view.view_mode, ViewMode::Timeline);
    view.show_galaxy();
    assert_eq!(view.view_mode, ViewMode::Galaxy);
    view.show_timeline();
    assert_eq!(view.view_mode, ViewMode::Timeline);
    assert_eq!(SpaceView::timeline_x(0), 100000);
    assert_eq!(SpaceView::timeline_x(3), 550000);
}
