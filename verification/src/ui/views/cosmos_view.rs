//! The view of a universe in the plane: the graph, the windows and handlers
//! around it, and what the actions that they ask for do to them.
//!
//! Drawing, the files in which universes are kept and the clock are for the
//! caller. An action that changes the universe answers that the universe
//! wants saving; the caller saves it when a save is due. Times are in
//! milliseconds, and the big bang counts the frames that were shown of it.

use vstd::prelude::*;
use vstd::string::StringExecFns;
use crate::celestial::graph::Graph;
use crate::celestial::node::Node;
use crate::celestial::node_type::NodeType;
use crate::celestial::position::{held, sub_held, Position2D};
use crate::outside::{now_millis, random_uuid};
use crate::ui::components::connection_menu::{ConnectionAction, ConnectionMenu};
use crate::ui::components::node_creator::{CreationAction, NodeCreator};
use crate::ui::components::node_editor::{EditorAction, NodeEditor};
use crate::ui::interactions::drag_handler::{DragAction, DragHandler, DragMode};
use crate::ui::interactions::node_selector::NodeSelector;
use crate::universe::Universe;

verus! {

/// The time between two saves, in milliseconds.
pub const SAVE_INTERVAL: i64 = 5000;

/// How many frames of the big bang throw out sparks: one second of them.
pub const SPARK_FRAMES: u32 = 60;

/// How many frames the big bang lasts: three seconds of them.
pub const BANG_FRAMES: u32 = 180;

/// How far above its base, in thousandths, a node is put that the editor
/// lets evolve from it.
pub const EVOLUTION_RISE: i128 = 50000;

/// The view of a universe in the plane.
pub struct CosmosView {
    pub graph: Graph,
    pub view_offset: Position2D,
    pub current_universe_id: Option<String>,
    pub last_save_time: i64,
    pub node_creator: NodeCreator,
    pub node_editor: NodeEditor,
    pub connection_menu: ConnectionMenu,
    pub drag_handler: DragHandler,
    pub node_selector: NodeSelector,
    pub temp_connection_line: Option<(String, Position2D)>,
    pub show_start_menu: bool,
    pub big_bang_active: bool,
    pub big_bang_frames: u32,
    pub universe_title: String,
    pub show_time_log: bool,
    pub cached_universe_list: Vec<(String, String)>,
}

/// What a frame of the big bang asks of the caller.
#[derive(Clone, Copy, Debug, PartialEq, Eq, Structural)]
pub struct BangStep {
    pub throw_sparks: bool,
    pub over: bool,
}

/// The kind of the child that a node of a kind gets when a connection is
/// drawn from it into the open: a star gets a planet, a planet a satellite,
/// a satellite an asteroid, and no other kind gets a child.
pub open spec fn orbit_child(kind: NodeType) -> Option<NodeType> {
    match kind {
        NodeType::Star => Some(NodeType::Planet),
        NodeType::Planet => Some(NodeType::Satellite),
        NodeType::Satellite => Some(NodeType::Asteroid),
        _ => None,
    }
}

/// The text of an optional string, and nothing for none.
pub open spec fn text_or_empty(text: Option<String>) -> Seq<char> {
    match text {
        Some(t) => t@,
        None => Seq::empty(),
    }
}

/// The text of an optional string.
pub open spec fn text_of(text: Option<String>) -> Option<Seq<char>> {
    match text {
        Some(t) => Some(t@),
        None => None,
    }
}

impl CosmosView {
    /// The graph is in order.
    pub open spec fn wf(&self) -> bool {
        self.graph.wf()
    }

    /// The node that is selected, if the graph has it.
    pub open spec fn selected(&self) -> Option<Seq<char>> {
        match self.node_selector.selected_node {
            Some(id) => if self.graph.has(id@) {
                Some(id@)
            } else {
                None
            },
            None => None,
        }
    }

    /// The graph is that of `before` but for the node `id`, which is `node`.
    pub open spec fn node_changed(&self, before: &CosmosView, id: Seq<char>, node: Node) -> bool {
        &&& self.graph.ids() == before.graph.ids()
        &&& self.graph.links() == before.graph.links()
        &&& self.graph.node_seq() == before.graph.node_seq().update(before.graph.slot(id), node)
    }

    /// A view of a new universe with one star, behind the start menu.
    pub fn new() -> (view: Self)
        ensures
            view.wf(),
            view.graph.ids().len() == 1,
            view.graph.links().len() == 0,
            view.graph.node_seq()[0].is_new(
                view.graph.node_seq()[0].title,
                NodeType::Star,
                Position2D { x: 400000, y: 300000 },
            ),
            view.graph.node_seq()[0].title@ == "New Star"@,
            view.view_offset == (Position2D { x: 0, y: 0 }),
            view.current_universe_id matches Some(id) && id@.len() == 36,
            view.node_creator.is_reset(),
            !view.node_editor.show_editor,
            view.connection_menu.is_closed(),
            view.drag_handler.drag_mode == DragMode::Idle,
            view.drag_handler.dragging is None,
            view.node_selector.selected_node is None,
            view.temp_connection_line is None,
            view.show_start_menu,
            !view.big_bang_active,
            view.big_bang_frames == 0,
            view.universe_title@ == "New Universe"@,
            !view.show_time_log,
            view.cached_universe_list@.len() == 0,
    {
        let mut graph = Graph::new();
        let id = graph.create_node(String::from_str("New Star"), NodeType::Star, Position2D::new(400000, 300000));
        proof {
            graph.identifiers_are_distinct();
        }
        Self {
            graph,
            view_offset: Position2D::new(0, 0),
            current_universe_id: Some(random_uuid()),
            last_save_time: now_millis(),
            node_creator: NodeCreator::new(),
            node_editor: NodeEditor::new(),
            connection_menu: ConnectionMenu::new(),
            drag_handler: DragHandler::new(),
            node_selector: NodeSelector::new(),
            temp_connection_line: None,
            show_start_menu: true,
            big_bang_active: false,
            big_bang_frames: 0,
            universe_title: String::from_str("New Universe"),
            show_time_log: false,
            cached_universe_list: Vec::new(),
        }
    }

    /// Where a point of the universe is on the screen.
    pub fn world_to_screen_pos(&self, x: i128, y: i128) -> (pos: Position2D)
        ensures
            pos == (Position2D { x, y }).moved_by(self.view_offset),
    {
        Position2D::new(x, y).plus(self.view_offset)
    }

    /// What an action of the drag handler does to the view. The answer is
    /// whether the universe wants saving.
    ///
    /// A node that is selected or starts to move is selected; the start of a
    /// pan and a deselection clear the selection; all four take away the
    /// line that was being drawn. A pan moves the view. A node that is moved
    /// goes where the pointer is in the universe. A connection that is drawn
    /// shows as a line from its node to the pointer, until it ends. A
    /// request for a node makes a star where the pointer is, selects it and
    /// puts the handlers at rest. A double click on a node opens the editor
    /// on it. A connection drawn into the open makes a child of its node
    /// where the pointer is, if the kind of the node has children.
    pub fn handle_drag_action(&mut self, action: DragAction) -> (save: bool)
        requires
            old(self).wf(),
        ensures
            final(self).wf(),
            save == (action is RequestCreateNode),
            final(self).after_drag_action(old(self), action),
    {
        match action {
            DragAction::SelectNode(node_id) => {
                self.node_selector.select_node(node_id);
                self.temp_connection_line = None;
                false
            },
            DragAction::Deselect => {
                self.node_selector.deselect();
                self.temp_connection_line = None;
                false
            },
            DragAction::StartViewPan => {
                self.temp_connection_line = None;
                self.node_selector.deselect();
                false
            },
            DragAction::StartMoveNode(node_id) => {
                self.node_selector.select_node(node_id);
                self.temp_connection_line = None;
                false
            },
            DragAction::ViewPan(delta) => {
                self.view_offset = self.view_offset.plus(delta);
                false
            },
            DragAction::Dragging { node_id, mode, current_pos } => {
                if mode == DragMode::MoveNode {
                    let place: Position2D = current_pos.minus(self.view_offset);
                    match self.graph.get_node_mut(node_id.as_str()) {
                        Some(node) => {
                            node.position = place;
                        },
                        None => {},
                    }
                }
                false
            },
            DragAction::StartDrawConnection(source_id, pos) => {
                self.temp_connection_line = Some((source_id, pos));
                false
            },
            DragAction::DrawingConnection { source_id, current_pos } => {
                self.temp_connection_line = Some((source_id, current_pos));
                false
            },
            DragAction::EndDrawConnection { source_id: _, end_pos: _ } => {
                self.temp_connection_line = None;
                false
            },
            DragAction::EndMoveNode { node_id: _, end_pos: _ } => false,
            DragAction::RequestCreateNode(pos) => {
                let place: Position2D = pos.minus(self.view_offset);
                let node_id: String = self.graph.create_node(String::from_str("New Star"), NodeType::Star, place);
                self.node_selector.select_node(node_id);
                self.temp_connection_line = None;
                self.node_creator.show_creator = false;
                self.drag_handler.drag_mode = DragMode::Idle;
                self.drag_handler.dragging = None;
                true
            },
            DragAction::NodeDoubleClicked(node_id) => {
                self.node_editor.show_editor = true;
                match self.graph.get_node(node_id.as_str()) {
                    Some(node) => {
                        self.node_editor.description = match &node.description {
                            Some(text) => text.clone(),
                            None => String::new(),
                        };
                    },
                    None => {},
                }
                self.node_editor.editing_node = Some(node_id);
                false
            },
            DragAction::CreateChildNode { parent_id, position } => {
                let child: Option<NodeType> = match self.graph.get_node(parent_id.as_str()) {
                    Some(parent) => match parent.node_type {
                        NodeType::Star => Some(NodeType::Planet),
                        NodeType::Planet => Some(NodeType::Satellite),
                        NodeType::Satellite => Some(NodeType::Asteroid),
                        _ => None,
                    },
                    None => None,
                };
                match child {
                    Some(node_type) => {
                        let place: Position2D = position.minus(self.view_offset);
                        let title: String = String::from_str("New ").concat(node_type.display_name());
                        let _ = self.graph.create_child_node(title, node_type, parent_id.as_str(), place);
                    },
                    None => {},
                }
                self.temp_connection_line = None;
                false
            },
        }
    }

    /// What `handle_drag_action` makes of the view `before`.
    pub open spec fn after_drag_action(&self, before: &CosmosView, action: DragAction) -> bool {
        match action {
            DragAction::SelectNode(id) | DragAction::StartMoveNode(id) => {
                &&& *self == (CosmosView {
                    node_selector: self.node_selector,
                    temp_connection_line: None,
                    ..*before
                })
                &&& self.node_selector.selected_node == Some(id)
            },
            DragAction::Deselect | DragAction::StartViewPan => {
                &&& *self == (CosmosView {
                    node_selector: self.node_selector,
                    temp_connection_line: None,
                    ..*before
                })
                &&& self.node_selector.selected_node is None
            },
            DragAction::ViewPan(delta) => *self == (CosmosView {
                view_offset: before.view_offset.moved_by(delta),
                ..*before
            }),
            DragAction::Dragging { node_id, mode, current_pos } => {
                &&& *self == (CosmosView { graph: self.graph, ..*before })
                &&& if mode == DragMode::MoveNode && before.graph.has(node_id@) {
                    self.node_changed(
                        before,
                        node_id@,
                        Node { position: current_pos.seen_from(before.view_offset), ..before.graph.node(node_id@) },
                    )
                } else {
                    self.graph.ids() == before.graph.ids() && self.graph.links() == before.graph.links()
                        && self.graph.node_seq() == before.graph.node_seq()
                }
            },
            DragAction::StartDrawConnection(source_id, pos) => *self == (CosmosView {
                temp_connection_line: Some((source_id, pos)),
                ..*before
            }),
            DragAction::DrawingConnection { source_id, current_pos } => *self == (CosmosView {
                temp_connection_line: Some((source_id, current_pos)),
                ..*before
            }),
            DragAction::EndDrawConnection { source_id, end_pos } => *self == (CosmosView {
                temp_connection_line: None,
                ..*before
            }),
            DragAction::EndMoveNode { node_id, end_pos } => *self == *before,
            DragAction::RequestCreateNode(pos) => {
                &&& *self == (CosmosView {
                    graph: self.graph,
                    node_selector: self.node_selector,
                    temp_connection_line: None,
                    node_creator: self.node_creator,
                    drag_handler: self.drag_handler,
                    ..*before
                })
                &&& self.node_creator == (NodeCreator { show_creator: false, ..before.node_creator })
                &&& self.drag_handler.drag_mode == DragMode::Idle
                &&& self.drag_handler.dragging is None
                &&& self.node_selector.selected_node matches Some(id)
                &&& self.graph.stored(&before.graph, id@)
                &&& self.graph.links() == before.graph.links()
                &&& self.graph.node(id@).id@ == id@
                &&& self.graph.node(id@).title@ == "New Star"@
                &&& self.graph.node(id@).is_new(
                    self.graph.node(id@).title,
                    NodeType::Star,
                    pos.seen_from(before.view_offset),
                )
            },
            DragAction::NodeDoubleClicked(id) => {
                &&& *self == (CosmosView { node_editor: self.node_editor, ..*before })
                &&& self.node_editor == (NodeEditor {
                    show_editor: true,
                    editing_node: Some(id),
                    description: self.node_editor.description,
                    ..before.node_editor
                })
                &&& self.node_editor.description@ == if before.graph.has(id@) {
                    text_or_empty(before.graph.node(id@).description)
                } else {
                    before.node_editor.description@
                }
            },
            DragAction::CreateChildNode { parent_id, position } => {
                &&& *self == (CosmosView { graph: self.graph, temp_connection_line: None, ..*before })
                &&& if !before.graph.has(parent_id@) {
                    self.graph.same_nodes(&before.graph) && self.graph.links() == before.graph.links()
                } else {
                    match orbit_child(before.graph.node(parent_id@).node_type) {
                        Some(kind) => exists|child: Seq<char>| #[trigger]
                            self.graph.stored(&before.graph, child) && self.made_child(
                                before,
                                child,
                                parent_id@,
                                kind,
                                position,
                            ),
                        None => self.graph.same_nodes(&before.graph) && self.graph.links() == before.graph.links(),
                    }
                }
            },
        }
    }

    /// The node `child` was made as a child of `parent`, of kind `kind`, at
    /// the place of the pointer in the universe, titled after its kind, and
    /// joined to its parent by a hierarchy link.
    pub open spec fn made_child(
        &self,
        before: &CosmosView,
        child: Seq<char>,
        parent: Seq<char>,
        kind: NodeType,
        position: Position2D,
    ) -> bool {
        let made = self.graph.node(child);
        &&& made.id@ == child
        &&& made.title@ == "New "@ + kind.name()
        &&& (Node { parent_id: None, ..made }).is_new(made.title, kind, position.seen_from(before.view_offset))
        &&& text_of(made.parent_id) == Some(parent)
        &&& self.graph.linked(&before.graph, parent, child, crate::celestial::relation::RelationType::Hierarchy)
    }

    /// What an action of the window in which a node is made does to the
    /// graph: the node is made, as a root of the star kind, as a child of
    /// its parent, or as what evolves from its base, and is given the
    /// description. The answer is whether the universe wants saving, which
    /// it always does.
    pub fn handle_creation_action(&mut self, action: CreationAction) -> (save: bool)
        requires
            old(self).wf(),
        ensures
            final(self).wf(),
            save,
            *final(self) == (CosmosView { graph: final(self).graph, ..*old(self) }),
            match action {
                CreationAction::CreateRoot { title, description, position } => exists|id: Seq<char>| #[trigger]
                    final(self).graph.stored(&old(self).graph, id) && final(self).graph.links() == old(
                        self,
                    ).graph.links() && final(self).described(id, title, NodeType::Star, position, description),
                CreationAction::CreateChild { parent_id, title, description, node_type, position } => if old(
                    self,
                ).graph.has(parent_id@) {
                    exists|id: Seq<char>| #[trigger]
                        final(self).graph.stored(&old(self).graph, id) && final(self).graph.linked(
                            &old(self).graph,
                            parent_id@,
                            id,
                            crate::celestial::relation::RelationType::Hierarchy,
                        ) && text_of(final(self).graph.node(id).parent_id) == Some(parent_id@) && (CosmosView {
                            graph: final(self).graph,
                            ..*old(self)
                        }).described_child(id, title, node_type, position, description)
                } else {
                    final(self).graph.same_nodes(&old(self).graph) && final(self).graph.links() == old(
                        self,
                    ).graph.links()
                },
                CreationAction::CreateEvolution { base_id, title, description, position } => if old(
                    self,
                ).graph.has(base_id@) {
                    exists|id: Seq<char>| #[trigger]
                        final(self).graph.stored(&old(self).graph, id) && final(self).graph.linked(
                            &old(self).graph,
                            base_id@,
                            id,
                            crate::celestial::relation::RelationType::Evolution,
                        ) && final(self).described(
                            id,
                            title,
                            old(self).graph.node(base_id@).node_type,
                            position,
                            description,
                        )
                } else {
                    final(self).graph.same_nodes(&old(self).graph) && final(self).graph.links() == old(
                        self,
                    ).graph.links()
                },
            },
    {
        match action {
            CreationAction::CreateRoot { title, description, position } => {
                let id: String = self.graph.create_node(title, NodeType::Star, position);
                let ghost made = self.graph;
                self.describe(&id, description);
                proof {
                    made.identifiers_are_distinct();
                    assert(self.graph.stored(&old(self).graph, id@)) by {
                        if old(self).graph.has(id@) {
                            old(self).graph.identifiers_are_distinct();
                            assert(self.graph.node_seq() =~= old(self).graph.node_seq().update(
                                old(self).graph.slot(id@),
                                self.graph.node(id@),
                            ));
                        } else {
                            assert(self.graph.node_seq() =~= old(self).graph.node_seq().push(self.graph.node(id@)));
                        }
                    }
                }
            },
            CreationAction::CreateChild { parent_id, title, description, node_type, position } => {
                match self.graph.create_child_node(title, node_type, parent_id.as_str(), position) {
                    Some(id) => {
                        let ghost made = self.graph;
                        self.describe(&id, description);
                        proof {
                            made.identifiers_are_distinct();
                            assert(self.graph.stored(&old(self).graph, id@)) by {
                                if old(self).graph.has(id@) {
                                    old(self).graph.identifiers_are_distinct();
                                    assert(self.graph.node_seq() =~= old(self).graph.node_seq().update(
                                        old(self).graph.slot(id@),
                                        self.graph.node(id@),
                                    ));
                                } else {
                                    assert(self.graph.node_seq() =~= old(self).graph.node_seq().push(
                                        self.graph.node(id@),
                                    ));
                                }
                            }
                        }
                    },
                    None => {},
                }
            },
            CreationAction::CreateEvolution { base_id, title, description, position } => {
                match self.graph.evolve_node(base_id.as_str(), title, Some(position)) {
                    Some(id) => {
                        let ghost made = self.graph;
                        self.describe(&id, description);
                        proof {
                            made.identifiers_are_distinct();
                            assert(self.graph.stored(&old(self).graph, id@)) by {
                                if old(self).graph.has(id@) {
                                    old(self).graph.identifiers_are_distinct();
                                    assert(self.graph.node_seq() =~= old(self).graph.node_seq().update(
                                        old(self).graph.slot(id@),
                                        self.graph.node(id@),
                                    ));
                                } else {
                                    assert(self.graph.node_seq() =~= old(self).graph.node_seq().push(
                                        self.graph.node(id@),
                                    ));
                                }
                            }
                        }
                    },
                    None => {},
                }
            },
        }
        true
    }

    /// The node `id` is as `Node::new` makes it of the title, the kind and
    /// the place, but that it bears the description.
    pub open spec fn described(
        &self,
        id: Seq<char>,
        title: String,
        kind: NodeType,
        position: Position2D,
        description: String,
    ) -> bool {
        let node = self.graph.node(id);
        &&& node.id@ == id
        &&& node.description == Some(description)
        &&& (Node { description: None, updated_at: node.created_at, ..node }).is_new(title, kind, position)
    }

    /// The node `id` is as `Node::new` makes it of the title, the kind and
    /// the place, but that it names a parent and bears the description.
    pub open spec fn described_child(
        &self,
        id: Seq<char>,
        title: String,
        kind: NodeType,
        position: Position2D,
        description: String,
    ) -> bool {
        let node = self.graph.node(id);
        &&& node.id@ == id
        &&& node.description == Some(description)
        &&& (Node { description: None, parent_id: None, updated_at: node.created_at, ..node }).is_new(
            title,
            kind,
            position,
        )
    }

    /// Gives the node `id` a description.
    fn describe(&mut self, id: &String, description: String)
        requires
            old(self).wf(),
            old(self).graph.has(id@),
        ensures
            final(self).wf(),
            *final(self) == (CosmosView { graph: final(self).graph, ..*old(self) }),
            final(self).graph.ids() == old(self).graph.ids(),
            final(self).graph.links() == old(self).graph.links(),
            final(self).graph.node_seq() == old(self).graph.node_seq().update(
                old(self).graph.slot(id@),
                final(self).graph.node(id@),
            ),
            final(self).graph.node(id@) == (Node {
                description: Some(description),
                updated_at: final(self).graph.node(id@).updated_at,
                ..old(self).graph.node(id@)
            }),
    {
        let ghost before = self.graph;
        match self.graph.get_node_mut(id.as_str()) {
            Some(node) => {
                node.set_description(description);
            },
            None => {},
        }
        proof {
            before.identifiers_are_distinct();
        }
    }

    /// What an action of the editor does to the node that is selected. The
    /// answer is whether the universe wants saving, which it does where the
    /// graph has the selected node.
    ///
    /// The title, the description, the colour or the size of the node is
    /// set. Letting the node evolve makes a node of its kind a little above
    /// it, titled after it, joins the two by an evolution link and closes
    /// the editor, which closes also where there is no node to evolve.
    pub fn handle_editor_action(&mut self, action: EditorAction) -> (save: bool)
        requires
            old(self).wf(),
        ensures
            final(self).wf(),
            save == old(self).selected() is Some,
            *final(self) == (CosmosView {
                graph: final(self).graph,
                node_editor: final(self).node_editor,
                ..*old(self)
            }),
            final(self).node_editor == (NodeEditor {
                show_editor: old(self).node_editor.show_editor && !(action is CreateEvolutionLayer),
                ..old(self).node_editor
            }),
            match old(self).selected() {
                None => final(self).graph.same_nodes(&old(self).graph) && final(self).graph.links() == old(
                    self,
                ).graph.links(),
                Some(id) => {
                    let node = old(self).graph.node(id);
                    let after = final(self).graph.node(id);
                    match action {
                        EditorAction::UpdateTitle(title) => final(self).node_changed(old(self), id, after)
                            && after == (Node { title, updated_at: after.updated_at, ..node }),
                        EditorAction::UpdateDescription(description) => final(self).node_changed(
                            old(self),
                            id,
                            after,
                        ) && after == (Node {
                            description: Some(description),
                            updated_at: after.updated_at,
                            ..node
                        }),
                        EditorAction::UpdateColor(color) => final(self).node_changed(old(self), id, after)
                            && after == (Node {
                            custom_color_rgba: Some(color),
                            updated_at: after.updated_at,
                            ..node
                        }),
                        EditorAction::UpdateSize(size) => final(self).node_changed(old(self), id, after) && after
                            == (Node { custom_size: Some(size), updated_at: after.updated_at, ..node }),
                        EditorAction::CreateEvolutionLayer => exists|next: Seq<char>| #[trigger]
                            final(self).graph.stored(&old(self).graph, next) && final(self).graph.linked(
                                &old(self).graph,
                                id,
                                next,
                                crate::celestial::relation::RelationType::Evolution,
                            ) && final(self).graph.node(next).id@ == next && final(self).graph.node(next).title@
                                == node.title@ + " Evolution"@ && final(self).graph.node(next).is_new(
                                final(self).graph.node(next).title,
                                node.node_type,
                                Position2D { x: node.position.x, y: held(node.position.y - EVOLUTION_RISE) as i128 },
                            ),
                    }
                },
            },
    {
        let selected: Option<String> = match &self.node_selector.selected_node {
            Some(id) => if self.graph.get_node(id.as_str()).is_some() {
                Some(id.clone())
            } else {
                None
            },
            None => None,
        };
        let evolves: bool = match &action {
            EditorAction::CreateEvolutionLayer => true,
            _ => false,
        };
        let save: bool = match selected {
            Some(id) => {
                let ghost before = self.graph;
                proof {
                    before.identifiers_are_distinct();
                }
                match action {
                    EditorAction::UpdateTitle(title) => {
                        match self.graph.get_node_mut(id.as_str()) {
                            Some(node) => {
                                node.title = title;
                                node.updated_at = now_millis();
                            },
                            None => {},
                        }
                    },
                    EditorAction::UpdateDescription(description) => {
                        match self.graph.get_node_mut(id.as_str()) {
                            Some(node) => {
                                node.set_description(description);
                            },
                            None => {},
                        }
                    },
                    EditorAction::UpdateColor(color) => {
                        match self.graph.get_node_mut(id.as_str()) {
                            Some(node) => {
                                node.set_color(color);
                            },
                            None => {},
                        }
                    },
                    EditorAction::UpdateSize(size) => {
                        match self.graph.get_node_mut(id.as_str()) {
                            Some(node) => {
                                node.set_size(size);
                            },
                            None => {},
                        }
                    },
                    EditorAction::CreateEvolutionLayer => {
                        let made: Option<(String, Position2D)> = match self.graph.get_node(id.as_str()) {
                            Some(base) => Some(
                                (
                                    base.title.clone().concat(" Evolution"),
                                    Position2D::new(base.position.x, sub_held(base.position.y, EVOLUTION_RISE)),
                                ),
                            ),
                            None => None,
                        };
                        match made {
                            Some(pair) => {
                                let _ = self.graph.evolve_node(id.as_str(), pair.0, Some(pair.1));
                            },
                            None => {},
                        }
                    },
                }
                true
            },
            None => false,
        };
        if evolves {
            self.node_editor.show_editor = false;
        }
        save
    }

    /// What an action of the connection menu does to the graph: the link is
    /// added. The answer is whether the universe wants saving, which it
    /// always does.
    pub fn handle_connection_action(&mut self, action: ConnectionAction) -> (save: bool)
        requires
            old(self).wf(),
        ensures
            final(self).wf(),
            save,
            *final(self) == (CosmosView { graph: final(self).graph, ..*old(self) }),
            final(self).graph.same_nodes(&old(self).graph),
            action matches ConnectionAction::CreateConnection { source_id, target_id, relation_type }
                && final(self).graph.linked(&old(self).graph, source_id@, target_id@, relation_type),
    {
        match action {
            ConnectionAction::CreateConnection { source_id, target_id, relation_type } => {
                self.graph.add_relation(source_id.as_str(), target_id.as_str(), relation_type);
            },
        }
        true
    }

    /// Whether a save is due at the time `now`: the universe has an
    /// identifier, and the save interval has passed since the last save.
    pub fn save_is_due(&self, now: i64) -> (due: bool)
        ensures
            due == (self.current_universe_id is Some && now - self.last_save_time >= SAVE_INTERVAL),
    {
        self.current_universe_id.is_some() && now as i128 - self.last_save_time as i128 >= SAVE_INTERVAL as i128
    }

    /// Remembers that the universe was saved at the time `now`.
    pub fn mark_saved(&mut self, now: i64)
        ensures
            *final(self) == (CosmosView { last_save_time: now, ..*old(self) }),
    {
        self.last_save_time = now;
    }

    /// Starts a new universe: an empty graph under a fresh identifier and
    /// the usual title, with the windows and handlers at rest.
    pub fn create_new_universe(&mut self)
        ensures
            final(self).wf(),
            final(self).graph.ids().len() == 0,
            final(self).graph.links().len() == 0,
            final(self).universe_title@ == "New Universe"@,
            final(self).current_universe_id matches Some(id) && id@.len() == 36,
            *final(self) == (CosmosView {
                graph: final(self).graph,
                universe_title: final(self).universe_title,
                current_universe_id: final(self).current_universe_id,
                drag_handler: DragHandler { dragging: None, ..old(self).drag_handler },
                node_selector: NodeSelector { selected_node: None },
                node_creator: final(self).node_creator,
                view_offset: Position2D { x: 0, y: 0 },
                ..*old(self)
            }),
            final(self).node_creator == (NodeCreator {
                show_creator: false,
                new_node_title: final(self).node_creator.new_node_title,
                ..old(self).node_creator
            }),
            final(self).node_creator.new_node_title@.len() == 0,
    {
        self.graph = Graph::new();
        self.universe_title = String::from_str("New Universe");
        self.current_universe_id = Some(random_uuid());
        self.drag_handler.dragging = None;
        self.node_selector.selected_node = None;
        self.node_creator.show_creator = false;
        self.node_creator.new_node_title = String::new();
        self.view_offset = Position2D::new(0, 0);
    }

    /// Shows a universe that was loaded under the identifier `universe_id`.
    pub fn load_universe(&mut self, universe: Universe, universe_id: &str)
        requires
            universe.graph.wf(),
        ensures
            final(self).wf(),
            final(self).graph == universe.graph,
            final(self).universe_title == universe.title,
            text_of(final(self).current_universe_id) == Some(universe_id@),
            *final(self) == (CosmosView {
                graph: final(self).graph,
                universe_title: final(self).universe_title,
                current_universe_id: final(self).current_universe_id,
                ..*old(self)
            }),
    {
        self.universe_title = universe.title;
        self.current_universe_id = Some(universe_id.to_owned());
        self.graph = universe.graph;
    }

    /// Whether the way back asks for a name first: the universe has none.
    pub fn wants_name(&self) -> (wanted: bool)
        ensures
            wanted == (self.universe_title@.len() == 0),
    {
        self.universe_title.as_str().unicode_len() == 0
    }

    /// Goes back to the start menu. The answer is whether the universe is
    /// to be saved on the way, which it is where it has an identifier.
    pub fn save_and_exit(&mut self) -> (save: bool)
        ensures
            save == old(self).current_universe_id is Some,
            *final(self) == (CosmosView { show_start_menu: true, ..*old(self) }),
    {
        self.show_start_menu = true;
        self.current_universe_id.is_some()
    }

    /// Starts the big bang.
    pub fn start_big_bang(&mut self)
        ensures
            *final(self) == (CosmosView { big_bang_active: true, big_bang_frames: 0, ..*old(self) }),
    {
        self.big_bang_active = true;
        self.big_bang_frames = 0;
    }

    /// One frame of the big bang. Sparks are thrown during the first second;
    /// after three seconds the big bang is over, a new universe starts and
    /// the start menu goes away. Nothing happens while no big bang is under
    /// way.
    pub fn update_big_bang(&mut self) -> (step: BangStep)
        ensures
            !old(self).big_bang_active ==> step == (BangStep { throw_sparks: false, over: false })
                && *final(self) == *old(self),
            old(self).big_bang_active ==> {
                let frames = if old(self).big_bang_frames < u32::MAX {
                    (old(self).big_bang_frames + 1) as u32
                } else {
                    u32::MAX
                };
                &&& step == (BangStep { throw_sparks: frames < SPARK_FRAMES, over: frames >= BANG_FRAMES })
                &&& final(self).big_bang_frames == frames
                &&& final(self).big_bang_active == !step.over
                &&& !step.over ==> *final(self) == (CosmosView { big_bang_frames: frames, ..*old(self) })
                &&& step.over ==> {
                    &&& !final(self).show_start_menu
                    &&& final(self).graph.ids().len() == 0
                    &&& final(self).graph.links().len() == 0
                    &&& final(self).universe_title@ == "New Universe"@
                    &&& final(self).current_universe_id is Some
                    &&& final(self).node_selector.selected_node is None
                    &&& final(self).view_offset == (Position2D { x: 0, y: 0 })
                }
            },
    {
        if !self.big_bang_active {
            return BangStep { throw_sparks: false, over: false };
        }
        if self.big_bang_frames < u32::MAX {
            self.big_bang_frames = self.big_bang_frames + 1;
        }
        let throw_sparks: bool = self.big_bang_frames < SPARK_FRAMES;
        let over: bool = self.big_bang_frames >= BANG_FRAMES;
        if over {
            self.big_bang_active = false;
            self.create_new_universe();
            self.show_start_menu = false;
        }
        BangStep { throw_sparks, over }
    }
}

} // verus!
