//! The view of a universe as a layer cake: the graph, the cake on which it
//! is arranged, and the state of the controls around them.
//!
//! What is drawn, and where the pointer hit, is for the caller; the view is
//! told the node that was hit.

use vstd::prelude::*;
use vstd::string::StringExecFns;
use crate::celestial::graph::Graph;
use crate::celestial::node_type::NodeType;
use crate::celestial::position::Position2D;
use crate::celestial::relation::RelationType;
use crate::outside::{random_uuid, uniform_between};
use crate::ui::cake::{added, arranged, facts_of};
use crate::ui::scene_3d::Scene3D;

verus! {

/// How the universe is shown.
#[derive(Clone, Copy, Debug, PartialEq, Eq, Structural)]
pub enum ViewMode {
    Mode3D,
    Mode2D,
    ModeHybrid,
}

/// The view of a universe as a layer cake.
///
/// `last_node_count` is the number of nodes that the graph had when the cake
/// was last arranged of itself.
pub struct CosmosView {
    pub graph: Graph,
    pub scene_3d: Scene3D,
    pub last_node_count: usize,
    pub view_mode: ViewMode,
    pub selected_node: Option<String>,
    pub show_node_creator: bool,
    pub show_evolution_view: bool,
    pub new_node_title: String,
    pub new_node_type: Option<NodeType>,
    pub show_node_content: bool,
    pub editing_node: bool,
    pub auto_arrange_cake: bool,
    pub show_layer_info: bool,
    pub current_universe_id: Option<String>,
}

/// The names from which a node made for show takes its title.
pub open spec fn demo_name(index: int) -> Seq<char> {
    if index == 0 {
        "Idea"@
    } else if index == 1 {
        "Thought"@
    } else if index == 2 {
        "Plan"@
    } else if index == 3 {
        "Goal"@
    } else if index == 4 {
        "Memory"@
    } else {
        "Insight"@
    }
}

/// The pictograms from which a node made for show takes its title.
pub open spec fn demo_emoji(index: int) -> Seq<char> {
    if index == 0 {
        "💡"@
    } else if index == 1 {
        "🎯"@
    } else if index == 2 {
        "📝"@
    } else if index == 3 {
        "🌟"@
    } else if index == 4 {
        "🔍"@
    } else {
        "💭"@
    }
}

/// The kinds from which a node made for show takes its kind.
pub open spec fn demo_kind(index: int) -> NodeType {
    if index == 0 {
        NodeType::Concept
    } else if index == 1 {
        NodeType::Task
    } else {
        NodeType::Note
    }
}

/// The identifier of the selected node, as characters.
pub open spec fn chosen_text(selected: Option<String>) -> Option<Seq<char>> {
    match selected {
        Some(id) => Some(id@),
        None => None,
    }
}

impl CosmosView {
    /// The graph and the cake are in order.
    pub open spec fn wf(&self) -> bool {
        self.graph.wf() && self.scene_3d.wf()
    }

    /// The controls are as they are when a view is first shown.
    pub open spec fn controls_at_rest(&self) -> bool {
        &&& self.view_mode == ViewMode::Mode3D
        &&& self.selected_node is None
        &&& !self.show_node_creator
        &&& !self.show_evolution_view
        &&& self.new_node_title@.len() == 0
        &&& self.new_node_type is None
        &&& !self.show_node_content
        &&& !self.editing_node
        &&& self.auto_arrange_cake
        &&& self.show_layer_info
    }

    /// The view is `before` but for its graph, its cake and what it remembers
    /// of them.
    pub open spec fn same_controls(&self, before: &CosmosView) -> bool {
        &&& self.view_mode == before.view_mode
        &&& self.selected_node == before.selected_node
        &&& self.show_node_creator == before.show_node_creator
        &&& self.show_evolution_view == before.show_evolution_view
        &&& self.new_node_title == before.new_node_title
        &&& self.new_node_type == before.new_node_type
        &&& self.show_node_content == before.show_node_content
        &&& self.editing_node == before.editing_node
        &&& self.auto_arrange_cake == before.auto_arrange_cake
        &&& self.show_layer_info == before.show_layer_info
        &&& self.current_universe_id == before.current_universe_id
    }

    /// Whether the cake is to be arranged anew of itself: that is wanted,
    /// there are nodes, and their number is not what it was.
    pub open spec fn is_stale(&self) -> bool {
        self.auto_arrange_cake && self.graph.ids().len() > 0 && self.graph.ids().len()
            != self.last_node_count
    }

    /// Node `index` of the graph is titled `title`, is of kind `kind`, and
    /// names no parent.
    pub open spec fn shows(&self, index: int, title: Seq<char>, kind: NodeType) -> bool {
        let node = self.graph.node_seq()[index];
        node.title@ == title && node.node_type == kind && node.parent_id is None
    }

    /// Link `index` of the graph is a parent link from node `from` to node `to`.
    pub open spec fn links(&self, index: int, from: int, to: int) -> bool {
        let link = self.graph.links()[index];
        let ids = self.graph.ids();
        link.source_id@ == ids[from] && link.target_id@ == ids[to] && link.relation_type == RelationType::Parent
    }

    /// A view of a small universe made for show: a root, two concepts under
    /// it, two tasks under the first concept and a note under the second,
    /// joined by parent links and arranged on the usual cake. The six nodes
    /// are told apart by identifiers drawn at random; should two of them
    /// draw the same, the later takes the place of the earlier and the
    /// universe has fewer nodes.
    pub fn new() -> (view: Self)
        ensures
            view.wf(),
            view.controls_at_rest(),
            view.last_node_count == 0,
            view.current_universe_id matches Some(id) && id@.len() == 36,
            view.graph.ids().len() <= 6,
            view.graph.ids().len() == 6 ==> {
                &&& view.shows(0, "🌌 Cosmos Root"@, NodeType::Root)
                &&& view.shows(1, "💭 Main Concept"@, NodeType::Concept)
                &&& view.shows(2, "🎯 Core Idea"@, NodeType::Concept)
                &&& view.shows(3, "📋 Task A"@, NodeType::Task)
                &&& view.shows(4, "📝 Task B"@, NodeType::Task)
                &&& view.shows(5, "📓 Note 1"@, NodeType::Note)
                &&& view.links(0, 0, 1)
                &&& view.links(1, 0, 2)
                &&& view.links(2, 1, 3)
                &&& view.links(3, 1, 4)
                &&& view.links(4, 2, 5)
            },
            view.graph.links().len() == 5,
            view.scene_3d.capacities() == seq![8nat, 6nat, 4nat, 3nat, 2nat],
            view.scene_3d.cake() == arranged(view.scene_3d.capacities(), facts_of(&view.graph)),
    {
        let mut graph = Graph::new();
        let mut scene_3d = Scene3D::new();
        let root = Self::demo_node(&mut graph, "🌌 Cosmos Root", NodeType::Root, 0, 0, None);
        let first = Self::demo_node(&mut graph, "💭 Main Concept", NodeType::Concept, 100000, -100000, Some(&root));
        let second = Self::demo_node(&mut graph, "🎯 Core Idea", NodeType::Concept, -100000, -100000, Some(&root));
        let _ = Self::demo_node(&mut graph, "📋 Task A", NodeType::Task, 150000, -200000, Some(&first));
        let _ = Self::demo_node(&mut graph, "📝 Task B", NodeType::Task, 50000, -200000, Some(&first));
        let _ = Self::demo_node(&mut graph, "📓 Note 1", NodeType::Note, -50000, -200000, Some(&second));
        let ghost made = graph;
        scene_3d.arrange_graph_as_cake(&mut graph);
        proof {
            made.identifiers_are_distinct();
            assert forall|i: int| 0 <= i < made.ids().len() implies graph.node_seq()[i].title == made.node_seq()[i].title
                && graph.node_seq()[i].node_type == made.node_seq()[i].node_type && graph.node_seq()[i].parent_id
                == made.node_seq()[i].parent_id by {
                assert(scene_3d.node_follows(&made, &graph, i));
            }
        }
        Self {
            graph,
            scene_3d,
            last_node_count: 0,
            view_mode: ViewMode::Mode3D,
            selected_node: None,
            show_node_creator: false,
            show_evolution_view: false,
            new_node_title: String::new(),
            new_node_type: None,
            show_node_content: false,
            editing_node: false,
            auto_arrange_cake: true,
            show_layer_info: true,
            current_universe_id: Some(random_uuid()),
        }
    }

    /// Enters a fresh node behind the nodes of the graph and, where a parent
    /// is given, a parent link from it behind the links.
    fn demo_node(graph: &mut Graph, title: &str, kind: NodeType, x: i128, y: i128, parent: Option<&String>) -> (id:
        String)
        requires
            old(graph).wf(),
        ensures
            final(graph).wf(),
            !old(graph).has(id@) ==> {
                &&& final(graph).ids() == old(graph).ids().push(id@)
                &&& final(graph).node_seq().len() == old(graph).node_seq().len() + 1
                &&& final(graph).node_seq().drop_last() == old(graph).node_seq()
                &&& final(graph).node_seq().last().title@ == title@
                &&& final(graph).node_seq().last().node_type == kind
                &&& final(graph).node_seq().last().parent_id is None
            },
            parent is None ==> final(graph).links() == old(graph).links(),
            parent matches Some(p) ==> {
                &&& final(graph).links().len() == old(graph).links().len() + 1
                &&& final(graph).links().drop_last() == old(graph).links()
                &&& final(graph).links().last().source_id@ == p@
                &&& final(graph).links().last().target_id@ == id@
                &&& final(graph).links().last().relation_type == RelationType::Parent
            },
            old(graph).has(id@) ==> final(graph).ids() == old(graph).ids(),
            final(graph).has(id@),
    {
        let ghost before = *graph;
        let id = graph.create_node(title.to_owned(), kind, Position2D::new(x, y));
        proof {
            before.identifiers_are_distinct();
            graph.identifiers_are_distinct();
        }
        match parent {
            Some(p) => {
                graph.create_relation(p.as_str(), id.as_str(), RelationType::Parent);
            },
            None => {},
        }
        id
    }

    /// Arranges the cake anew if it is stale, and remembers the number of
    /// nodes for which it did. This is to be called once for every frame
    /// that shows the cake.
    pub fn keep_cake_fresh(&mut self) -> (arranged_anew: bool)
        requires
            old(self).wf(),
        ensures
            final(self).wf(),
            final(self).same_controls(old(self)),
            arranged_anew == old(self).is_stale(),
            !final(self).is_stale(),
            arranged_anew ==> {
                &&& final(self).last_node_count == old(self).graph.ids().len()
                &&& final(self).scene_3d.same_build(&old(self).scene_3d)
                &&& final(self).scene_3d.cake() == arranged(
                    old(self).scene_3d.capacities(),
                    facts_of(&old(self).graph),
                )
                &&& final(self).scene_3d.follows(&old(self).graph, &final(self).graph)
            },
            !arranged_anew ==> {
                &&& final(self).graph == old(self).graph
                &&& final(self).scene_3d == old(self).scene_3d
                &&& final(self).last_node_count == old(self).last_node_count
            },
    {
        let count: usize = self.graph.node_count();
        if self.auto_arrange_cake && count > 0 && count != self.last_node_count {
            self.scene_3d.rebalance_cake(&mut self.graph);
            self.last_node_count = count;
            true
        } else {
            false
        }
    }

    /// Arranges the cake anew, as the menu asks for it.
    pub fn arrange(&mut self)
        requires
            old(self).wf(),
        ensures
            final(self).wf(),
            final(self).same_controls(old(self)),
            final(self).last_node_count == old(self).last_node_count,
            final(self).scene_3d.same_build(&old(self).scene_3d),
            final(self).scene_3d.cake() == arranged(
                old(self).scene_3d.capacities(),
                facts_of(&old(self).graph),
            ),
            final(self).scene_3d.follows(&old(self).graph, &final(self).graph),
    {
        self.scene_3d.arrange_graph_as_cake(&mut self.graph);
    }

    /// What the pointer did on the cake. A click selects the node that it
    /// hit, or no node; a double click on a node selects it and opens its
    /// content; a click with the secondary button on no node opens the
    /// window in which a node is made.
    pub fn handle_3d_interactions(
        &mut self,
        clicked: bool,
        double_clicked: bool,
        secondary_clicked: bool,
        hit: Option<&str>,
    )
        ensures
            final(self).graph == old(self).graph,
            final(self).scene_3d == old(self).scene_3d,
            final(self).last_node_count == old(self).last_node_count,
            final(self).same_controls(
                &(CosmosView {
                    selected_node: final(self).selected_node,
                    show_node_content: final(self).show_node_content,
                    show_node_creator: final(self).show_node_creator,
                    ..*old(self)
                }),
            ),
            match hit {
                Some(id) => {
                    &&& (clicked || double_clicked) ==> chosen_text(final(self).selected_node) == Some(id@)
                    &&& !(clicked || double_clicked) ==> final(self).selected_node == old(self).selected_node
                    &&& final(self).show_node_content == (old(self).show_node_content || double_clicked)
                    &&& final(self).show_node_creator == old(self).show_node_creator
                },
                None => {
                    &&& clicked ==> final(self).selected_node is None
                    &&& !clicked ==> final(self).selected_node == old(self).selected_node
                    &&& final(self).show_node_content == old(self).show_node_content
                    &&& final(self).show_node_creator == (old(self).show_node_creator || secondary_clicked)
                },
            },
    {
        if clicked {
            self.selected_node = match hit {
                Some(id) => Some(id.to_owned()),
                None => None,
            };
        }
        if double_clicked {
            match hit {
                Some(id) => {
                    self.selected_node = Some(id.to_owned());
                    self.show_node_content = true;
                },
                None => {},
            }
        }
        if secondary_clicked {
            match hit {
                Some(_) => {},
                None => {
                    self.show_node_creator = true;
                },
            }
        }
    }

    /// The view is `before` with one more node made for show: the node
    /// `id`, of the kind, the name and the pictogram that were chosen, which
    /// names no parent, stands on the lowest tier of the cake behind the nodes
    /// that stood there, and is the end of a new parent link from the node
    /// at the place `parent` of the graph, or from the last node where there
    /// is no such place.
    pub open spec fn shows_demo_node(
        &self,
        before: &CosmosView,
        id: Seq<char>,
        kind: int,
        name: int,
        emoji: int,
        parent: int,
    ) -> bool {
        let links = self.graph.links();
        let ids = self.graph.ids();
        let from = if parent < ids.len() {
            parent
        } else {
            ids.len() - 1
        };
        &&& self.same_controls(before)
        &&& self.last_node_count == before.last_node_count
        &&& self.scene_3d.same_build(&before.scene_3d)
        &&& self.scene_3d.cake() == added(before.scene_3d.capacities(), before.scene_3d.cake(), id, None)
        &&& self.graph.has(id)
        &&& self.graph.node(id).title@ == demo_emoji(emoji) + " "@ + demo_name(name)
        &&& self.graph.node(id).node_type == demo_kind(kind)
        &&& self.graph.node(id).parent_id is None
        &&& !before.graph.has(id) ==> {
            &&& ids == before.graph.ids().push(id)
            &&& self.graph.node_seq().drop_last() == before.graph.node_seq()
        }
        &&& before.graph.has(id) ==> ids == before.graph.ids()
        &&& links.len() == before.graph.links().len() + 1
        &&& links.drop_last() == before.graph.links()
        &&& links.last().source_id@ == ids[from]
        &&& links.last().target_id@ == id
        &&& links.last().relation_type == RelationType::Parent
    }

    /// Makes a node for show, by four choices made at random: its kind, the
    /// name and the pictogram of its title, and the node from which a parent
    /// link leads to it.
    pub fn add_random_demo_node(&mut self)
        requires
            old(self).wf(),
        ensures
            final(self).wf(),
            exists|id: Seq<char>, kind: int, name: int, emoji: int, parent: int|
                {
                    &&& 0 <= kind < 3
                    &&& 0 <= name < 6
                    &&& 0 <= emoji < 6
                    &&& 0 <= parent
                    &&& #[trigger] final(self).shows_demo_node(old(self), id, kind, name, emoji, parent)
                },
    {
        let kind: usize = uniform_between(0, 3) as usize;
        let name: usize = uniform_between(0, 6) as usize;
        let emoji: usize = uniform_between(0, 6) as usize;
        let count: usize = self.graph.node_count();
        let wide: u64 = count as u64;
        let parent: usize = if wide < 0x7fff_ffff_ffff_ffff {
            uniform_between(0, wide as i64 + 1) as usize
        } else {
            0
        };
        let id: String = self.add_demo_node(kind, name, emoji, parent);
    }

    /// Makes a node for show from four choices: its kind, the name and the
    /// pictogram of its title, and the node from which a parent link leads
    /// to it, which is chosen by its place among the nodes once the new
    /// node is one of them. A choice beyond the last stands for the last.
    /// The node is put on the lowest tier of the cake, behind the nodes that
    /// stand there.
    pub fn add_demo_node(&mut self, kind: usize, name: usize, emoji: usize, parent: usize) -> (id: String)
        requires
            old(self).wf(),
        ensures
            final(self).wf(),
            final(self).shows_demo_node(old(self), id@, kind as int, name as int, emoji as int, parent as int),
    {
        let node_type: NodeType = if kind == 0 {
            NodeType::Concept
        } else if kind == 1 {
            NodeType::Task
        } else {
            NodeType::Note
        };
        let name_text: &str = if name == 0 {
            "Idea"
        } else if name == 1 {
            "Thought"
        } else if name == 2 {
            "Plan"
        } else if name == 3 {
            "Goal"
        } else if name == 4 {
            "Memory"
        } else {
            "Insight"
        };
        let emoji_text: &str = if emoji == 0 {
            "💡"
        } else if emoji == 1 {
            "🎯"
        } else if emoji == 2 {
            "📝"
        } else if emoji == 3 {
            "🌟"
        } else if emoji == 4 {
            "🔍"
        } else {
            "💭"
        };
        let title: String = String::from_str(emoji_text).concat(" ").concat(name_text);
        let ghost before = self.graph;
        let id: String = self.graph.create_node(title, node_type, Position2D::new(0, 0));
        let ghost entered = self.graph;
        let count: usize = self.graph.node_count();
        proof {
            before.identifiers_are_distinct();
            entered.identifiers_are_distinct();
            assert(count > 0);
        }
        let from: usize = if parent < count {
            parent
        } else {
            count - 1
        };
        let parent_id: String = self.graph.id_at(from).clone();
        self.graph.create_relation(parent_id.as_str(), id.as_str(), RelationType::Parent);
        self.scene_3d.add_node_to_cake(&mut self.graph, id.as_str(), None);
        proof {
            if !before.has(id@) {
                assert(self.graph.node_seq().drop_last() =~= before.node_seq());
            }
        }
        id
    }

    /// The answer to "Create" in the window in which a node is made: with a
    /// kind chosen, a node of that kind and of the title in the window is
    /// entered into the graph and put on the lowest tier of the cake, behind
    /// the nodes that stand there; the window is cleared and closes. Without
    /// a kind the window stays as it is.
    pub fn confirm_node_creator(&mut self) -> (made: Option<String>)
        requires
            old(self).wf(),
        ensures
            final(self).wf(),
            final(self).last_node_count == old(self).last_node_count,
            match old(self).new_node_type {
                None => {
                    &&& made is None
                    &&& final(self).same_controls(old(self))
                    &&& final(self).graph == old(self).graph
                    &&& final(self).scene_3d == old(self).scene_3d
                },
                Some(kind) => {
                    &&& made matches Some(id)
                    &&& final(self).same_controls(
                        &(CosmosView {
                            new_node_title: final(self).new_node_title,
                            new_node_type: None,
                            show_node_creator: false,
                            ..*old(self)
                        }),
                    )
                    &&& final(self).new_node_title@.len() == 0
                    &&& final(self).graph.has(made->0@)
                    &&& final(self).graph.node(made->0@).title@ == old(self).new_node_title@
                    &&& final(self).graph.node(made->0@).node_type == kind
                    &&& final(self).graph.links() == old(self).graph.links()
                    &&& final(self).scene_3d.same_build(&old(self).scene_3d)
                    &&& final(self).scene_3d.cake() == added(
                        old(self).scene_3d.capacities(),
                        old(self).scene_3d.cake(),
                        made->0@,
                        None,
                    )
                },
            },
    {
        match self.new_node_type {
            Some(kind) => {
                let title: String = self.new_node_title.clone();
                let id: String = self.graph.create_node(title, kind, Position2D::new(0, 0));
                let ghost entered = self.graph;
                self.scene_3d.add_node_to_cake(&mut self.graph, id.as_str(), None);
                proof {
                    entered.identifiers_are_distinct();
                }
                self.new_node_title = String::new();
                self.new_node_type = None;
                self.show_node_creator = false;
                Some(id)
            },
            None => None,
        }
    }

    /// Starts a new universe: an empty graph, the usual cake with nothing on
    /// it, and a fresh identifier.
    pub fn create_new_universe(&mut self)
        ensures
            final(self).wf(),
            final(self).same_controls(
                &(CosmosView { current_universe_id: final(self).current_universe_id, ..*old(self) }),
            ),
            final(self).last_node_count == old(self).last_node_count,
            final(self).current_universe_id matches Some(id) && id@.len() == 36,
            final(self).graph.ids().len() == 0,
            final(self).graph.links().len() == 0,
            final(self).scene_3d.capacities() == seq![8nat, 6nat, 4nat, 3nat, 2nat],
            final(self).scene_3d.placed().len() == 0,
            final(self).scene_3d.cake() == crate::ui::cake::empty_cake(5),
    {
        self.graph = Graph::new();
        self.scene_3d = Scene3D::new();
        self.current_universe_id = Some(random_uuid());
    }

    /// Shows a universe that was loaded: its graph takes the place of the
    /// graph that was shown and is arranged on the cake.
    pub fn load_universe(&mut self, graph: Graph, universe_id: &str)
        requires
            old(self).wf(),
            graph.wf(),
        ensures
            final(self).wf(),
            final(self).same_controls(
                &(CosmosView { current_universe_id: final(self).current_universe_id, ..*old(self) }),
            ),
            final(self).last_node_count == old(self).last_node_count,
            final(self).current_universe_id matches Some(id) && id@ == universe_id@,
            final(self).scene_3d.same_build(&old(self).scene_3d),
            final(self).scene_3d.cake() == arranged(old(self).scene_3d.capacities(), facts_of(&graph)),
            final(self).scene_3d.follows(&graph, &final(self).graph),
    {
        self.graph = graph;
        self.scene_3d.arrange_graph_as_cake(&mut self.graph);
        self.current_universe_id = Some(universe_id.to_owned());
    }
}

} // verus!
