//! Several cakes side by side: the state of the drawing board on which cakes
//! are set up, nodes are put on their tiers by hand, and nodes are connected
//! within a cake and between cakes.
//!
//! Lengths are in thousandths of a unit and angles in thousandths of a
//! radian. Where on the screen a click fell, and what it hit, is for the
//! caller to work out; the board is told the node or the cake that was hit.

use vstd::prelude::*;
use vstd::string::StringExecFns;
use crate::celestial::position::Position2D;
use crate::outside::{decimal, decimal_text, underscored, underscored_text};
use crate::ui::cake::tier_radius;
use crate::ui::scene_3d::Layer;

verus! {

/// The radius of the lowest ring of a cake on the board, in thousandths.
pub const BOARD_RADIUS: u64 = 80000;

/// The angle between two neighbours on a ring of the board, in thousandths
/// of a radian.
pub const NEIGHBOUR_ANGLE: i128 = 1200;

/// The kind of a node on the board.
#[derive(Clone, Copy, Debug, PartialEq, Eq, Structural)]
pub enum NodeType {
    Root,
    Concept,
    Task,
    Note,
}

impl NodeType {
    /// The pictogram shown for this kind.
    pub open spec fn pictogram(self) -> Seq<char> {
        match self {
            NodeType::Root => "🌌"@,
            NodeType::Concept => "💭"@,
            NodeType::Task => "📋"@,
            NodeType::Note => "📝"@,
        }
    }

    /// The colour of this kind, as red, green and blue bytes.
    pub open spec fn paint(self) -> Seq<u8> {
        match self {
            NodeType::Root => seq![255u8, 215u8, 0u8],
            NodeType::Concept => seq![100u8, 149u8, 237u8],
            NodeType::Task => seq![255u8, 105u8, 180u8],
            NodeType::Note => seq![50u8, 205u8, 50u8],
        }
    }

    /// The tier on which a node of this kind is put.
    pub open spec fn tier(self) -> nat {
        match self {
            NodeType::Root => 0,
            NodeType::Concept => 1,
            NodeType::Task => 2,
            NodeType::Note => 3,
        }
    }

    pub fn emoji(&self) -> (glyph: &'static str)
        ensures
            glyph@ == self.pictogram(),
    {
        match self {
            NodeType::Root => "🌌",
            NodeType::Concept => "💭",
            NodeType::Task => "📋",
            NodeType::Note => "📝",
        }
    }

    pub fn color(&self) -> (rgb: [u8; 3])
        ensures
            rgb@ == self.paint(),
    {
        let rgb: [u8; 3] = match self {
            NodeType::Root => [255, 215, 0],
            NodeType::Concept => [100, 149, 237],
            NodeType::Task => [255, 105, 180],
            NodeType::Note => [50, 205, 50],
        };
        rgb
    }

    pub fn layer(&self) -> (tier: usize)
        ensures
            tier == self.tier(),
    {
        match self {
            NodeType::Root => 0,
            NodeType::Concept => 1,
            NodeType::Task => 2,
            NodeType::Note => 3,
        }
    }
}

/// A node on a tier of one of the cakes.
#[derive(Clone, Debug)]
pub struct CakeNode {
    pub id: String,
    pub title: String,
    pub layer: usize,
    pub angle: i128,
    pub radius: i128,
    pub node_type: NodeType,
    pub cake_id: String,
    pub selected: bool,
}

/// One cake: where it stands, how large it is drawn, its colours, and the
/// highest tier that it has been given.
#[derive(Clone, Debug)]
pub struct CakeStructure {
    pub id: String,
    pub title: String,
    pub center: Position2D,
    pub size_scale: i128,
    pub color_theme: usize,
    pub max_layer: usize,
}

/// The colours of the tiers, as red, green and blue bytes, for each of the
/// four themes: the usual one, the warm one, the cool one and that of nature.
/// The seventh entry of a theme is for every tier above the sixth.
pub open spec fn palette(theme: nat, layer: nat) -> Seq<u8> {
    let at = if layer < 6 {
        layer
    } else {
        6
    };
    if theme == 0 {
        seq![
            seq![255u8, 215u8, 0u8],
            seq![173u8, 216u8, 230u8],
            seq![255u8, 182u8, 193u8],
            seq![144u8, 238u8, 144u8],
            seq![255u8, 160u8, 122u8],
            seq![221u8, 160u8, 221u8],
            seq![200u8, 200u8, 200u8],
        ][at as int]
    } else if theme == 1 {
        seq![
            seq![255u8, 140u8, 0u8],
            seq![255u8, 160u8, 122u8],
            seq![255u8, 192u8, 203u8],
            seq![255u8, 218u8, 185u8],
            seq![255u8, 228u8, 196u8],
            seq![255u8, 239u8, 213u8],
            seq![255u8, 245u8, 230u8],
        ][at as int]
    } else if theme == 2 {
        seq![
            seq![70u8, 130u8, 180u8],
            seq![135u8, 206u8, 250u8],
            seq![173u8, 216u8, 230u8],
            seq![224u8, 255u8, 255u8],
            seq![240u8, 248u8, 255u8],
            seq![248u8, 248u8, 255u8],
            seq![250u8, 250u8, 255u8],
        ][at as int]
    } else {
        seq![
            seq![139u8, 69u8, 19u8],
            seq![34u8, 139u8, 34u8],
            seq![154u8, 205u8, 50u8],
            seq![240u8, 230u8, 140u8],
            seq![255u8, 255u8, 224u8],
            seq![250u8, 240u8, 230u8],
            seq![245u8, 245u8, 220u8],
        ][at as int]
    }
}

/// The opacity with which the tiers are painted, as a byte.
pub const TIER_ALPHA: u8 = 120;

impl CakeStructure {
    /// A cake of the usual size and colours with one tier.
    pub fn new(id: String, title: String, center: Position2D) -> (cake: Self)
        ensures
            cake.id == id,
            cake.title == title,
            cake.center == center,
            cake.size_scale == 1000,
            cake.color_theme == 0,
            cake.max_layer == 0,
    {
        Self { id, title, center, size_scale: 1000, color_theme: 0, max_layer: 0 }
    }

    /// The colour of a tier: red, green, blue and alpha as bytes.
    pub fn get_layer_color(&self, layer: usize) -> (rgba: [u8; 4])
        ensures
            rgba@ == palette(self.color_theme as nat, layer as nat).push(TIER_ALPHA),
    {
        let rgb: [u8; 3] = match self.color_theme {
            0 => match layer {
                0 => [255, 215, 0],
                1 => [173, 216, 230],
                2 => [255, 182, 193],
                3 => [144, 238, 144],
                4 => [255, 160, 122],
                5 => [221, 160, 221],
                _ => [200, 200, 200],
            },
            1 => match layer {
                0 => [255, 140, 0],
                1 => [255, 160, 122],
                2 => [255, 192, 203],
                3 => [255, 218, 185],
                4 => [255, 228, 196],
                5 => [255, 239, 213],
                _ => [255, 245, 230],
            },
            2 => match layer {
                0 => [70, 130, 180],
                1 => [135, 206, 250],
                2 => [173, 216, 230],
                3 => [224, 255, 255],
                4 => [240, 248, 255],
                5 => [248, 248, 255],
                _ => [250, 250, 255],
            },
            _ => match layer {
                0 => [139, 69, 19],
                1 => [34, 139, 34],
                2 => [154, 205, 50],
                3 => [240, 230, 140],
                4 => [255, 255, 224],
                5 => [250, 240, 230],
                _ => [245, 245, 220],
            },
        };
        let rgba: [u8; 4] = [rgb[0], rgb[1], rgb[2], TIER_ALPHA];
        rgba
    }

    /// Gives the cake every tier up to `layer`.
    pub fn expand_to_layer(&mut self, layer: usize)
        ensures
            *final(self) == (CakeStructure {
                max_layer: if layer > old(self).max_layer {
                    layer
                } else {
                    old(self).max_layer
                },
                ..*old(self)
            }),
    {
        if layer > self.max_layer {
            self.max_layer = layer;
        }
    }
}

/// Whether a connection stays within one cake or leads from one to another.
#[derive(Clone, Copy, Debug, PartialEq, Eq, Structural)]
pub enum ConnectionType {
    IntraCake,
    InterCake,
}

/// A connection between two nodes.
#[derive(Clone, Debug)]
pub struct Connection {
    pub from_id: String,
    pub to_id: String,
    pub connection_type: ConnectionType,
}

/// What the pointer is doing.
#[derive(Debug)]
pub enum InteractionMode {
    Idle,
    DraggingNode(String),
    CreatingConnection(String),
    DraggingCake(String),
    PanningView,
}

/// The board: the cakes, the nodes on them, the connections, what is
/// selected, and what the small windows hold.
pub struct Board {
    pub cakes: Vec<CakeStructure>,
    pub nodes: Vec<CakeNode>,
    pub connections: Vec<Connection>,
    pub selected_node: Option<String>,
    pub selected_cake: Option<String>,
    pub interaction_mode: InteractionMode,
    pub show_create_menu: bool,
    pub new_node_title: String,
    pub new_node_type: NodeType,
    pub show_cake_creator: bool,
    pub new_cake_title: String,
    pub new_cake_theme: usize,
    pub editing_node: Option<String>,
    pub edit_title: String,
    pub show_layers: bool,
    pub show_connections: bool,
    pub show_cake_titles: bool,
}

/// The index of the first among the first `upto` nodes that bears `id`.
pub open spec fn node_with_id(nodes: Seq<CakeNode>, id: Seq<char>, upto: int) -> Option<int>
    decreases upto,
{
    if upto <= 0 {
        None
    } else {
        match node_with_id(nodes, id, upto - 1) {
            Some(i) => Some(i),
            None => if nodes[upto - 1].id@ == id {
                Some(upto - 1)
            } else {
                None
            },
        }
    }
}

/// The index of the first among the first `upto` nodes that is titled `title`.
pub open spec fn node_titled(nodes: Seq<CakeNode>, title: Seq<char>, upto: int) -> Option<int>
    decreases upto,
{
    if upto <= 0 {
        None
    } else {
        match node_titled(nodes, title, upto - 1) {
            Some(i) => Some(i),
            None => if nodes[upto - 1].title@ == title {
                Some(upto - 1)
            } else {
                None
            },
        }
    }
}

/// The index of the first among the first `upto` cakes that bears `id`.
pub open spec fn cake_with_id(cakes: Seq<CakeStructure>, id: Seq<char>, upto: int) -> Option<int>
    decreases upto,
{
    if upto <= 0 {
        None
    } else {
        match cake_with_id(cakes, id, upto - 1) {
            Some(i) => Some(i),
            None => if cakes[upto - 1].id@ == id {
                Some(upto - 1)
            } else {
                None
            },
        }
    }
}

/// How many of the first `upto` nodes stand on tier `layer` of the cake `cake`.
pub open spec fn count_on_tier(nodes: Seq<CakeNode>, cake: Seq<char>, layer: nat, upto: int) -> nat
    decreases upto,
{
    if upto <= 0 {
        0
    } else {
        count_on_tier(nodes, cake, layer, upto - 1) + if nodes[upto - 1].cake_id@ == cake && nodes[upto
            - 1].layer == layer {
            1nat
        } else {
            0nat
        }
    }
}

/// Whether one of the first `upto` connections joins `a` and `b`, in either
/// direction.
pub open spec fn joined(connections: Seq<Connection>, a: Seq<char>, b: Seq<char>, upto: int) -> bool
    decreases upto,
{
    if upto <= 0 {
        false
    } else {
        let last = connections[upto - 1];
        joined(connections, a, b, upto - 1) || (last.from_id@ == a && last.to_id@ == b) || (last.from_id@ == b
            && last.to_id@ == a)
    }
}

/// The identifier that a node titled `title` gets as the node number `index`.
pub open spec fn node_id_for(title: Seq<char>, index: nat) -> Seq<char> {
    underscored_text(title) + "_"@ + decimal_text(index)
}

/// The identifier of the cake number `index`.
pub open spec fn cake_id_for(index: nat) -> Seq<char> {
    "cake_"@ + decimal_text(index)
}

/// The title of the cake number `index`, counted from one.
pub open spec fn cake_title_for(index: nat) -> Seq<char> {
    "Cake "@ + decimal_text(index + 1)
}

/// The node that is put on a cake.
pub open spec fn is_node(
    node: CakeNode,
    index: nat,
    title: Seq<char>,
    node_type: NodeType,
    cake: Seq<char>,
    layer: usize,
    angle: i128,
) -> bool {
    &&& node.id@ == node_id_for(title, index)
    &&& node.title@ == title
    &&& node.layer == layer
    &&& node.angle == angle
    &&& node.radius == tier_radius(BOARD_RADIUS as nat, layer as nat)
    &&& node.node_type == node_type
    &&& node.cake_id@ == cake
    &&& !node.selected
}

/// The cakes after the first that bears `id`, if there is one, was given
/// every tier up to `layer`.
pub open spec fn expanded(cakes: Seq<CakeStructure>, id: Seq<char>, layer: usize) -> Seq<CakeStructure> {
    match cake_with_id(cakes, id, cakes.len() as int) {
        Some(i) => cakes.update(
            i,
            CakeStructure {
                max_layer: if layer > cakes[i].max_layer {
                    layer
                } else {
                    cakes[i].max_layer
                },
                ..cakes[i]
            },
        ),
        None => cakes,
    }
}

/// The text of an optional name.
pub open spec fn name_text(name: Option<&str>) -> Option<Seq<char>> {
    match name {
        Some(t) => Some(t@),
        None => None,
    }
}

/// The text of an optional string.
pub open spec fn opt_text(text: Option<String>) -> Option<Seq<char>> {
    match text {
        Some(t) => Some(t@),
        None => None,
    }
}

/// What is found among the first `from` is found among the first `upto`.
proof fn node_with_id_stays(nodes: Seq<CakeNode>, id: Seq<char>, from: int, upto: int)
    requires
        from <= upto,
        node_with_id(nodes, id, from) is Some,
    ensures
        node_with_id(nodes, id, upto) == node_with_id(nodes, id, from),
    decreases upto - from,
{
    if from < upto {
        node_with_id_stays(nodes, id, from, upto - 1);
    }
}

proof fn node_titled_stays(nodes: Seq<CakeNode>, title: Seq<char>, from: int, upto: int)
    requires
        from <= upto,
        node_titled(nodes, title, from) is Some,
    ensures
        node_titled(nodes, title, upto) == node_titled(nodes, title, from),
    decreases upto - from,
{
    if from < upto {
        node_titled_stays(nodes, title, from, upto - 1);
    }
}

proof fn cake_with_id_stays(cakes: Seq<CakeStructure>, id: Seq<char>, from: int, upto: int)
    requires
        from <= upto,
        cake_with_id(cakes, id, from) is Some,
    ensures
        cake_with_id(cakes, id, upto) == cake_with_id(cakes, id, from),
    decreases upto - from,
{
    if from < upto {
        cake_with_id_stays(cakes, id, from, upto - 1);
    }
}

/// The cake that is found stands within the sequence and bears the identifier.
pub proof fn found_cake_is_sound(cakes: Seq<CakeStructure>, id: Seq<char>, upto: int)
    requires
        upto <= cakes.len(),
    ensures
        cake_with_id(cakes, id, upto) matches Some(i) ==> 0 <= i < upto && cakes[i].id@ == id,
    decreases upto,
{
    if upto > 0 {
        found_cake_is_sound(cakes, id, upto - 1);
    }
}

/// The nodes that stay when the node `id` is deleted.
pub open spec fn nodes_without(nodes: Seq<CakeNode>, id: Seq<char>) -> Seq<CakeNode> {
    nodes.filter(|node: CakeNode| node.id@ != id)
}

/// The connections that stay when the node `id` is deleted.
pub open spec fn connections_without(connections: Seq<Connection>, id: Seq<char>) -> Seq<Connection> {
    connections.filter(|link: Connection| link.from_id@ != id && link.to_id@ != id)
}

impl Board {
    /// Nothing is connected or selected, and every control is at rest.
    pub open spec fn is_at_rest(&self) -> bool {
        &&& self.connections@.len() == 0
        &&& self.selected_node is None
        &&& self.selected_cake is None
        &&& self.interaction_mode is Idle
        &&& !self.show_create_menu
        &&& self.new_node_title@.len() == 0
        &&& self.new_node_type == NodeType::Root
        &&& !self.show_cake_creator
        &&& self.new_cake_title@.len() == 0
        &&& self.new_cake_theme == 0
        &&& self.editing_node is None
        &&& self.edit_title@.len() == 0
        &&& self.show_layers
        &&& self.show_connections
        &&& self.show_cake_titles
    }

    /// A board on which nothing stands.
    pub open spec fn is_bare(&self) -> bool {
        &&& self.cakes@.len() == 0
        &&& self.nodes@.len() == 0
        &&& self.is_at_rest()
    }

    /// The board is `before` but for its cakes and nodes.
    pub open spec fn same_controls(&self, before: &Board) -> bool {
        *self == (Board { cakes: self.cakes, nodes: self.nodes, ..*before })
    }

    /// The node number `nodes.len()` was put on the cake `cake`, which was
    /// given every tier up to `layer`.
    pub open spec fn node_added(
        &self,
        before: &Board,
        title: Seq<char>,
        node_type: NodeType,
        cake: Seq<char>,
        layer: usize,
        angle: i128,
    ) -> bool {
        &&& self.nodes@.len() == before.nodes@.len() + 1
        &&& self.nodes@.drop_last() == before.nodes@
        &&& is_node(self.nodes@.last(), before.nodes@.len(), title, node_type, cake, layer, angle)
        &&& self.cakes@ == expanded(before.cakes@, cake, layer)
    }

    /// A board without cakes, nodes or connections, with every control at rest.
    pub fn empty() -> (board: Self)
        ensures
            board.is_bare(),
    {
        Self {
            cakes: Vec::new(),
            nodes: Vec::new(),
            connections: Vec::new(),
            selected_node: None,
            selected_cake: None,
            interaction_mode: InteractionMode::Idle,
            show_create_menu: false,
            new_node_title: String::new(),
            new_node_type: NodeType::Root,
            show_cake_creator: false,
            new_cake_title: String::new(),
            new_cake_theme: 0,
            editing_node: None,
            edit_title: String::new(),
            show_layers: true,
            show_connections: true,
            show_cake_titles: true,
        }
    }

    /// The board as it is first shown: two cakes, the main project and the
    /// research area, each with its root.
    pub fn new() -> (board: Self)
        ensures
            board.cakes@.len() == 2,
            board.cakes@[0].id@ == "main_project"@,
            board.cakes@[0].title@ == "Main Project"@,
            board.cakes@[0].center == (Position2D { x: 300000, y: 300000 }),
            board.cakes@[0].color_theme == 0,
            board.cakes@[1].id@ == "research"@,
            board.cakes@[1].title@ == "Research Area"@,
            board.cakes@[1].center == (Position2D { x: 700000, y: 200000 }),
            board.cakes@[1].color_theme == 1,
            board.nodes@.len() == 2,
            is_node(board.nodes@[0], 0, "Main Goal"@, NodeType::Root, "main_project"@, 0, 0),
            is_node(board.nodes@[1], 1, "Research"@, NodeType::Root, "research"@, 0, 0),
            board.is_at_rest(),
    {
        let mut board = Self::empty();
        board.create_demo_structures();
        board
    }

    /// Sets up the two cakes with which the board is first shown.
    fn create_demo_structures(&mut self)
        requires
            old(self).cakes@.len() == 0,
            old(self).nodes@.len() == 0,
        ensures
            final(self).same_controls(old(self)),
            final(self).cakes@.len() == 2,
            final(self).cakes@[0].id@ == "main_project"@,
            final(self).cakes@[0].title@ == "Main Project"@,
            final(self).cakes@[0].center == (Position2D { x: 300000, y: 300000 }),
            final(self).cakes@[0].color_theme == 0,
            final(self).cakes@[1].id@ == "research"@,
            final(self).cakes@[1].title@ == "Research Area"@,
            final(self).cakes@[1].center == (Position2D { x: 700000, y: 200000 }),
            final(self).cakes@[1].color_theme == 1,
            final(self).nodes@.len() == 2,
            is_node(final(self).nodes@[0], 0, "Main Goal"@, NodeType::Root, "main_project"@, 0, 0),
            is_node(final(self).nodes@[1], 1, "Research"@, NodeType::Root, "research"@, 0, 0),
    {
        let first = CakeStructure::new(
            String::from_str("main_project"),
            String::from_str("Main Project"),
            Position2D::new(300000, 300000),
        );
        self.cakes.push(first);
        let mut second = CakeStructure::new(
            String::from_str("research"),
            String::from_str("Research Area"),
            Position2D::new(700000, 200000),
        );
        second.color_theme = 1;
        self.cakes.push(second);
        let ghost set_up = *self;
        self.add_node_to_cake("Main Goal", NodeType::Root, "main_project", 0, 0);
        let ghost one = *self;
        self.add_node_to_cake("Research", NodeType::Root, "research", 0, 0);
        proof {
            found_cake_is_sound(set_up.cakes@, "main_project"@, 2);
            found_cake_is_sound(one.cakes@, "research"@, 2);
        }
    }

    /// The index of the node that bears `id`.
    pub fn find_node(&self, id: &str) -> (found: Option<usize>)
        ensures
            match found {
                Some(i) => node_with_id(self.nodes@, id@, self.nodes@.len() as int) == Some(i as int) && i
                    < self.nodes@.len() && self.nodes@[i as int].id@ == id@,
                None => node_with_id(self.nodes@, id@, self.nodes@.len() as int) is None,
            },
    {
        let key = id.to_owned();
        let mut i: usize = 0;
        while i < self.nodes.len()
            invariant
                key@ == id@,
                i <= self.nodes@.len(),
                node_with_id(self.nodes@, id@, i as int) is None,
            decreases self.nodes@.len() - i,
        {
            if self.nodes[i].id == key {
                proof {
                    node_with_id_stays(self.nodes@, id@, i as int + 1, self.nodes@.len() as int);
                }
                return Some(i);
            }
            i += 1;
        }
        None
    }

    /// The index of the first node that is titled `title`.
    pub fn find_node_titled(&self, title: &str) -> (found: Option<usize>)
        ensures
            match found {
                Some(i) => node_titled(self.nodes@, title@, self.nodes@.len() as int) == Some(i as int) && i
                    < self.nodes@.len(),
                None => node_titled(self.nodes@, title@, self.nodes@.len() as int) is None,
            },
    {
        let key = title.to_owned();
        let mut i: usize = 0;
        while i < self.nodes.len()
            invariant
                key@ == title@,
                i <= self.nodes@.len(),
                node_titled(self.nodes@, title@, i as int) is None,
            decreases self.nodes@.len() - i,
        {
            if self.nodes[i].title == key {
                proof {
                    node_titled_stays(self.nodes@, title@, i as int + 1, self.nodes@.len() as int);
                }
                return Some(i);
            }
            i += 1;
        }
        None
    }

    /// The index of the cake that bears `id`.
    pub fn find_cake(&self, id: &str) -> (found: Option<usize>)
        ensures
            match found {
                Some(i) => cake_with_id(self.cakes@, id@, self.cakes@.len() as int) == Some(i as int) && i
                    < self.cakes@.len() && self.cakes@[i as int].id@ == id@,
                None => cake_with_id(self.cakes@, id@, self.cakes@.len() as int) is None,
            },
    {
        let key = id.to_owned();
        let mut i: usize = 0;
        while i < self.cakes.len()
            invariant
                key@ == id@,
                i <= self.cakes@.len(),
                cake_with_id(self.cakes@, id@, i as int) is None,
            decreases self.cakes@.len() - i,
        {
            if self.cakes[i].id == key {
                proof {
                    cake_with_id_stays(self.cakes@, id@, i as int + 1, self.cakes@.len() as int);
                }
                return Some(i);
            }
            i += 1;
        }
        None
    }

    /// Puts a node on tier `layer` of the cake `cake_id`, at `angle`. The
    /// ring of the tier gives the radius; the title and the number of the
    /// node give its identifier. The cake, if the board has it, is given
    /// every tier up to `layer`.
    pub fn add_node_to_cake(&mut self, title: &str, node_type: NodeType, cake_id: &str, layer: usize, angle: i128)
        ensures
            final(self).same_controls(old(self)),
            final(self).node_added(old(self), title@, node_type, cake_id@, layer, angle),
    {
        let radius: i128 = Layer::new(layer, BOARD_RADIUS, 0).radius;
        let id = underscored(title).concat("_").concat(decimal(self.nodes.len() as u128).as_str());
        let node = CakeNode {
            id,
            title: title.to_owned(),
            layer,
            angle,
            radius,
            node_type,
            cake_id: cake_id.to_owned(),
            selected: false,
        };
        match self.find_cake(cake_id) {
            Some(i) => {
                let mut cake = self.cakes[i].clone_cake();
                cake.expand_to_layer(layer);
                self.cakes.set(i, cake);
            },
            None => {},
        }
        let ghost before = self.nodes@;
        self.nodes.push(node);
        assert(self.nodes@.drop_last() =~= before);
    }

    /// Connects the first node titled `from_title` with the first titled
    /// `to_title`, if the board has both.
    pub fn add_connection(&mut self, from_title: &str, to_title: &str, connection_type: ConnectionType)
        ensures
            *final(self) == (Board { connections: final(self).connections, ..*old(self) }),
            match (
                node_titled(old(self).nodes@, from_title@, old(self).nodes@.len() as int),
                node_titled(old(self).nodes@, to_title@, old(self).nodes@.len() as int),
            ) {
                (Some(from), Some(to)) => {
                    &&& final(self).connections@.len() == old(self).connections@.len() + 1
                    &&& final(self).connections@.drop_last() == old(self).connections@
                    &&& final(self).connections@.last().from_id@ == old(self).nodes@[from].id@
                    &&& final(self).connections@.last().to_id@ == old(self).nodes@[to].id@
                    &&& final(self).connections@.last().connection_type == connection_type
                },
                _ => final(self).connections@ == old(self).connections@,
            },
    {
        match self.find_node_titled(from_title) {
            Some(from) => match self.find_node_titled(to_title) {
                Some(to) => {
                    let link = Connection {
                        from_id: self.nodes[from].id.clone(),
                        to_id: self.nodes[to].id.clone(),
                        connection_type,
                    };
                    self.connections.push(link);
                },
                None => {},
            },
            None => {},
        }
    }

    /// Sets up a cake at `center` with the title and the theme that the cake
    /// window holds, and puts a root on it. The cake is numbered after the
    /// cakes that the board has.
    pub fn create_new_cake(&mut self, center: Position2D)
        ensures
            final(self).same_controls(old(self)),
            final(self).cakes@.len() == old(self).cakes@.len() + 1,
            final(self).nodes@.len() == old(self).nodes@.len() + 1,
            final(self).nodes@.drop_last() == old(self).nodes@,
            is_node(
                final(self).nodes@.last(),
                old(self).nodes@.len(),
                "Root"@,
                NodeType::Root,
                cake_id_for(old(self).cakes@.len()),
                0,
                0,
            ),
            ({
                let set_up = old(self).cakes@.push(final(self).cakes@.last());
                &&& final(self).cakes@ == expanded(set_up, cake_id_for(old(self).cakes@.len()), 0)
                &&& final(self).cakes@.last().id@ == cake_id_for(old(self).cakes@.len())
                &&& final(self).cakes@.last().title@ == old(self).new_cake_title@
                &&& final(self).cakes@.last().center == center
                &&& final(self).cakes@.last().color_theme == old(self).new_cake_theme
                &&& final(self).cakes@.last().size_scale == 1000
                &&& final(self).cakes@.last().max_layer == 0
            }),
    {
        let title = self.new_cake_title.clone();
        let theme: usize = self.new_cake_theme;
        self.set_up_cake(title, center, theme);
    }

    /// Sets up a cake without asking: it stands to the right of the cakes
    /// that the board has, is titled by its number, and takes the themes in
    /// turn. A root is put on it.
    pub fn quick_new_cake(&mut self)
        ensures
            final(self).same_controls(old(self)),
            final(self).cakes@.len() == old(self).cakes@.len() + 1,
            final(self).nodes@.len() == old(self).nodes@.len() + 1,
            final(self).nodes@.drop_last() == old(self).nodes@,
            is_node(
                final(self).nodes@.last(),
                old(self).nodes@.len(),
                "Root"@,
                NodeType::Root,
                cake_id_for(old(self).cakes@.len()),
                0,
                0,
            ),
            ({
                let set_up = old(self).cakes@.push(final(self).cakes@.last());
                &&& final(self).cakes@ == expanded(set_up, cake_id_for(old(self).cakes@.len()), 0)
                &&& final(self).cakes@.last().id@ == cake_id_for(old(self).cakes@.len())
                &&& final(self).cakes@.last().title@ == cake_title_for(old(self).cakes@.len())
                &&& final(self).cakes@.last().center == (Position2D {
                    x: (300000 + old(self).cakes@.len() * 300000) as i128,
                    y: 300000,
                })
                &&& final(self).cakes@.last().color_theme == old(self).cakes@.len() % 4
                &&& final(self).cakes@.last().size_scale == 1000
                &&& final(self).cakes@.last().max_layer == 0
            }),
    {
        let count: usize = self.cakes.len();
        let title = String::from_str("Cake ").concat(decimal(count as u128 + 1).as_str());
        let center = Position2D::new(300000 + count as i128 * 300000, 300000);
        self.set_up_cake(title, center, count % 4);
    }

    /// Sets up a cake and puts a root on it.
    fn set_up_cake(&mut self, title: String, center: Position2D, theme: usize)
        ensures
            final(self).same_controls(old(self)),
            final(self).cakes@.len() == old(self).cakes@.len() + 1,
            final(self).nodes@.len() == old(self).nodes@.len() + 1,
            final(self).nodes@.drop_last() == old(self).nodes@,
            is_node(
                final(self).nodes@.last(),
                old(self).nodes@.len(),
                "Root"@,
                NodeType::Root,
                cake_id_for(old(self).cakes@.len()),
                0,
                0,
            ),
            ({
                let set_up = old(self).cakes@.push(final(self).cakes@.last());
                &&& final(self).cakes@ == expanded(set_up, cake_id_for(old(self).cakes@.len()), 0)
                &&& final(self).cakes@.last().id@ == cake_id_for(old(self).cakes@.len())
                &&& final(self).cakes@.last().title == title
                &&& final(self).cakes@.last().center == center
                &&& final(self).cakes@.last().color_theme == theme
                &&& final(self).cakes@.last().size_scale == 1000
                &&& final(self).cakes@.last().max_layer == 0
            }),
    {
        let cake_id = String::from_str("cake_").concat(decimal(self.cakes.len() as u128).as_str());
        let mut cake = CakeStructure::new(cake_id.clone(), title, center);
        cake.color_theme = theme;
        self.cakes.push(cake);
        let ghost set_up = self.cakes@;
        self.add_node_to_cake("Root", NodeType::Root, cake_id.as_str(), 0, 0);
        proof {
            let id = cake_id_for(old(self).cakes@.len());
            found_cake_is_sound(set_up, id, set_up.len() as int);
        }
    }

    /// A click: on a node it selects the node, and a double click opens the
    /// node for editing if the board has it; on a cake, where no node was
    /// hit, it selects the cake; on nothing it clears both selections.
    pub fn click(&mut self, node: Option<&str>, cake: Option<&str>, double: bool)
        ensures
            node matches Some(id) ==> {
                &&& opt_text(final(self).selected_node) == Some(id@)
                &&& final(self).selected_cake == old(self).selected_cake
                &&& match node_with_id(old(self).nodes@, id@, old(self).nodes@.len() as int) {
                    Some(i) if double => {
                        &&& opt_text(final(self).editing_node) == Some(id@)
                        &&& final(self).edit_title@ == old(self).nodes@[i].title@
                    },
                    _ => {
                        &&& final(self).editing_node == old(self).editing_node
                        &&& final(self).edit_title == old(self).edit_title
                    },
                }
            },
            node is None ==> {
                &&& final(self).editing_node == old(self).editing_node
                &&& final(self).edit_title == old(self).edit_title
                &&& match cake {
                    Some(id) => opt_text(final(self).selected_cake) == Some(id@) && final(self).selected_node
                        == old(self).selected_node,
                    None => final(self).selected_cake is None && final(self).selected_node is None,
                }
            },
            *final(self) == (Board {
                selected_node: final(self).selected_node,
                selected_cake: final(self).selected_cake,
                editing_node: final(self).editing_node,
                edit_title: final(self).edit_title,
                ..*old(self)
            }),
    {
        match node {
            Some(id) => {
                self.selected_node = Some(id.to_owned());
                if double {
                    match self.find_node(id) {
                        Some(i) => {
                            self.editing_node = Some(id.to_owned());
                            self.edit_title = self.nodes[i].title.clone();
                        },
                        None => {},
                    }
                }
            },
            None => match cake {
                Some(id) => {
                    self.selected_cake = Some(id.to_owned());
                },
                None => {
                    self.selected_node = None;
                    self.selected_cake = None;
                },
            },
        }
    }

    /// The start of a drag: from a node a connection is drawn, a cake is
    /// moved where no node was hit, and the view is panned where nothing was.
    pub fn begin_drag(&mut self, node: Option<&str>, cake: Option<&str>)
        ensures
            *final(self) == (Board { interaction_mode: final(self).interaction_mode, ..*old(self) }),
            match (node, cake) {
                (Some(id), _) => final(self).interaction_mode matches InteractionMode::CreatingConnection(from)
                    && from@ == id@,
                (None, Some(id)) => final(self).interaction_mode matches InteractionMode::DraggingCake(moved)
                    && moved@ == id@,
                (None, None) => final(self).interaction_mode is PanningView,
            },
    {
        self.interaction_mode = match node {
            Some(id) => InteractionMode::CreatingConnection(id.to_owned()),
            None => match cake {
                Some(id) => InteractionMode::DraggingCake(id.to_owned()),
                None => InteractionMode::PanningView,
            },
        };
    }

    /// Moves the cake that is being dragged by `delta`. Nothing moves while
    /// no cake is dragged, or when the board has lost the cake. A cake at the
    /// edge of the plane stays on it.
    pub fn drag_cake(&mut self, delta: Position2D)
        ensures
            *final(self) == (Board { cakes: final(self).cakes, ..*old(self) }),
            match old(self).interaction_mode {
                InteractionMode::DraggingCake(id) => final(self).cakes@ == match cake_with_id(
                    old(self).cakes@,
                    id@,
                    old(self).cakes@.len() as int,
                ) {
                    Some(i) => old(self).cakes@.update(
                        i,
                        CakeStructure { center: old(self).cakes@[i].center.moved_by(delta), ..old(self).cakes@[i] },
                    ),
                    None => old(self).cakes@,
                },
                _ => final(self).cakes@ == old(self).cakes@,
            },
    {
        let found = match &self.interaction_mode {
            InteractionMode::DraggingCake(id) => self.find_cake(id.as_str()),
            _ => None,
        };
        match found {
            Some(i) => {
                let mut cake = self.cakes[i].clone_cake();
                cake.center = cake.center.plus(delta);
                self.cakes.set(i, cake);
            },
            None => {},
        }
    }

    /// Whether a connection joins the nodes `a` and `b`, in either direction.
    pub fn are_joined(&self, a: &str, b: &str) -> (yes: bool)
        ensures
            yes == joined(self.connections@, a@, b@, self.connections@.len() as int),
    {
        let first = a.to_owned();
        let second = b.to_owned();
        let mut i: usize = 0;
        let mut yes: bool = false;
        while i < self.connections.len()
            invariant
                first@ == a@,
                second@ == b@,
                i <= self.connections@.len(),
                yes == joined(self.connections@, a@, b@, i as int),
            decreases self.connections@.len() - i,
        {
            let link = &self.connections[i];
            if (link.from_id == first && link.to_id == second) || (link.from_id == second && link.to_id
                == first) {
                yes = true;
            }
            i += 1;
        }
        yes
    }

    /// The end of a drag. Where a connection was being drawn and the drag
    /// ended on a node, the two nodes are connected, unless they are one
    /// node or are joined already, in either direction. The connection stays
    /// within a cake where the node from which it was drawn stands on the
    /// cake of the node on which it ended. Every drag ends in the idle mode.
    pub fn end_drag(&mut self, target: Option<&str>)
        ensures
            final(self).interaction_mode is Idle,
            *final(self) == (Board {
                interaction_mode: final(self).interaction_mode,
                connections: final(self).connections,
                ..*old(self)
            }),
            makes_connection(
                old(self).nodes@,
                old(self).connections@,
                drawn_from(old(self).interaction_mode),
                name_text(target),
            ) ==> {
                let from = drawn_from(old(self).interaction_mode)->0;
                let to = name_text(target)->0;
                &&& final(self).connections@.len() == old(self).connections@.len() + 1
                &&& final(self).connections@.drop_last() == old(self).connections@
                &&& final(self).connections@.last().from_id@ == from
                &&& final(self).connections@.last().to_id@ == to
                &&& final(self).connections@.last().connection_type == kind_between(old(self).nodes@, from, to)
            },
            !makes_connection(
                old(self).nodes@,
                old(self).connections@,
                drawn_from(old(self).interaction_mode),
                name_text(target),
            ) ==> final(self).connections@ == old(self).connections@,
    {
        let drawn: Option<String> = match &self.interaction_mode {
            InteractionMode::CreatingConnection(from) => Some(from.clone()),
            _ => None,
        };
        self.interaction_mode = InteractionMode::Idle;
        match drawn {
            Some(from) => match target {
                Some(to) => match self.find_node(to) {
                    Some(hit) => {
                        let same_cake: bool = match self.find_node(from.as_str()) {
                            Some(start) => self.nodes[start].cake_id == self.nodes[hit].cake_id,
                            None => false,
                        };
                        let exists: bool = self.are_joined(from.as_str(), to);
                        let target_id: String = self.nodes[hit].id.clone();
                        if !exists && from != target_id {
                            let link = Connection {
                                from_id: from,
                                to_id: target_id,
                                connection_type: if same_cake {
                                    ConnectionType::IntraCake
                                } else {
                                    ConnectionType::InterCake
                                },
                            };
                            self.connections.push(link);
                        }
                    },
                    None => {},
                },
                None => {},
            },
            None => {},
        }
    }

    /// The answer to "Create" in the node window. With a title, a node of
    /// the chosen kind is put on the tier of its kind, behind the nodes of
    /// that tier, on the selected cake or, where none is selected, on the
    /// first; the title is cleared. Without a cake nothing is made and the
    /// title stays. The window closes in every case.
    pub fn confirm_create_node(&mut self)
        ensures
            !final(self).show_create_menu,
            ({
                let cake = match old(self).selected_cake {
                    Some(id) => Some(id@),
                    None => if old(self).cakes@.len() > 0 {
                        Some(old(self).cakes@[0].id@)
                    } else {
                        None
                    },
                };
                if old(self).new_node_title@.len() > 0 && cake is Some {
                    let layer = old(self).new_node_type.tier() as usize;
                    &&& final(self).node_added(
                        old(self),
                        old(self).new_node_title@,
                        old(self).new_node_type,
                        cake->0,
                        layer,
                        (count_on_tier(old(self).nodes@, cake->0, layer as nat, old(self).nodes@.len() as int)
                            * NEIGHBOUR_ANGLE) as i128,
                    )
                    &&& final(self).new_node_title@.len() == 0
                    &&& *final(self) == (Board {
                        cakes: final(self).cakes,
                        nodes: final(self).nodes,
                        new_node_title: final(self).new_node_title,
                        show_create_menu: false,
                        ..*old(self)
                    })
                } else {
                    *final(self) == (Board { show_create_menu: false, ..*old(self) })
                }
            }),
    {
        if self.new_node_title.as_str().unicode_len() > 0 {
            let cake_id: String = match &self.selected_cake {
                Some(selected) => selected.clone(),
                None => {
                    if self.cakes.len() > 0 {
                        self.cakes[0].id.clone()
                    } else {
                        self.show_create_menu = false;
                        return ;
                    }
                },
            };
            let layer: usize = self.new_node_type.layer();
            let count: usize = self.count_on(cake_id.as_str(), layer);
            let angle: i128 = count as i128 * NEIGHBOUR_ANGLE;
            let title: String = self.new_node_title.clone();
            let node_type = self.new_node_type;
            self.add_node_to_cake(title.as_str(), node_type, cake_id.as_str(), layer, angle);
            self.new_node_title = String::new();
        }
        self.show_create_menu = false;
    }

    /// How many nodes stand on tier `layer` of the cake `cake_id`.
    pub fn count_on(&self, cake_id: &str, layer: usize) -> (count: usize)
        ensures
            count == count_on_tier(self.nodes@, cake_id@, layer as nat, self.nodes@.len() as int),
    {
        let key = cake_id.to_owned();
        let mut count: usize = 0;
        let mut i: usize = 0;
        while i < self.nodes.len()
            invariant
                key@ == cake_id@,
                i <= self.nodes@.len(),
                count <= i,
                count == count_on_tier(self.nodes@, cake_id@, layer as nat, i as int),
            decreases self.nodes@.len() - i,
        {
            if self.nodes[i].cake_id == key && self.nodes[i].layer == layer {
                count += 1;
            }
            i += 1;
        }
        count
    }

    /// The answer to "Create" in the cake window: with a title, a cake is
    /// set up at `center` and the title is cleared. The window closes in
    /// every case.
    pub fn confirm_create_cake(&mut self, center: Position2D)
        ensures
            !final(self).show_cake_creator,
            old(self).new_cake_title@.len() == 0 ==> *final(self) == (Board {
                show_cake_creator: false,
                ..*old(self)
            }),
            old(self).new_cake_title@.len() > 0 ==> {
                &&& final(self).new_cake_title@.len() == 0
                &&& *final(self) == (Board {
                    cakes: final(self).cakes,
                    nodes: final(self).nodes,
                    new_cake_title: final(self).new_cake_title,
                    show_cake_creator: false,
                    ..*old(self)
                })
                &&& final(self).cakes@.len() == old(self).cakes@.len() + 1
                &&& final(self).cakes@.last().id@ == cake_id_for(old(self).cakes@.len())
                &&& final(self).cakes@.last().title@ == old(self).new_cake_title@
                &&& final(self).cakes@.last().center == center
                &&& final(self).cakes@.last().color_theme == old(self).new_cake_theme
                &&& final(self).nodes@.len() == old(self).nodes@.len() + 1
                &&& final(self).nodes@.drop_last() == old(self).nodes@
                &&& is_node(
                    final(self).nodes@.last(),
                    old(self).nodes@.len(),
                    "Root"@,
                    NodeType::Root,
                    cake_id_for(old(self).cakes@.len()),
                    0,
                    0,
                )
            },
    {
        if self.new_cake_title.as_str().unicode_len() > 0 {
            self.create_new_cake(center);
            self.new_cake_title = String::new();
        }
        self.show_cake_creator = false;
    }

    /// The answer to "Save" in the edit window: the node that is edited, if
    /// the board has it, takes the title of the window. The window closes.
    pub fn save_edit(&mut self)
        ensures
            final(self).editing_node is None,
            *final(self) == (Board { nodes: final(self).nodes, editing_node: None, ..*old(self) }),
            final(self).nodes@ == match old(self).editing_node {
                Some(id) => match node_with_id(old(self).nodes@, id@, old(self).nodes@.len() as int) {
                    Some(i) => old(self).nodes@.update(
                        i,
                        CakeNode { title: final(self).nodes@[i].title, ..old(self).nodes@[i] },
                    ),
                    None => old(self).nodes@,
                },
                None => old(self).nodes@,
            },
            old(self).editing_node matches Some(id) ==> (node_with_id(
                old(self).nodes@,
                id@,
                old(self).nodes@.len() as int,
            ) matches Some(i) ==> final(self).nodes@[i].title@ == old(self).edit_title@),
    {
        let found = match &self.editing_node {
            Some(id) => self.find_node(id.as_str()),
            None => None,
        };
        match found {
            Some(i) => {
                let mut node = self.nodes[i].clone_node();
                node.title = self.edit_title.clone();
                self.nodes.set(i, node);
            },
            None => {},
        }
        self.editing_node = None;
    }

    /// The answer to "Delete" in the edit window: the node that is edited
    /// goes, and with it every connection that starts or ends at it. The
    /// window closes and no node is selected.
    pub fn delete_edited(&mut self)
        ensures
            final(self).editing_node is None,
            final(self).selected_node is None,
            *final(self) == (Board {
                nodes: final(self).nodes,
                connections: final(self).connections,
                editing_node: None,
                selected_node: None,
                ..*old(self)
            }),
            match old(self).editing_node {
                Some(id) => {
                    &&& final(self).nodes@ == nodes_without(old(self).nodes@, id@)
                    &&& final(self).connections@ == connections_without(old(self).connections@, id@)
                },
                None => {
                    &&& final(self).nodes@ == old(self).nodes@
                    &&& final(self).connections@ == old(self).connections@
                },
            },
    {
        let editing: Option<String> = self.editing_node.take();
        match editing {
            Some(id) => {
                self.drop_node(&id);
                self.drop_connections(&id);
                self.selected_node = None;
            },
            None => {
                self.selected_node = None;
            },
        }
    }

    /// The answer to "Cancel" in the edit window.
    pub fn cancel_edit(&mut self)
        ensures
            *final(self) == (Board { editing_node: None, ..*old(self) }),
    {
        self.editing_node = None;
    }

    /// Takes out every node that bears `id`.
    fn drop_node(&mut self, id: &String)
        ensures
            *final(self) == (Board { nodes: final(self).nodes, ..*old(self) }),
            final(self).nodes@ == nodes_without(old(self).nodes@, id@),
    {
        let ghost all = self.nodes@;
        let ghost mut done: int = 0;
        let mut i: usize = 0;
        proof {
            reveal(Seq::filter);
        }
        while i < self.nodes.len()
            invariant
                *self == (Board { nodes: self.nodes, ..*old(self) }),
                0 <= done <= all.len(),
                i == nodes_without(all.take(done), id@).len(),
                self.nodes@ == nodes_without(all.take(done), id@) + all.skip(done),
            decreases all.len() - done,
        {
            proof {
                let next = all.take(done + 1);
                assert(next.drop_last() =~= all.take(done));
                reveal(Seq::filter);
            }
            if self.nodes[i].id != *id {
                i += 1;
            } else {
                let _ = self.nodes.remove(i);
            }
            proof {
                done = done + 1;
            }
        }
    }

    /// Takes out every connection that starts or ends at the node `id`.
    fn drop_connections(&mut self, id: &String)
        ensures
            *final(self) == (Board { connections: final(self).connections, ..*old(self) }),
            final(self).connections@ == connections_without(old(self).connections@, id@),
    {
        let ghost all = self.connections@;
        let ghost mut done: int = 0;
        let mut i: usize = 0;
        proof {
            reveal(Seq::filter);
        }
        while i < self.connections.len()
            invariant
                *self == (Board { connections: self.connections, ..*old(self) }),
                0 <= done <= all.len(),
                i == connections_without(all.take(done), id@).len(),
                self.connections@ == connections_without(all.take(done), id@) + all.skip(done),
            decreases all.len() - done,
        {
            proof {
                let next = all.take(done + 1);
                assert(next.drop_last() =~= all.take(done));
                reveal(Seq::filter);
            }
            if self.connections[i].from_id != *id && self.connections[i].to_id != *id {
                i += 1;
            } else {
                let _ = self.connections.remove(i);
            }
            proof {
                done = done + 1;
            }
        }
    }
}

impl CakeStructure {
    /// A copy of the cake.
    fn clone_cake(&self) -> (copy: Self)
        ensures
            copy == *self,
    {
        Self {
            id: self.id.clone(),
            title: self.title.clone(),
            center: self.center,
            size_scale: self.size_scale,
            color_theme: self.color_theme,
            max_layer: self.max_layer,
        }
    }
}

impl CakeNode {
    /// A copy of the node.
    fn clone_node(&self) -> (copy: Self)
        ensures
            copy == *self,
    {
        Self {
            id: self.id.clone(),
            title: self.title.clone(),
            layer: self.layer,
            angle: self.angle,
            radius: self.radius,
            node_type: self.node_type,
            cake_id: self.cake_id.clone(),
            selected: self.selected,
        }
    }
}

/// The node from which a connection is being drawn, if one is.
pub open spec fn drawn_from(mode: InteractionMode) -> Option<Seq<char>> {
    match mode {
        InteractionMode::CreatingConnection(from) => Some(from@),
        _ => None,
    }
}

/// Whether a drag that ends on `target` makes a connection: a connection
/// was being drawn, the drag ended on a node of the board, and the two nodes
/// are not one node and not joined already.
pub open spec fn makes_connection(
    nodes: Seq<CakeNode>,
    connections: Seq<Connection>,
    from: Option<Seq<char>>,
    target: Option<Seq<char>>,
) -> bool {
    &&& from is Some
    &&& target is Some
    &&& node_with_id(nodes, target->0, nodes.len() as int) is Some
    &&& !joined(connections, from->0, target->0, connections.len() as int)
    &&& from->0 != target->0
}

/// The kind of a connection from `from` to `to`: within a cake where both
/// nodes stand on the same cake, between cakes where they do not or where
/// the board lacks one of them.
pub open spec fn kind_between(nodes: Seq<CakeNode>, from: Seq<char>, to: Seq<char>) -> ConnectionType {
    match (node_with_id(nodes, from, nodes.len() as int), node_with_id(nodes, to, nodes.len() as int)) {
        (Some(start), Some(hit)) => if nodes[start].cake_id@ == nodes[hit].cake_id@ {
            ConnectionType::IntraCake
        } else {
            ConnectionType::InterCake
        },
        _ => ConnectionType::InterCake,
    }
}

} // verus!
