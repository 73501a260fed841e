use vstd::prelude::*;
use vstd::string::StringExecFns;
use crate::celestial::node_type::NodeType;
use crate::celestial::position::{LayerPosition, Position2D, Position3D, LAYER_HEIGHT_UNIT};
use crate::outside::{now_millis, random_uuid};

verus! {

/// One node of the graph.
///
/// Lengths and radii are in thousandths of a unit, angles in thousandths of a
/// degree, colour channels, `opacity` and `scale` in thousandths, and the two
/// time stamps in milliseconds since the Unix epoch.
///
/// `position` and `position_3d` are Cartesian. `layer`, `layer_radius` and
/// `layer_angle` give the place on the cake in polar form. Projecting the
/// polar form takes trigonometry, which this library leaves to its caller: the
/// functions here that move a node on its ring do not touch the Cartesian
/// fields.
#[derive(Clone, Debug)]
pub struct Node {
    pub id: String,
    pub title: String,
    pub description: Option<String>,
    pub position: Position2D,
    pub position_3d: Position3D,
    pub layer_position: Option<LayerPosition>,
    pub node_type: NodeType,
    pub parent_id: Option<String>,
    pub children_ids: Vec<String>,
    pub layer: usize,
    pub layer_radius: i128,
    pub layer_angle: i128,
    pub created_at: i64,
    pub updated_at: i64,
    pub custom_color_rgba: Option<[u8; 4]>,
    pub custom_size: Option<u32>,
    pub is_visible: bool,
    pub opacity: u16,
    pub rotation: [i128; 3],
    pub scale: i128,
    pub color: [u16; 4],
    pub size: u32,
    pub selected: bool,
}

/// The identifiers of a list of strings, as sequences of characters.
pub open spec fn texts(list: Seq<String>) -> Seq<Seq<char>> {
    Seq::new(list.len(), |i: int| list[i]@)
}

/// A list of identifiers without every occurrence of `id`.
pub open spec fn without(list: Seq<Seq<char>>, id: Seq<char>) -> Seq<Seq<char>> {
    list.filter(|other: Seq<char>| other != id)
}

impl Node {
    /// The colour that a node of a kind has unless it is given another.
    pub open spec fn default_tint(kind: NodeType) -> Seq<u16> {
        match kind {
            NodeType::Root => seq![1000u16, 800u16, 0u16, 1000u16],
            NodeType::Concept => seq![0u16, 600u16, 1000u16, 1000u16],
            NodeType::Task => seq![1000u16, 400u16, 600u16, 1000u16],
            NodeType::Note => seq![400u16, 1000u16, 400u16, 1000u16],
            NodeType::Evolution => seq![800u16, 400u16, 1000u16, 1000u16],
            NodeType::Star => seq![1000u16, 900u16, 0u16, 1000u16],
            NodeType::Planet => seq![0u16, 700u16, 1000u16, 1000u16],
            NodeType::Satellite => seq![700u16, 700u16, 700u16, 1000u16],
            NodeType::Asteroid => seq![500u16, 300u16, 100u16, 1000u16],
            NodeType::Category => seq![800u16, 800u16, 800u16, 1000u16],
            NodeType::Base => seq![600u16, 600u16, 600u16, 1000u16],
        }
    }

    /// The size that a node of a kind has unless it is given another.
    pub open spec fn default_extent(kind: NodeType) -> int {
        match kind {
            NodeType::Root => 50000,
            NodeType::Concept => 40000,
            NodeType::Task => 30000,
            NodeType::Note => 25000,
            NodeType::Evolution => 35000,
            NodeType::Star => 45000,
            NodeType::Planet => 35000,
            NodeType::Satellite => 25000,
            NodeType::Asteroid => 20000,
            NodeType::Category => 40000,
            NodeType::Base => 30000,
        }
    }

    /// What every newly made node has, however it was made.
    pub open spec fn is_fresh(&self, title: String, node_type: NodeType) -> bool {
        &&& self.id@.len() == 36
        &&& self.title == title
        &&& self.description is None
        &&& self.layer_position is None
        &&& self.node_type == node_type
        &&& self.parent_id is None
        &&& self.children_ids@.len() == 0
        &&& self.updated_at == self.created_at
        &&& self.custom_color_rgba is None
        &&& self.custom_size is None
        &&& self.is_visible
        &&& self.opacity == 1000
        &&& self.rotation@ == seq![0i128, 0i128, 0i128]
        &&& self.scale == 1000
        &&& self.color@ == Self::default_tint(node_type)
        &&& self.size == Self::default_extent(node_type)
        &&& !self.selected
    }

    /// What `new` makes of a title, a kind and a point of the plane.
    pub open spec fn is_new(&self, title: String, node_type: NodeType, position: Position2D) -> bool {
        &&& self.is_fresh(title, node_type)
        &&& self.position == position
        &&& self.layer == node_type.home_layer()
        &&& self.position_3d == (Position3D {
            x: position.x,
            y: position.y,
            z: (node_type.home_layer() * LAYER_HEIGHT_UNIT) as i128,
        })
        &&& self.layer_radius == 100000 + node_type.home_layer() * 50000
        &&& self.layer_angle == 0
    }

    /// What `new_3d` makes of a title, a kind and a place on a ring.
    pub open spec fn is_new_3d(
        &self,
        title: String,
        node_type: NodeType,
        layer: usize,
        radius: i128,
        angle: i128,
    ) -> bool {
        &&& self.is_fresh(title, node_type)
        &&& self.layer == layer
        &&& self.layer_radius == radius
        &&& self.layer_angle == angle
        &&& self.position == (Position2D { x: 0, y: 0 })
        &&& self.position_3d == (Position3D {
            x: 0,
            y: LayerPosition::height_of(layer as nat) as i128,
            z: 0,
        })
    }

    /// The node as it is after being put at the place `record` of the cake.
    pub open spec fn settled(before: Node, after: Node, record: LayerPosition) -> bool {
        after == (Node {
            layer: record.layer,
            layer_radius: record.radius,
            layer_angle: record.angle,
            layer_position: Some(record),
            updated_at: after.updated_at,
            ..before
        })
    }

    /// The line under which the node is listed: its pictogram, a space, its title.
    pub open spec fn caption(&self) -> Seq<char> {
        self.node_type.pictogram() + " "@ + self.title@
    }

    /// The size of the node on its tier: a tenth more for every tier above the base.
    pub open spec fn extent_on_layer(&self) -> int {
        self.size * (1000 + self.layer * 100) / 1000
    }

    /// A node at a point of the plane, on the home tier of its kind, under a
    /// fresh random identifier and stamped with the current time.
    pub fn new(title: String, node_type: NodeType, position: Position2D) -> (node: Self)
        ensures
            node.is_new(title, node_type, position),
    {
        let layer: usize = node_type.cake_layer();
        let now: i64 = now_millis();
        let rotation: [i128; 3] = [0, 0, 0];
        Self {
            id: random_uuid(),
            title,
            description: None,
            position,
            position_3d: Position3D::new(position.x, position.y, layer as i128 * LAYER_HEIGHT_UNIT),
            layer_position: None,
            node_type,
            parent_id: None,
            children_ids: Vec::new(),
            layer,
            layer_radius: 100000 + layer as i128 * 50000,
            layer_angle: 0,
            created_at: now,
            updated_at: now,
            custom_color_rgba: None,
            custom_size: None,
            is_visible: true,
            opacity: 1000,
            rotation,
            scale: 1000,
            color: Self::get_default_color(&node_type),
            size: Self::get_default_size(&node_type),
            selected: false,
        }
    }

    /// A node on the ring of tier `layer`, given in polar form. It stands at
    /// the height of its tier above the origin until its caller projects the
    /// polar form.
    pub fn new_3d(title: String, node_type: NodeType, layer: usize, radius: i128, angle: i128) -> (node: Self)
        ensures
            node.is_new_3d(title, node_type, layer, radius, angle),
    {
        let now: i64 = now_millis();
        let rotation: [i128; 3] = [0, 0, 0];
        Self {
            id: random_uuid(),
            title,
            description: None,
            position: Position2D::new(0, 0),
            position_3d: Position3D::new(0, layer as i128 * LAYER_HEIGHT_UNIT, 0),
            layer_position: None,
            node_type,
            parent_id: None,
            children_ids: Vec::new(),
            layer,
            layer_radius: radius,
            layer_angle: angle,
            created_at: now,
            updated_at: now,
            custom_color_rgba: None,
            custom_size: None,
            is_visible: true,
            opacity: 1000,
            rotation,
            scale: 1000,
            color: Self::get_default_color(&node_type),
            size: Self::get_default_size(&node_type),
            selected: false,
        }
    }

    pub fn with_parent(self, parent_id: String) -> (node: Self)
        ensures
            node == (Node { parent_id: Some(parent_id), ..self }),
    {
        let mut node = self;
        node.parent_id = Some(parent_id);
        node
    }

    pub fn with_description(self, description: String) -> (node: Self)
        ensures
            node == (Node { description: Some(description), ..self }),
    {
        let mut node = self;
        node.description = Some(description);
        node
    }

    /// The node on tier `layer`, lifted to the height of that tier.
    pub fn with_layer(self, layer: usize) -> (node: Self)
        ensures
            node == (Node {
                layer,
                position_3d: Position3D {
                    y: LayerPosition::height_of(layer as nat) as i128,
                    ..self.position_3d
                },
                updated_at: node.updated_at,
                ..self
            }),
    {
        let mut node = self;
        node.layer = layer;
        node.position_3d.y = layer as i128 * LAYER_HEIGHT_UNIT;
        node.updated_at = now_millis();
        node
    }

    pub fn set_description(&mut self, description: String)
        ensures
            *final(self) == (Node {
                description: Some(description),
                updated_at: final(self).updated_at,
                ..*old(self)
            }),
    {
        self.description = Some(description);
        self.updated_at = now_millis();
    }

    /// Whether `id` is among the strings of `list`.
    fn lists(list: &Vec<String>, id: &String) -> (found: bool)
        ensures
            found == texts(list@).contains(id@),
    {
        let mut i: usize = 0;
        while i < list.len()
            invariant
                i <= list@.len(),
                forall|j: int| 0 <= j < i ==> texts(list@)[j] != id@,
            decreases list@.len() - i,
        {
            if list[i] == *id {
                assert(texts(list@)[i as int] == id@);
                return true;
            }
            i += 1;
        }
        false
    }

    /// Adds `child_id` to the children, unless it is among them already.
    pub fn add_child(&mut self, child_id: String)
        ensures
            texts(old(self).children_ids@).contains(child_id@) ==> *final(self) == *old(self),
            !texts(old(self).children_ids@).contains(child_id@) ==> {
                &&& final(self).children_ids@ == old(self).children_ids@.push(child_id)
                &&& *final(self) == (Node {
                    children_ids: final(self).children_ids,
                    updated_at: final(self).updated_at,
                    ..*old(self)
                })
            },
    {
        if !Self::lists(&self.children_ids, &child_id) {
            self.children_ids.push(child_id);
            self.updated_at = now_millis();
        }
    }

    /// Takes every occurrence of `child_id` out of the children; the others
    /// keep their order.
    pub fn remove_child(&mut self, child_id: &str)
        ensures
            texts(final(self).children_ids@) == without(texts(old(self).children_ids@), child_id@),
            *final(self) == (Node {
                children_ids: final(self).children_ids,
                updated_at: final(self).updated_at,
                ..*old(self)
            }),
    {
        let gone = child_id.to_owned();
        let ghost all = texts(self.children_ids@);
        let mut kept: Vec<String> = Vec::new();
        let mut i: usize = 0;
        proof {
            reveal(Seq::filter);
        }
        while i < self.children_ids.len()
            invariant
                i <= self.children_ids@.len(),
                gone@ == child_id@,
                all == texts(self.children_ids@),
                texts(kept@) == without(all.take(i as int), child_id@),
            decreases self.children_ids@.len() - i,
        {
            proof {
                let next = all.take(i as int + 1);
                assert(next.drop_last() =~= all.take(i as int));
                reveal(Seq::filter);
            }
            if self.children_ids[i] != gone {
                kept.push(self.children_ids[i].clone());
            }
            i += 1;
        }
        assert(all.take(i as int) =~= all);
        self.children_ids = kept;
        self.updated_at = now_millis();
    }

    /// Moves the node on its ring.
    pub fn update_cake_position(&mut self, radius: i128, angle: i128)
        ensures
            *final(self) == (Node {
                layer_radius: radius,
                layer_angle: angle,
                updated_at: final(self).updated_at,
                ..*old(self)
            }),
    {
        self.layer_radius = radius;
        self.layer_angle = angle;
        self.updated_at = now_millis();
    }

    fn get_default_color(node_type: &NodeType) -> (tint: [u16; 4])
        ensures
            tint@ == Self::default_tint(*node_type),
    {
        let tint: [u16; 4] = match node_type {
            NodeType::Root => [1000, 800, 0, 1000],
            NodeType::Concept => [0, 600, 1000, 1000],
            NodeType::Task => [1000, 400, 600, 1000],
            NodeType::Note => [400, 1000, 400, 1000],
            NodeType::Evolution => [800, 400, 1000, 1000],
            NodeType::Star => [1000, 900, 0, 1000],
            NodeType::Planet => [0, 700, 1000, 1000],
            NodeType::Satellite => [700, 700, 700, 1000],
            NodeType::Asteroid => [500, 300, 100, 1000],
            NodeType::Category => [800, 800, 800, 1000],
            NodeType::Base => [600, 600, 600, 1000],
        };
        tint
    }

    fn get_default_size(node_type: &NodeType) -> (size: u32)
        ensures
            size == Self::default_extent(*node_type),
    {
        match node_type {
            NodeType::Root => 50000,
            NodeType::Concept => 40000,
            NodeType::Task => 30000,
            NodeType::Note => 25000,
            NodeType::Evolution => 35000,
            NodeType::Star => 45000,
            NodeType::Planet => 35000,
            NodeType::Satellite => 25000,
            NodeType::Asteroid => 20000,
            NodeType::Category => 40000,
            NodeType::Base => 30000,
        }
    }

    pub fn get_layer_size(&self) -> (size: i128)
        ensures
            size == self.extent_on_layer(),
    {
        let factor: i128 = 1000 + self.layer as i128 * 100;
        assert(0 <= self.size * factor <= 0xffff_ffff * factor) by (nonlinear_arith)
            requires
                0 <= self.size <= 0xffff_ffff,
                0 <= factor,
        ;
        self.size as i128 * factor / 1000
    }

    pub fn is_selected(&self) -> (selected: bool)
        ensures
            selected == self.selected,
    {
        self.selected
    }

    pub fn set_selected(&mut self, selected: bool)
        ensures
            *final(self) == (Node { selected, ..*old(self) }),
    {
        self.selected = selected;
    }

    pub fn get_emoji(&self) -> (glyph: &'static str)
        ensures
            glyph@ == self.node_type.pictogram(),
    {
        self.node_type.emoji()
    }

    pub fn display_text(&self) -> (text: String)
        ensures
            text@ == self.caption(),
    {
        let mut text = String::from_str(self.get_emoji());
        text.append(" ");
        text.append(self.title.as_str());
        text
    }

    /// Whether the node is of the root kind or has no parent.
    pub fn is_root(&self) -> (root: bool)
        ensures
            root == (self.node_type == NodeType::Root || self.parent_id is None),
    {
        self.node_type == NodeType::Root || self.parent_id.is_none()
    }

    pub fn has_children(&self) -> (any: bool)
        ensures
            any == (self.children_ids@.len() > 0),
    {
        self.children_ids.len() > 0
    }

    pub fn child_count(&self) -> (count: usize)
        ensures
            count == self.children_ids@.len(),
    {
        self.children_ids.len()
    }

    /// Gives the node a colour of its own: red, green, blue and alpha as bytes.
    pub fn set_color(&mut self, rgba: [u8; 4])
        ensures
            *final(self) == (Node {
                custom_color_rgba: Some(rgba),
                updated_at: final(self).updated_at,
                ..*old(self)
            }),
    {
        self.custom_color_rgba = Some(rgba);
        self.updated_at = now_millis();
    }

    pub fn set_size(&mut self, size: u32)
        ensures
            *final(self) == (Node {
                custom_size: Some(size),
                updated_at: final(self).updated_at,
                ..*old(self)
            }),
    {
        self.custom_size = Some(size);
        self.updated_at = now_millis();
    }

    pub fn get_color(&self) -> (rgba: Option<[u8; 4]>)
        ensures
            rgba == self.custom_color_rgba,
    {
        self.custom_color_rgba
    }

    /// Puts the node at a point in space; its point in the plane is that
    /// point seen from above.
    pub fn set_position_3d(&mut self, position: Position3D)
        ensures
            *final(self) == (Node {
                position_3d: position,
                position: Position2D { x: position.x, y: position.z },
                updated_at: final(self).updated_at,
                ..*old(self)
            }),
    {
        self.position_3d = position;
        self.position = Position2D::new(position.x, position.z);
        self.updated_at = now_millis();
    }

    /// Puts the node on tier `layer` at a radius and an angle, and records
    /// the place in `layer_position`, with the angle as its own anchor.
    pub fn set_layer_position(&mut self, layer: usize, radius: i128, angle: i128)
        ensures
            Self::settled(
                *old(self),
                *final(self),
                LayerPosition {
                    layer,
                    radius,
                    angle,
                    anchor: angle,
                    height_offset: LayerPosition::height_of(layer as nat) as i128,
                },
            ),
    {
        self.set_layer_record(LayerPosition::new(layer, radius, angle));
    }

    /// Puts the node at the place `record` of the cake.
    pub fn set_layer_record(&mut self, record: LayerPosition)
        ensures
            Self::settled(*old(self), *final(self), record),
    {
        self.layer = record.layer;
        self.layer_radius = record.radius;
        self.layer_angle = record.angle;
        self.layer_position = Some(record);
        self.updated_at = now_millis();
    }

    pub fn is_in_layer(&self, layer: usize) -> (yes: bool)
        ensures
            yes == (self.layer == layer),
    {
        self.layer == layer
    }

    /// The tint of the tier that the node was placed on; white while it has
    /// not been placed.
    pub fn get_layer_color(&self) -> (tint: [u16; 4])
        ensures
            tint@ == match self.layer_position {
                Some(place) => LayerPosition::tint_of(place.layer as nat),
                None => seq![1000u16, 1000u16, 1000u16, 1000u16],
            },
    {
        match &self.layer_position {
            Some(place) => place.layer_color(),
            None => {
                let white: [u16; 4] = [1000, 1000, 1000, 1000];
                white
            },
        }
    }

    /// Turns the node: the three angles are about the x, y and z axes.
    pub fn set_rotation(&mut self, x: i128, y: i128, z: i128)
        ensures
            final(self).rotation@ == seq![x, y, z],
            *final(self) == (Node {
                rotation: final(self).rotation,
                updated_at: final(self).updated_at,
                ..*old(self)
            }),
    {
        let rotation: [i128; 3] = [x, y, z];
        self.rotation = rotation;
        self.updated_at = now_millis();
    }

    pub fn set_scale(&mut self, scale: i128)
        ensures
            *final(self) == (Node { scale, updated_at: final(self).updated_at, ..*old(self) }),
    {
        self.scale = scale;
        self.updated_at = now_millis();
    }

    /// Sets the opacity, held between nothing and one.
    pub fn set_opacity(&mut self, opacity: i128)
        ensures
            final(self).opacity == if opacity < 0 {
                0
            } else if opacity > 1000 {
                1000
            } else {
                opacity
            },
            *final(self) == (Node {
                opacity: final(self).opacity,
                updated_at: final(self).updated_at,
                ..*old(self)
            }),
    {
        self.opacity = if opacity < 0 {
            0
        } else if opacity > 1000 {
            1000
        } else {
            opacity as u16
        };
        self.updated_at = now_millis();
    }

    pub fn set_visible(&mut self, visible: bool)
        ensures
            *final(self) == (Node {
                is_visible: visible,
                updated_at: final(self).updated_at,
                ..*old(self)
            }),
    {
        self.is_visible = visible;
        self.updated_at = now_millis();
    }
}

} // verus!
