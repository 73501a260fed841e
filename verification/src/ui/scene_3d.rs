//! The layer cake: its tiers, and the place of every node that stands on it.

use vstd::prelude::*;
use crate::celestial::graph::Graph;
use crate::celestial::node::Node;
use crate::celestial::node_type::NodeType;
use crate::celestial::position::{LayerPosition, Position3D, LAYER_HEIGHT_UNIT};
use crate::outside::{strip_suffix, uniform_between};
use crate::registry::Registry;
use crate::ui::laws::{arrangement_is_counted, counted};
use crate::ui::cake::{
    added, added_tier, anchor_of, arranged, child_tier, children_before, children_visited, deepest, empty_cake,
    evolution_suffix, evolution_tier, evolutions_placed, facts_of, free_tier, is_child_of,
    is_known, is_orphan, landing, lifted, loosened, moved, occupancy_at, origin_title, orphans_before, orphans_placed, place,
    place_new, power, roots_before, roots_placed, seeded, stretched, tier_radius, titled,
    walked, within, Cake, NodeFacts, Slot, Walk, FULL_TURN,
};

verus! {

/// The least distance of the camera from the cake, in thousandths.
pub const LEAST_CAMERA_DISTANCE: i128 = 400000;

/// The play of the angle on a ring unless another is asked for: fifteen
/// degrees to either side, in thousandths of a degree.
pub const ANGLE_PLAY: u32 = 15000;

/// The play of the radius unless another is asked for: a fifth of the ring's
/// radius to either side, in thousandths.
pub const RADIUS_PLAY: u16 = 200;

/// One tier of the cake: a ring at a height, with room for `max_nodes` nodes,
/// of which `node_count` are taken. Height and radius are in thousandths of a
/// unit, the colour channels in thousandths.
#[derive(Clone, Copy, Debug)]
pub struct Layer {
    pub level: usize,
    pub height: i128,
    pub radius: i128,
    pub node_count: usize,
    pub max_nodes: usize,
    pub color: [u16; 4],
}

/// From the sixth tier above the lowest on, four fifths to the power of the
/// level are less than three tenths.
pub proof fn decay_reaches_floor(level: nat)
    requires
        level >= 6,
    ensures
        10 * power(4, level) <= 3 * power(5, level),
        power(5, level) > 0,
        power(4, level) > 0,
    decreases level,
{
    if level == 6 {
        reveal_with_fuel(power, 7);
    } else {
        decay_reaches_floor((level - 1) as nat);
    }
}

/// From the sixth tier above the lowest on, the ring has its least radius.
pub proof fn radius_at_floor(base: nat, level: nat)
    requires
        level >= 6,
    ensures
        tier_radius(base, level) == base * 3 / 10,
{
    decay_reaches_floor(level);
    let fours = power(4, level) as int;
    let fives = power(5, level) as int;
    let b = base as int;
    let x = b * fours / fives;
    assert(b * fours >= 0) by (nonlinear_arith)
        requires
            b >= 0,
            fours > 0,
    ;
    assert(x * fives <= b * fours && x >= 0) by (nonlinear_arith)
        requires
            x == b * fours / fives,
            fives > 0,
            b * fours >= 0,
    ;
    assert(10 * x <= 3 * b) by (nonlinear_arith)
        requires
            x * fives <= b * fours,
            10 * fours <= 3 * fives,
            fives > 0,
            b >= 0,
            x >= 0,
    ;
}

/// The radii of the six lowest rings.
pub proof fn radius_of_low_tiers(base: nat)
    ensures
        tier_radius(base, 0) == base,
        tier_radius(base, 1) == base * 4 / 5,
        tier_radius(base, 2) == base * 16 / 25,
        tier_radius(base, 3) == base * 64 / 125,
        tier_radius(base, 4) == base * 256 / 625,
        tier_radius(base, 5) == base * 1024 / 3125,
{
    reveal_with_fuel(power, 6);
    assert(power(4, 0) == 1 && power(5, 0) == 1);
}

impl Layer {
    /// An empty tier at `level` of a cake whose lowest ring has the radius
    /// `base_radius`.
    pub open spec fn is_new(&self, level: usize, base_radius: u64, max_nodes: usize) -> bool {
        &&& self.level == level
        &&& self.height == LayerPosition::height_of(level as nat)
        &&& self.radius == tier_radius(base_radius as nat, level as nat)
        &&& self.node_count == 0
        &&& self.max_nodes == max_nodes
        &&& self.color@ == LayerPosition::tint_of(level as nat)
    }

    pub fn new(level: usize, base_radius: u64, max_nodes: usize) -> (layer: Self)
        ensures
            layer.is_new(level, base_radius, max_nodes),
    {
        let base: i128 = base_radius as i128;
        let radius: i128 = match level {
            0 => base,
            1 => base * 4 / 5,
            2 => base * 16 / 25,
            3 => base * 64 / 125,
            4 => base * 256 / 625,
            5 => base * 1024 / 3125,
            _ => base * 3 / 10,
        };
        proof {
            if level >= 6 {
                radius_at_floor(base_radius as nat, level as nat);
            } else {
                radius_of_low_tiers(base_radius as nat);
            }
        }
        let color: [u16; 4] = match level {
            0 => [1000, 900, 700, 1000],
            1 => [800, 800, 1000, 1000],
            2 => [1000, 800, 800, 1000],
            3 => [800, 1000, 800, 1000],
            _ => [900, 900, 900, 1000],
        };
        Self {
            level,
            height: level as i128 * LAYER_HEIGHT_UNIT,
            radius,
            node_count: 0,
            max_nodes,
            color,
        }
    }

    pub fn has_space(&self) -> (room: bool)
        ensures
            room == (self.node_count < self.max_nodes),
    {
        self.node_count < self.max_nodes
    }

    /// The anchor angle of the next free place on the ring.
    pub fn get_next_angle(&self) -> (angle: i128)
        ensures
            angle == anchor_of(self.max_nodes as nat, self.node_count as nat),
    {
        anchor_angle(self.max_nodes, self.node_count)
    }
}

/// The anchor angle of a place on a ring.
pub fn anchor_angle(capacity: usize, position: usize) -> (angle: i128)
    ensures
        angle == anchor_of(capacity as nat, position as nat),
        0 <= angle <= position * FULL_TURN,
{
    if capacity > 0 {
        position as i128 * FULL_TURN / (capacity as i128)
    } else {
        0
    }
}

/// No ring is wider than the lowest.
pub proof fn radius_is_bounded(base: nat, level: nat)
    ensures
        tier_radius(base, level) <= base,
{
    if level >= 6 {
        radius_at_floor(base, level);
    } else {
        radius_of_low_tiers(base);
    }
}

/// The layer cake.
///
/// The tiers are numbered from the lowest, which is the widest. A node that
/// stands on the cake has a record of its place under its identifier. The
/// angle of a place is its anchor angle moved by a random offset within the
/// play of the angle, and its radius is that of the ring, stretched or shrunk
/// by a random offset within the play of the radius. A cake without play
/// places every node exactly.
pub struct Scene3D {
    layers: Vec<Layer>,
    max_layers: usize,
    base_radius: u64,
    angle_play: u32,
    radius_play: u16,
    node_positions: Registry<LayerPosition>,
}

/// The rooms of the tiers as numbers without bound.
pub open spec fn rooms_of(capacities: Seq<usize>) -> Seq<nat> {
    Seq::new(capacities.len(), |t: int| capacities[t] as nat)
}

/// What a placement leaves of a graph: the identifiers and the links are
/// those of `before`, and so are the nodes, but that the node `id`, where the
/// graph has it, was put at `record`.
pub open spec fn node_settled(before: &Graph, after: &Graph, id: Seq<char>, record: LayerPosition) -> bool {
    &&& after.ids() == before.ids()
    &&& after.links() == before.links()
    &&& before.has(id) ==> {
        &&& after.node_seq() == before.node_seq().update(before.slot(id), after.node(id))
        &&& Node::settled(before.node(id), after.node(id), record)
    }
    &&& !before.has(id) ==> after.node_seq() == before.node_seq()
}

/// A graph that a failed placement left as it was.
pub open spec fn untouched(before: &Graph, after: &Graph) -> bool {
    &&& after.ids() == before.ids()
    &&& after.links() == before.links()
    &&& after.node_seq() == before.node_seq()
}

impl Scene3D {
    /// The tiers, from the lowest.
    pub closed spec fn tiers(&self) -> Seq<Layer> {
        self.layers@
    }

    /// The radius of the lowest ring, in thousandths.
    pub closed spec fn base(&self) -> nat {
        self.base_radius as nat
    }

    /// The play of the angle, in thousandths of a degree.
    pub closed spec fn play_of_angle(&self) -> int {
        self.angle_play as int
    }

    /// The play of the radius, in thousandths of the ring's radius.
    pub closed spec fn play_of_radius(&self) -> int {
        self.radius_play as int
    }

    /// The identifiers of the nodes that stand on the cake, in the order in
    /// which they first came to stand on it.
    pub closed spec fn placed(&self) -> Seq<Seq<char>> {
        self.node_positions.ids()
    }

    /// The record of every node that stands on the cake.
    pub closed spec fn records(&self) -> Map<Seq<char>, LayerPosition> {
        self.node_positions.map()
    }

    /// The tables are in order.
    pub closed spec fn sound(&self) -> bool {
        &&& self.node_positions.wf()
        &&& self.max_layers == self.layers@.len()
    }

    /// The room of each tier.
    pub open spec fn capacities(&self) -> Seq<nat> {
        Seq::new(self.tiers().len(), |t: int| self.tiers()[t].max_nodes as nat)
    }

    /// The number of nodes on each tier.
    pub open spec fn occupancy(&self) -> Seq<nat> {
        Seq::new(self.tiers().len(), |t: int| self.tiers()[t].node_count as nat)
    }

    /// The slot of a record.
    pub open spec fn slot_of(record: LayerPosition) -> Slot {
        Slot { layer: record.layer as nat, anchor: record.anchor as int }
    }

    /// What of the cake no chance touches.
    pub open spec fn cake(&self) -> Cake {
        Cake {
            occupancy: self.occupancy(),
            slots: Map::new(
                |id: Seq<char>| self.records().contains_key(id),
                |id: Seq<char>| Self::slot_of(self.records()[id]),
            ),
        }
    }

    /// Tier `t` is at its height, has the radius of its level, and holds no
    /// more nodes than it has room for.
    pub open spec fn tier_ok(&self, t: int) -> bool {
        let tier = self.tiers()[t];
        &&& tier.level == t
        &&& tier.height == LayerPosition::height_of(t as nat)
        &&& tier.radius == tier_radius(self.base(), t as nat)
        &&& tier.color@ == LayerPosition::tint_of(t as nat)
        &&& tier.node_count <= tier.max_nodes
    }

    /// A record is of a tier of the cake, at the height of that tier, and
    /// its angle and radius are within the plays.
    pub open spec fn record_ok(&self, record: LayerPosition) -> bool {
        &&& record.layer < self.tiers().len()
        &&& record.height_offset == LayerPosition::height_of(record.layer as nat)
        &&& 0 <= record.anchor
        &&& within(record.angle - record.anchor, self.play_of_angle())
        &&& loosened(
            record.radius as int,
            tier_radius(self.base(), record.layer as nat) as int,
            self.play_of_radius(),
        )
    }

    /// The cake is in order: every tier is, every record is, and the play of
    /// the radius is at most the radius itself.
    pub open spec fn wf(&self) -> bool {
        &&& self.sound()
        &&& 0 <= self.play_of_angle()
        &&& 0 <= self.play_of_radius() <= 1000
        &&& forall|t: int| 0 <= t < self.tiers().len() ==> self.tier_ok(t)
        &&& forall|id: Seq<char>| #[trigger]
            self.records().contains_key(id) ==> self.record_ok(self.records()[id])
    }

    /// The cake is `before` but for where its nodes stand: the tiers kept
    /// their rooms and rings, and the plays are the same.
    pub open spec fn same_build(&self, before: &Scene3D) -> bool {
        &&& self.tiers().len() == before.tiers().len()
        &&& self.capacities() == before.capacities()
        &&& self.base() == before.base()
        &&& self.play_of_angle() == before.play_of_angle()
        &&& self.play_of_radius() == before.play_of_radius()
    }

    /// The record that a node gets on `tier` at `position`, for two offsets.
    pub open spec fn record_for(&self, tier: nat, position: nat, angle_offset: int, radius_offset: int) -> LayerPosition {
        let anchor = anchor_of(self.capacities()[tier as int], position);
        LayerPosition {
            layer: tier as usize,
            radius: stretched(tier_radius(self.base(), tier) as int, radius_offset) as i128,
            angle: (anchor + angle_offset) as i128,
            anchor: anchor as i128,
            height_offset: LayerPosition::height_of(tier) as i128,
        }
    }

    /// What a placement leaves of the records. `occupancy` is what the tiers
    /// held when `id` was to be put on `tier` at `position`. Where a tier had
    /// room, `id` has a record at the slot that `place` gives, and no other
    /// record has changed. Where none had, the records are those of `before`.
    pub open spec fn wrote(
        &self,
        before: &Scene3D,
        occupancy: Seq<nat>,
        id: Seq<char>,
        tier: nat,
        position: nat,
    ) -> bool {
        match free_tier(before.capacities(), occupancy, tier) {
            Some(t) => {
                &&& self.records() == before.records().insert(id, self.records()[id])
                &&& self.records()[id].layer == t
                &&& self.records()[id].anchor == anchor_of(
                    before.capacities()[t as int],
                    landing(tier, t, position),
                )
                &&& if before.records().contains_key(id) {
                    self.placed() == before.placed()
                } else {
                    self.placed() == before.placed().push(id)
                }
            },
            None => self.records() == before.records() && self.placed() == before.placed(),
        }
    }

    /// What a placement leaves of the graph: where a tier had room, the node
    /// `id` was put at its record; where none had, nothing changed.
    pub open spec fn told(
        &self,
        before: &Scene3D,
        occupancy: Seq<nat>,
        tier: nat,
        graph_before: &Graph,
        graph: &Graph,
        id: Seq<char>,
    ) -> bool {
        match free_tier(before.capacities(), occupancy, tier) {
            Some(_) => node_settled(graph_before, graph, id, self.records()[id]),
            None => untouched(graph_before, graph),
        }
    }

    /// No tier holds more nodes than it has room for.
    pub proof fn occupancy_within_capacity(&self, tier: int)
        requires
            self.wf(),
            0 <= tier < self.tiers().len(),
        ensures
            self.occupancy()[tier] <= self.capacities()[tier],
            self.tiers()[tier].node_count <= self.tiers()[tier].max_nodes,
    {
        assert(self.tier_ok(tier));
    }

    /// A cake of five tiers with room for eight, six, four, three and two
    /// nodes, a lowest ring of radius 200, and the usual plays.
    pub fn new() -> (scene: Self)
        ensures
            scene.wf(),
            scene.capacities() == seq![8nat, 6nat, 4nat, 3nat, 2nat],
            scene.base() == 200000,
            scene.play_of_angle() == ANGLE_PLAY,
            scene.play_of_radius() == RADIUS_PLAY,
            scene.cake() == empty_cake(5),
            scene.placed().len() == 0,
    {
        let mut capacities: Vec<usize> = Vec::new();
        capacities.push(8);
        capacities.push(6);
        capacities.push(4);
        capacities.push(3);
        capacities.push(2);
        let scene = Self::with_layers(&capacities, 200000, ANGLE_PLAY, RADIUS_PLAY);
        scene
    }

    /// A cake with one tier for each entry of `capacities`, from the lowest,
    /// a lowest ring of radius `base_radius` and the given plays. A play of
    /// the radius beyond the radius itself is held at it.
    pub fn with_layers(capacities: &Vec<usize>, base_radius: u64, angle_play: u32, radius_play: u16) -> (scene: Self)
        ensures
            scene.wf(),
            scene.capacities() == rooms_of(capacities@),
            scene.base() == base_radius,
            scene.play_of_angle() == angle_play,
            scene.play_of_radius() == if radius_play > 1000 {
                1000
            } else {
                radius_play as int
            },
            scene.cake() == empty_cake(capacities@.len()),
            scene.placed().len() == 0,
    {
        let mut layers: Vec<Layer> = Vec::new();
        let mut level: usize = 0;
        while level < capacities.len()
            invariant
                level <= capacities@.len(),
                layers@.len() == level,
                forall|t: int| 0 <= t < level ==> (#[trigger] layers@[t]).is_new(t as usize, base_radius, capacities@[t]),
            decreases capacities@.len() - level,
        {
            layers.push(Layer::new(level, base_radius, capacities[level]));
            level += 1;
        }
        let max_layers: usize = layers.len();
        let scene = Self {
            layers,
            max_layers,
            base_radius,
            angle_play,
            radius_play: if radius_play > 1000 {
                1000
            } else {
                radius_play
            },
            node_positions: Registry::new(),
        };
        proof {
            assert(scene.cake().occupancy =~= empty_cake(capacities@.len()).occupancy);
            assert(scene.cake().slots =~= empty_cake(capacities@.len()).slots);
            assert forall|t: int| 0 <= t < scene.tiers().len() implies scene.tier_ok(t) by {}
        }
        scene
    }

    /// A random offset within a play.
    fn sample(amplitude: i64) -> (offset: i64)
        requires
            0 <= amplitude,
        ensures
            within(offset as int, amplitude as int),
    {
        if amplitude == 0 {
            0
        } else {
            uniform_between(-amplitude, amplitude)
        }
    }

    /// Puts `node_id` on `tier` at `position`, with the two offsets as given:
    /// writes the record, counts the node on the tier, and tells the node of
    /// the graph, if there is one, where it stands.
    fn settle(
        &mut self,
        graph: &mut Graph,
        node_id: &str,
        tier: usize,
        position: usize,
        angle_offset: i64,
        radius_offset: i64,
    )
        requires
            old(self).wf(),
            old(graph).wf(),
            tier < old(self).tiers().len(),
            old(self).tiers()[tier as int].node_count < old(self).tiers()[tier as int].max_nodes,
            within(angle_offset as int, old(self).play_of_angle()),
            within(radius_offset as int, old(self).play_of_radius()),
        ensures
            final(self).wf(),
            final(graph).wf(),
            final(self).same_build(old(self)),
            final(self).occupancy() == old(self).occupancy().update(
                tier as int,
                old(self).occupancy()[tier as int] + 1,
            ),
            final(self).records() == old(self).records().insert(
                node_id@,
                old(self).record_for(tier as nat, position as nat, angle_offset as int, radius_offset as int),
            ),
            old(self).records().contains_key(node_id@) ==> final(self).placed() == old(self).placed(),
            !old(self).records().contains_key(node_id@) ==> final(self).placed() == old(self).placed().push(
                node_id@,
            ),
            node_settled(
                old(graph),
                final(graph),
                node_id@,
                old(self).record_for(tier as nat, position as nat, angle_offset as int, radius_offset as int),
            ),
    {
        let layer: Layer = self.layers[tier];
        assert(self.tier_ok(tier as int));
        let anchor: i128 = anchor_angle(layer.max_nodes, position);
        proof {
            radius_is_bounded(self.base(), tier as nat);
        }
        let factor: i128 = 1000 + radius_offset as i128;
        assert(0 <= layer.radius * factor <= 0xffff_ffff_ffff_ffff * 2000) by (nonlinear_arith)
            requires
                0 <= layer.radius <= 0xffff_ffff_ffff_ffff,
                0 <= factor <= 2000,
        ;
        let radius: i128 = layer.radius * factor / 1000;
        let angle: i128 = anchor + angle_offset as i128;
        let record = LayerPosition { layer: tier, radius, angle, anchor, height_offset: layer.height };
        let ghost graph_before = *graph;
        match graph.get_node_mut(node_id) {
            Some(node) => {
                node.set_layer_record(record);
            },
            None => {},
        }
        proof {
            if graph_before.has(node_id@) {
                graph_before.identifiers_are_distinct();
            }
        }
        let ghost before = *self;
        self.node_positions.insert(node_id.to_owned(), record);
        let mut counted: Layer = layer;
        counted.node_count = layer.node_count + 1;
        self.layers.set(tier, counted);
        proof {
            assert(self.capacities() =~= before.capacities());
            assert(self.occupancy() =~= before.occupancy().update(
                tier as int,
                before.occupancy()[tier as int] + 1,
            ));
            assert forall|t: int| 0 <= t < self.tiers().len() implies self.tier_ok(t) by {
                assert(before.tier_ok(t));
            }
            assert(within(radius_offset as int, self.play_of_radius()) && record.radius as int == stretched(
                tier_radius(self.base(), tier as nat) as int,
                radius_offset as int,
            ));
            assert forall|id: Seq<char>| #[trigger]
                self.records().contains_key(id) implies self.record_ok(self.records()[id]) by {
                if id != node_id@ {
                    assert(before.record_ok(before.records()[id]));
                }
            }
        }
    }

    /// Puts `node_id` on `layer_level` at `position_in_layer`, or, where that
    /// tier is full, at the start of the first tier above it that has room.
    /// The node stays off the cake when no tier from `layer_level` upwards
    /// has room.
    fn place_node_in_layer(&mut self, graph: &mut Graph, node_id: &str, layer_level: usize, position_in_layer: usize)
        requires
            old(self).wf(),
            old(graph).wf(),
        ensures
            final(self).wf(),
            final(graph).wf(),
            final(self).same_build(old(self)),
            final(self).cake() == place(
                old(self).capacities(),
                old(self).cake(),
                node_id@,
                layer_level as nat,
                position_in_layer as nat,
            ),
            final(self).wrote(
                old(self),
                old(self).occupancy(),
                node_id@,
                layer_level as nat,
                position_in_layer as nat,
            ),
            final(self).told(
                old(self),
                old(self).occupancy(),
                layer_level as nat,
                old(graph),
                final(graph),
                node_id@,
            ),
    {
        let mut tier: usize = layer_level;
        let mut position: usize = position_in_layer;
        while tier < self.layers.len() && !self.layers[tier].has_space()
            invariant
                self.tiers() == old(self).tiers(),
                layer_level <= tier,
                free_tier(self.capacities(), self.occupancy(), layer_level as nat) == free_tier(
                    self.capacities(),
                    self.occupancy(),
                    tier as nat,
                ),
                position == if tier == layer_level {
                    position_in_layer
                } else {
                    0
                },
            decreases self.tiers().len() - tier,
        {
            tier += 1;
            position = 0;
        }
        if tier >= self.layers.len() {
            return ;
        }
        let angle_offset: i64 = Self::sample(self.angle_play as i64);
        let radius_offset: i64 = Self::sample(self.radius_play as i64);
        let ghost before = *self;
        self.settle(graph, node_id, tier, position, angle_offset, radius_offset);
        proof {
            let record = before.record_for(tier as nat, position as nat, angle_offset as int, radius_offset as int);
            assert(self.cake().slots =~= before.cake().slots.insert(node_id@, Self::slot_of(record)));
        }
    }
    /// Adds one node to the cake without moving any other: on the tier above
    /// its parent's, but none beyond the deepest, where a parent is named and
    /// stands on the cake; else on the lowest tier. It goes behind the nodes
    /// of its tier, or to the start of the first tier above with room.
    pub fn add_node_to_cake(&mut self, graph: &mut Graph, node_id: &str, parent_id: Option<&str>)
        requires
            old(self).wf(),
            old(graph).wf(),
        ensures
            final(self).wf(),
            final(graph).wf(),
            final(self).same_build(old(self)),
            final(self).cake() == added(old(self).capacities(), old(self).cake(), node_id@, name_of(parent_id)),
            ({
                let tier = added_tier(old(self).tiers().len(), old(self).cake(), name_of(parent_id));
                let position = occupancy_at(old(self).cake(), tier);
                &&& final(self).wrote(old(self), old(self).occupancy(), node_id@, tier, position)
                &&& final(self).told(old(self), old(self).occupancy(), tier, old(graph), final(graph), node_id@)
            }),
    {
        let target_layer: usize = match parent_id {
            Some(parent) => match self.node_positions.get(parent) {
                Some(record) => {
                    assert(self.records().contains_key(parent@));
                    self.below(record.layer)
                },
                None => 0,
            },
            None => 0,
        };
        let position: usize = self.count_on(target_layer);
        self.place_node_in_layer(graph, node_id, target_layer, position);
    }

    /// The tier for the children of a node on `tier`.
    fn below(&self, tier: usize) -> (next: usize)
        requires
            self.sound(),
            tier < usize::MAX,
        ensures
            next == child_tier(self.tiers().len(), tier as nat),
    {
        let last: usize = if self.max_layers > 0 {
            self.max_layers - 1
        } else {
            0
        };
        if tier + 1 < last {
            tier + 1
        } else {
            last
        }
    }

    /// How many nodes stand on `tier`.
    fn count_on(&self, tier: usize) -> (count: usize)
        ensures
            count == occupancy_at(self.cake(), tier as nat),
    {
        if tier < self.layers.len() {
            self.layers[tier].node_count
        } else {
            0
        }
    }

    /// Moves a node to `target_layer`: the tier that it stood on gives up a
    /// place, and the node is put behind the nodes of `target_layer`, or at
    /// the start of the first tier above with room. Where no tier from
    /// `target_layer` upwards has room the node keeps its record, though its
    /// old tier has given up the place. Nothing happens for a `target_layer`
    /// that the cake lacks.
    pub fn move_node_to_layer(&mut self, graph: &mut Graph, node_id: &str, target_layer: usize)
        requires
            old(self).wf(),
            old(graph).wf(),
        ensures
            final(self).wf(),
            final(graph).wf(),
            final(self).same_build(old(self)),
            final(self).cake() == moved(old(self).capacities(), old(self).cake(), node_id@, target_layer as nat),
            target_layer >= old(self).tiers().len() ==> {
                &&& final(self).records() == old(self).records()
                &&& final(self).placed() == old(self).placed()
                &&& untouched(old(graph), final(graph))
            },
            target_layer < old(self).tiers().len() ==> {
                let free = lifted(old(self).cake(), node_id@);
                let position = occupancy_at(free, target_layer as nat);
                &&& final(self).wrote(old(self), free.occupancy, node_id@, target_layer as nat, position)
                &&& final(self).told(
                    old(self),
                    free.occupancy,
                    target_layer as nat,
                    old(graph),
                    final(graph),
                    node_id@,
                )
            },
    {
        if target_layer >= self.max_layers {
            return ;
        }
        let ghost before = *self;
        match self.node_positions.get(node_id) {
            Some(record) => {
                let current: usize = record.layer;
                if current < self.layers.len() {
                    let mut tier: Layer = self.layers[current];
                    if tier.node_count > 0 {
                        tier.node_count = tier.node_count - 1;
                    }
                    self.layers.set(current, tier);
                }
            },
            None => {},
        }
        proof {
            assert(self.capacities() =~= before.capacities());
            assert(self.occupancy() =~= lifted(before.cake(), node_id@).occupancy);
            assert forall|t: int| 0 <= t < self.tiers().len() implies self.tier_ok(t) by {
                assert(before.tier_ok(t));
            }
            assert forall|id: Seq<char>| #[trigger]
                self.records().contains_key(id) implies self.record_ok(self.records()[id]) by {}
        }
        let position: usize = self.layers[target_layer].node_count;
        self.place_node_in_layer(graph, node_id, target_layer, position);
    }

    /// The graph `graph` is the graph `start` after the nodes that stand on
    /// the cake were told their places: its identifiers and links are those
    /// of `start`; a node with a record was put at that record and is else
    /// as in `start`; a node without one is as in `start`. Only nodes of the
    /// graph stand on the cake.
    pub open spec fn follows(&self, start: &Graph, graph: &Graph) -> bool {
        &&& graph.ids() == start.ids()
        &&& graph.links() == start.links()
        &&& graph.node_seq().len() == start.node_seq().len()
        &&& forall|i: int| 0 <= i < start.ids().len() ==> #[trigger] self.node_follows(start, graph, i)
        &&& forall|id: Seq<char>| #[trigger] self.records().contains_key(id) ==> start.has(id)
    }

    /// What `follows` says of the node at index `i`.
    pub open spec fn node_follows(&self, start: &Graph, graph: &Graph, i: int) -> bool {
        let id = start.ids()[i];
        if self.records().contains_key(id) {
            Node::settled(start.node_seq()[i], graph.node_seq()[i], self.records()[id])
        } else {
            graph.node_seq()[i] == start.node_seq()[i]
        }
    }

    /// Telling nodes their places changes nothing of what an arrangement reads.
    pub proof fn follows_keeps_facts(&self, start: &Graph, graph: &Graph)
        requires
            start.wf(),
            self.follows(start, graph),
        ensures
            facts_of(graph) == facts_of(start),
    {
        start.identifiers_are_distinct();
        assert forall|i: int| 0 <= i < start.ids().len() implies facts_of(graph)[i] == facts_of(start)[i] by {
            assert(self.node_follows(start, graph, i));
        }
    }

    /// Arranges the whole graph anew: the cake is cleared, then the roots are
    /// placed, then the hierarchy below them breadth first, then the evolved
    /// nodes that the hierarchy left out, then the orphans. A node for which
    /// no tier has room stays off the cake. Afterwards every tier counts
    /// exactly the nodes whose records name it, and every node of the graph
    /// that has a record was told its place.
    pub fn arrange_graph_as_cake(&mut self, graph: &mut Graph)
        requires
            old(self).wf(),
            old(graph).wf(),
        ensures
            final(self).wf(),
            final(graph).wf(),
            final(self).same_build(old(self)),
            final(self).cake() == arranged(old(self).capacities(), facts_of(old(graph))),
            final(self).follows(old(graph), final(graph)),
            facts_of(final(graph)) == facts_of(old(graph)),
            counted(final(self).tiers().len(), final(self).cake()),
    {
        let ghost start = *graph;
        self.reset();
        proof {
            start.identifiers_are_distinct();
            assert forall|i: int| 0 <= i < start.ids().len() implies #[trigger] self.node_follows(&start, graph, i) by {}
        }
        self.arrange_roots(graph, Ghost(start));
        self.arrange_children_hierarchically(graph, Ghost(start));
        self.arrange_evolution_nodes(graph, Ghost(start));
        self.arrange_orphan_nodes(graph, Ghost(start));
        proof {
            self.follows_keeps_facts(&start, graph);
            arrangement_is_counted(self.capacities(), facts_of(&start));
        }
    }

    /// The same as `arrange_graph_as_cake`: what is to be done after nodes
    /// were added to the graph or taken from it.
    pub fn rebalance_cake(&mut self, graph: &mut Graph)
        requires
            old(self).wf(),
            old(graph).wf(),
        ensures
            final(self).wf(),
            final(graph).wf(),
            final(self).same_build(old(self)),
            final(self).cake() == arranged(old(self).capacities(), facts_of(old(graph))),
            final(self).follows(old(graph), final(graph)),
            facts_of(final(graph)) == facts_of(old(graph)),
            counted(final(self).tiers().len(), final(self).cake()),
    {
        self.arrange_graph_as_cake(graph);
    }

    /// Takes every node off the cake.
    fn reset(&mut self)
        requires
            old(self).wf(),
        ensures
            final(self).wf(),
            final(self).same_build(old(self)),
            final(self).cake() == empty_cake(old(self).tiers().len()),
            final(self).records() == Map::<Seq<char>, LayerPosition>::empty(),
            final(self).placed().len() == 0,
    {
        self.node_positions.clear();
        let mut t: usize = 0;
        while t < self.layers.len()
            invariant
                self.sound(),
                self.tiers().len() == old(self).tiers().len(),
                self.capacities() == old(self).capacities(),
                self.base() == old(self).base(),
                self.play_of_angle() == old(self).play_of_angle(),
                self.play_of_radius() == old(self).play_of_radius(),
                self.records() == Map::<Seq<char>, LayerPosition>::empty(),
                self.placed().len() == 0,
                t <= self.tiers().len(),
                forall|u: int|
                    0 <= u < self.tiers().len() ==> #[trigger] self.tiers()[u] == if u < t {
                        Layer { node_count: 0, ..old(self).tiers()[u] }
                    } else {
                        old(self).tiers()[u]
                    },
            decreases self.tiers().len() - t,
        {
            let mut layer: Layer = self.layers[t];
            layer.node_count = 0;
            self.layers.set(t, layer);
            t += 1;
        }
        proof {
            assert(self.cake().occupancy =~= empty_cake(self.tiers().len()).occupancy);
            assert(self.cake().slots =~= empty_cake(self.tiers().len()).slots);
            assert forall|u: int| 0 <= u < self.tiers().len() implies self.tier_ok(u) by {
                assert(old(self).tier_ok(u));
            }
        }
    }

    /// Puts the node at index `i` of the graph on the cake, unless it stands
    /// on it already.
    fn place_unplaced(&mut self, graph: &mut Graph, Ghost(start): Ghost<Graph>, i: usize, tier: usize, position: usize)
        requires
            old(self).wf(),
            old(graph).wf(),
            start.wf(),
            old(self).follows(&start, old(graph)),
            i < start.ids().len(),
        ensures
            final(self).wf(),
            final(graph).wf(),
            final(self).same_build(old(self)),
            final(self).follows(&start, final(graph)),
            final(self).cake() == place_new(
                old(self).capacities(),
                old(self).cake(),
                start.ids()[i as int],
                tier as nat,
                position as nat,
            ),
    {
        let id: String = graph.id_at(i).clone();
        if self.node_positions.contains_key(id.as_str()) {
            return ;
        }
        let ghost before = *self;
        let ghost graph_before = *graph;
        self.place_node_in_layer(graph, id.as_str(), tier, position);
        proof {
            start.identifiers_are_distinct();
            graph_before.identifiers_are_distinct();
            assert(graph_before.has(id@));
            assert forall|j: int| 0 <= j < start.ids().len() implies #[trigger] self.node_follows(&start, graph, j) by {
                assert(before.node_follows(&start, &graph_before, j));
            }
            assert forall|other: Seq<char>| #[trigger] self.records().contains_key(other) implies start.has(other) by {}
        }
    }

    /// Puts the roots on the lowest tier, in the order of the graph.
    fn arrange_roots(&mut self, graph: &mut Graph, Ghost(start): Ghost<Graph>)
        requires
            old(self).wf(),
            old(graph).wf(),
            start.wf(),
            old(self).follows(&start, old(graph)),
            old(self).cake() == empty_cake(old(self).tiers().len()),
        ensures
            final(self).wf(),
            final(graph).wf(),
            final(self).same_build(old(self)),
            final(self).follows(&start, final(graph)),
            final(self).cake() == roots_placed(
                old(self).capacities(),
                facts_of(&start),
                start.ids().len() as int,
            ),
    {
        let ghost facts = facts_of(&start);
        let ghost rooms = self.capacities();
        let count: usize = graph.node_count();
        let mut rank: usize = 0;
        let mut i: usize = 0;
        while i < count
            invariant
                self.wf(),
                graph.wf(),
                start.wf(),
                self.same_build(old(self)),
                self.follows(&start, graph),
                facts == facts_of(&start),
                rooms == old(self).capacities(),
                count == start.ids().len(),
                i <= count,
                rank <= i,
                rank == roots_before(facts, i as int),
                self.cake() == roots_placed(rooms, facts, i as int),
            decreases count - i,
        {
            proof {
                self.follows_keeps_facts(&start, graph);
            }
            if graph.node_at(i).node_type == NodeType::Root {
                self.place_unplaced(graph, Ghost(start), i, 0, rank);
                rank += 1;
            }
            i += 1;
        }
    }

    /// The walk that a queue and a list of marks stand for.
    pub open spec fn walk_of(cake: Cake, queue: Seq<(usize, usize)>, seen: Seq<bool>) -> Walk {
        Walk {
            cake,
            queue: Seq::new(queue.len(), |k: int| (queue[k].0 as int, queue[k].1 as nat)),
            seen: Set::new(|i: int| 0 <= i < seen.len() && seen[i]),
        }
    }

    /// Walks the hierarchy below the roots breadth first. The children of a
    /// node go on the tier above the one asked for the node, but none beyond
    /// the deepest, each at the place of its rank among the children.
    fn arrange_children_hierarchically(&mut self, graph: &mut Graph, Ghost(start): Ghost<Graph>)
        requires
            old(self).wf(),
            old(graph).wf(),
            start.wf(),
            old(self).follows(&start, old(graph)),
        ensures
            final(self).wf(),
            final(graph).wf(),
            final(self).same_build(old(self)),
            final(self).follows(&start, final(graph)),
            final(self).cake() == walked(
                old(self).capacities(),
                facts_of(&start),
                seeded(old(self).cake(), facts_of(&start), start.ids().len() as int),
                start.ids().len(),
            ).cake,
    {
        let ghost facts = facts_of(&start);
        let ghost rooms = self.capacities();
        let ghost first = self.cake();
        let count: usize = graph.node_count();
        let mut seen: Vec<bool> = Vec::new();
        let mut queue: Vec<(usize, usize)> = Vec::new();
        let mut i: usize = 0;
        proof {
            assert(Self::walk_of(first, queue@, seen@).queue =~= seeded(first, facts, 0).queue);
            assert(Self::walk_of(first, queue@, seen@).seen =~= seeded(first, facts, 0).seen);
        }
        while i < count
            invariant
                self.wf(),
                graph.wf(),
                start.wf(),
                self.follows(&start, graph),
                self.cake() == first,
                facts == facts_of(&start),
                count == start.ids().len(),
                i <= count,
                seen@.len() == i,
                queue@.len() == marked(seen@, i as int),
                forall|k: int| 0 <= k < queue@.len() ==> (#[trigger] queue@[k]).0 < count && queue@[k].1 == 0,
                Self::walk_of(first, queue@, seen@) == seeded(first, facts, i as int),
            decreases count - i,
        {
            proof {
                self.follows_keeps_facts(&start, graph);
            }
            let ghost seen_before = seen@;
            let root: bool = graph.node_at(i).node_type == NodeType::Root;
            if root {
                queue.push((i, 0));
            }
            seen.push(root);
            proof {
                marked_push(seen_before, root);
                let walk = seeded(first, facts, i as int);
                let next = Self::walk_of(first, queue@, seen@);
                if root {
                    assert(next.queue =~= walk.queue.push((i as int, 0nat)));
                    assert(next.seen =~= walk.seen.insert(i as int));
                } else {
                    assert(next.seen =~= walk.seen);
                }
            }
            i += 1;
        }
        let ghost seed = seeded(first, facts, count as int);
        let mut head: usize = 0;
        while head < queue.len()
            invariant
                self.wf(),
                graph.wf(),
                start.wf(),
                self.same_build(old(self)),
                self.follows(&start, graph),
                facts == facts_of(&start),
                rooms == old(self).capacities(),
                count == start.ids().len(),
                seed == seeded(first, facts, count as int),
                seen@.len() == count,
                queue@.len() == marked(seen@, count as int),
                head <= queue@.len(),
                forall|k: int|
                    0 <= k < queue@.len() ==> (#[trigger] queue@[k]).0 < count && queue@[k].1 <= deepest(
                        self.tiers().len(),
                    ),
                Self::walk_of(self.cake(), queue@, seen@) == walked(rooms, facts, seed, head as nat),
            decreases count - head,
        {
            proof {
                marked_is_bounded(seen@, count as int);
            }
            let parent: usize = queue[head].0;
            let tier: usize = self.below(queue[head].1);
            let ghost entered = Self::walk_of(self.cake(), queue@, seen@);
            let mut rank: usize = 0;
            let mut child: usize = 0;
            while child < count
                invariant
                    self.wf(),
                    graph.wf(),
                    start.wf(),
                    self.same_build(old(self)),
                    self.follows(&start, graph),
                    facts == facts_of(&start),
                    rooms == old(self).capacities(),
                    count == start.ids().len(),
                    seen@.len() == count,
                    queue@.len() == marked(seen@, count as int),
                    head < queue@.len(),
                    parent < count,
                    tier <= deepest(self.tiers().len()),
                    child <= count,
                    rank <= child,
                    rank == children_before(facts, parent as int, child as int),
                    forall|k: int|
                        0 <= k < queue@.len() ==> (#[trigger] queue@[k]).0 < count && queue@[k].1 <= deepest(
                            self.tiers().len(),
                        ),
                    Self::walk_of(self.cake(), queue@, seen@) == children_visited(
                        rooms,
                        facts,
                        entered,
                        parent as int,
                        tier as nat,
                        child as int,
                    ),
                decreases count - child,
            {
                proof {
                    self.follows_keeps_facts(&start, graph);
                }
                let names: bool = match &graph.node_at(child).parent_id {
                    Some(named) => *named == *graph.id_at(parent),
                    None => false,
                };
                if names {
                    if !seen[child] {
                        let ghost so_far = Self::walk_of(self.cake(), queue@, seen@);
                        let ghost seen_before = seen@;
                        self.place_unplaced(graph, Ghost(start), child, tier, rank);
                        queue.push((child, tier));
                        seen.set(child, true);
                        proof {
                            marked_set(seen_before, child as int, count as int);
                            let next = Self::walk_of(self.cake(), queue@, seen@);
                            assert(next.queue =~= so_far.queue.push((child as int, tier as nat)));
                            assert(next.seen =~= so_far.seen.insert(child as int));
                        }
                    }
                    rank += 1;
                }
                child += 1;
            }
            head += 1;
        }
        proof {
            marked_is_bounded(seen@, count as int);
            walked_is_stable(rooms, facts, seed, head as nat, count as nat);
        }
    }

    /// The tier for the evolved node at index `i`: that of the first node
    /// that bears its title without the mark, where that node stands on the
    /// cake; else the deepest.
    fn tier_of_origin(&self, graph: &Graph, i: usize) -> (tier: usize)
        requires
            self.wf(),
            graph.wf(),
            i < graph.ids().len(),
        ensures
            tier == evolution_tier(self.tiers().len(), self.cake(), facts_of(graph), i as int),
    {
        let ghost facts = facts_of(graph);
        let last: usize = if self.max_layers > 0 {
            self.max_layers - 1
        } else {
            0
        };
        let title: &str = graph.node_at(i).title.as_str();
        let wanted: String = match strip_suffix(title, " (Evolution)") {
            Some(head) => {
                proof {
                    let mark = evolution_suffix();
                    assert(title@.subrange(title@.len() - mark.len(), title@.len() as int) =~= mark);
                }
                head.to_owned()
            },
            None => title.to_owned(),
        };
        let count: usize = graph.node_count();
        let mut j: usize = 0;
        while j < count
            invariant
                self.wf(),
                graph.wf(),
                facts == facts_of(graph),
                count == graph.ids().len(),
                j <= count,
                i < count,
                wanted@ == origin_title(facts[i as int].title),
                last == deepest(self.tiers().len()),
                titled(facts, wanted@, j as int) is None,
            decreases count - j,
        {
            if graph.node_at(j).title == wanted {
                proof {
                    titled_stays(facts, wanted@, j as int + 1, count as int);
                }
                return match self.node_positions.get(graph.id_at(j).as_str()) {
                    Some(record) => record.layer,
                    None => last,
                };
            }
            j += 1;
        }
        last
    }

    /// Puts the evolved nodes that do not stand on the cake behind the nodes
    /// of the tier of the node that each evolved from.
    fn arrange_evolution_nodes(&mut self, graph: &mut Graph, Ghost(start): Ghost<Graph>)
        requires
            old(self).wf(),
            old(graph).wf(),
            start.wf(),
            old(self).follows(&start, old(graph)),
        ensures
            final(self).wf(),
            final(graph).wf(),
            final(self).same_build(old(self)),
            final(self).follows(&start, final(graph)),
            final(self).cake() == evolutions_placed(
                old(self).capacities(),
                facts_of(&start),
                old(self).cake(),
                start.ids().len() as int,
            ),
    {
        let ghost facts = facts_of(&start);
        let ghost rooms = self.capacities();
        let ghost first = self.cake();
        let count: usize = graph.node_count();
        let mut i: usize = 0;
        while i < count
            invariant
                self.wf(),
                graph.wf(),
                start.wf(),
                self.same_build(old(self)),
                self.follows(&start, graph),
                facts == facts_of(&start),
                rooms == old(self).capacities(),
                count == start.ids().len(),
                i <= count,
                self.cake() == evolutions_placed(rooms, facts, first, i as int),
            decreases count - i,
        {
            proof {
                self.follows_keeps_facts(&start, graph);
            }
            if graph.node_at(i).node_type == NodeType::Evolution {
                let tier: usize = self.tier_of_origin(graph, i);
                let position: usize = self.count_on(tier);
                self.place_unplaced(graph, Ghost(start), i, tier, position);
            }
            i += 1;
        }
    }

    /// Puts the orphans on the tier that their kind prefers. An orphan is a
    /// node that is no root, does not stand on the cake, and names no parent
    /// or one that the graph lacks.
    fn arrange_orphan_nodes(&mut self, graph: &mut Graph, Ghost(start): Ghost<Graph>)
        requires
            old(self).wf(),
            old(graph).wf(),
            start.wf(),
            old(self).follows(&start, old(graph)),
        ensures
            final(self).wf(),
            final(graph).wf(),
            final(self).same_build(old(self)),
            final(self).follows(&start, final(graph)),
            final(self).cake() == orphans_placed(
                old(self).capacities(),
                facts_of(&start),
                old(self).cake(),
                start.ids().len() as int,
            ),
    {
        let ghost facts = facts_of(&start);
        let ghost rooms = self.capacities();
        let ghost first = self.cake();
        let count: usize = graph.node_count();
        proof {
            self.follows_keeps_facts(&start, graph);
        }
        let mut orphans: Vec<bool> = Vec::new();
        let mut i: usize = 0;
        while i < count
            invariant
                self.wf(),
                graph.wf(),
                self.cake() == first,
                facts == facts_of(graph),
                count == graph.ids().len(),
                i <= count,
                orphans@.len() == i,
                forall|j: int| 0 <= j < i ==> #[trigger] orphans@[j] == is_orphan(facts, first, j),
            decreases count - i,
        {
            let node: &Node = graph.node_at(i);
            let lonely: bool = match &node.parent_id {
                None => true,
                Some(parent) => {
                    let missing: bool = graph.get_node(parent.as_str()).is_none();
                    proof {
                        if graph.has(parent@) {
                            let j = graph.slot(parent@);
                            assert(facts[j].id == parent@);
                        }
                    }
                    missing
                },
            };
            let orphan: bool = lonely && node.node_type != NodeType::Root && !self.node_positions.contains_key(
                graph.id_at(i).as_str(),
            );
            orphans.push(orphan);
            i += 1;
        }
        let mut rank: usize = 0;
        i = 0;
        while i < count
            invariant
                self.wf(),
                graph.wf(),
                start.wf(),
                self.same_build(old(self)),
                self.follows(&start, graph),
                facts == facts_of(&start),
                rooms == old(self).capacities(),
                count == start.ids().len(),
                i <= count,
                rank <= i,
                orphans@.len() == count,
                forall|j: int| 0 <= j < count ==> #[trigger] orphans@[j] == is_orphan(facts, first, j),
                rank == orphans_before(facts, first, i as int),
                self.cake() == orphans_placed(rooms, facts, first, i as int),
            decreases count - i,
        {
            proof {
                self.follows_keeps_facts(&start, graph);
            }
            if orphans[i] {
                let tier: usize = match graph.node_at(i).node_type {
                    NodeType::Concept => 1,
                    NodeType::Task => 2,
                    NodeType::Note => 3,
                    _ => 2,
                };
                self.place_unplaced(graph, Ghost(start), i, tier, rank);
                rank += 1;
            }
            i += 1;
        }
    }

    /// The tiers, from the lowest.
    pub fn layers(&self) -> (tiers: &Vec<Layer>)
        ensures
            tiers@ == self.tiers(),
    {
        &self.layers
    }

    /// The number of tiers.
    pub fn max_layers(&self) -> (count: usize)
        requires
            self.wf(),
        ensures
            count == self.tiers().len(),
    {
        self.max_layers
    }

    /// The radius of the lowest ring, in thousandths.
    pub fn base_radius(&self) -> (radius: u64)
        ensures
            radius == self.base(),
    {
        self.base_radius
    }

    /// The record of a node, if it stands on the cake.
    pub fn get_position(&self, node_id: &str) -> (record: Option<LayerPosition>)
        requires
            self.wf(),
        ensures
            match record {
                Some(found) => self.records().contains_key(node_id@) && found == self.records()[node_id@]
                    && self.record_ok(found),
                None => !self.records().contains_key(node_id@),
            },
    {
        match self.node_positions.get(node_id) {
            Some(found) => Some(*found),
            None => None,
        }
    }

    /// The record of every node on the cake, with its identifier, in the
    /// order in which the nodes first came to stand on it.
    pub fn get_target_positions(&self) -> (targets: Vec<(String, LayerPosition)>)
        requires
            self.wf(),
        ensures
            targets@.len() == self.placed().len(),
            forall|i: int|
                0 <= i < targets@.len() ==> {
                    &&& (#[trigger] targets@[i]).0@ == self.placed()[i]
                    &&& self.records().contains_key(self.placed()[i])
                    &&& targets@[i].1 == self.records()[self.placed()[i]]
                },
    {
        let mut targets: Vec<(String, LayerPosition)> = Vec::new();
        let mut i: usize = 0;
        while i < self.node_positions.len()
            invariant
                self.sound(),
                i <= self.placed().len(),
                targets@.len() == i,
                forall|j: int|
                    0 <= j < i ==> {
                        &&& (#[trigger] targets@[j]).0@ == self.placed()[j]
                        &&& self.records().contains_key(self.placed()[j])
                        &&& targets@[j].1 == self.records()[self.placed()[j]]
                    },
            decreases self.placed().len() - i,
        {
            proof {
                self.node_positions.slot_is_unique(i as int);
            }
            let id: String = self.node_positions.key_at(i).clone();
            let record: LayerPosition = *self.node_positions.value_at(i);
            targets.push((id, record));
            i += 1;
        }
        targets
    }

    /// Of each tier its level, the number of nodes on it, and its room.
    pub fn get_layer_stats(&self) -> (stats: Vec<(usize, usize, usize)>)
        ensures
            stats@.len() == self.tiers().len(),
            forall|t: int|
                0 <= t < stats@.len() ==> #[trigger] stats@[t] == (
                    self.tiers()[t].level,
                    self.tiers()[t].node_count,
                    self.tiers()[t].max_nodes,
                ),
            self.wf() ==> forall|t: int|
                0 <= t < stats@.len() ==> #[trigger] stats@[t] == (
                    t as usize,
                    self.occupancy()[t] as usize,
                    self.capacities()[t] as usize,
                ),
    {
        let mut stats: Vec<(usize, usize, usize)> = Vec::new();
        let mut t: usize = 0;
        while t < self.layers.len()
            invariant
                t <= self.tiers().len(),
                stats@.len() == t,
                forall|u: int|
                    0 <= u < t ==> #[trigger] stats@[u] == (
                        self.tiers()[u].level,
                        self.tiers()[u].node_count,
                        self.tiers()[u].max_nodes,
                    ),
            decreases self.tiers().len() - t,
        {
            let layer: &Layer = &self.layers[t];
            stats.push((layer.level, layer.node_count, layer.max_nodes));
            t += 1;
        }
        proof {
            if self.wf() {
                assert forall|u: int| 0 <= u < stats@.len() implies #[trigger] stats@[u] == (
                    u as usize,
                    self.occupancy()[u] as usize,
                    self.capacities()[u] as usize,
                ) by {
                    assert(self.tier_ok(u));
                }
            }
        }
        stats
    }

    /// The widest of the first `upto` rings, and nothing for no ring.
    pub open spec fn widest(&self, upto: int) -> int
        decreases upto,
    {
        if upto <= 0 {
            0
        } else {
            let rest = self.widest(upto - 1);
            let radius = self.tiers()[upto - 1].radius as int;
            if radius > rest {
                radius
            } else {
                rest
            }
        }
    }

    /// The distance from which the whole cake is in view.
    pub open spec fn camera_distance(&self) -> int {
        let wanted = self.widest(self.tiers().len() as int) * 5 / 2 + self.tiers().len()
            * LAYER_HEIGHT_UNIT;
        if wanted > LEAST_CAMERA_DISTANCE {
            wanted
        } else {
            LEAST_CAMERA_DISTANCE as int
        }
    }

    /// The distance from which the whole cake is in view: two and a half
    /// times the widest radius and the height of all tiers, but not less
    /// than `LEAST_CAMERA_DISTANCE`.
    pub fn get_optimal_camera_distance(&self) -> (distance: i128)
        requires
            self.wf(),
        ensures
            distance == self.camera_distance(),
    {
        let mut max_radius: i128 = 0;
        let mut t: usize = 0;
        while t < self.layers.len()
            invariant
                self.wf(),
                t <= self.tiers().len(),
                max_radius == self.widest(t as int),
                0 <= max_radius <= self.base(),
            decreases self.tiers().len() - t,
        {
            assert(self.tier_ok(t as int));
            proof {
                radius_is_bounded(self.base(), t as nat);
            }
            if self.layers[t].radius > max_radius {
                max_radius = self.layers[t].radius;
            }
            t += 1;
        }
        let total_height: i128 = self.max_layers as i128 * LAYER_HEIGHT_UNIT;
        let wanted: i128 = max_radius * 5 / 2 + total_height;
        if wanted > LEAST_CAMERA_DISTANCE {
            wanted
        } else {
            LEAST_CAMERA_DISTANCE
        }
    }

    /// The point on the axis of the cake at the height of tier `layer`; the
    /// origin for a tier that the cake lacks.
    pub fn get_layer_center(&self, layer: usize) -> (center: Position3D)
        ensures
            center == if layer < self.tiers().len() {
                Position3D { x: 0, y: self.tiers()[layer as int].height, z: 0 }
            } else {
                Position3D { x: 0, y: 0, z: 0 }
            },
    {
        if layer < self.layers.len() {
            Position3D::new(0, self.layers[layer].height, 0)
        } else {
            Position3D::zero()
        }
    }

    /// The tint of tier `layer`; white for a tier that the cake lacks.
    pub fn get_layer_color(&self, layer: usize) -> (tint: [u16; 4])
        ensures
            tint@ == if layer < self.tiers().len() {
                self.tiers()[layer as int].color@
            } else {
                seq![1000u16, 1000u16, 1000u16, 1000u16]
            },
    {
        if layer < self.layers.len() {
            self.layers[layer].color
        } else {
            let white: [u16; 4] = [1000, 1000, 1000, 1000];
            white
        }
    }
}

/// The characters of a name, where there is one.
pub open spec fn name_of(name: Option<&str>) -> Option<Seq<char>> {
    match name {
        Some(text) => Some(text@),
        None => None,
    }
}

/// How many of the first `upto` marks are set.
pub open spec fn marked(marks: Seq<bool>, upto: int) -> nat
    decreases upto,
{
    if upto <= 0 {
        0
    } else {
        marked(marks, upto - 1) + if marks[upto - 1] {
            1nat
        } else {
            0nat
        }
    }
}

/// There are no more set marks than marks.
pub proof fn marked_is_bounded(marks: Seq<bool>, upto: int)
    requires
        0 <= upto,
    ensures
        marked(marks, upto) <= upto,
    decreases upto,
{
    if upto > 0 {
        marked_is_bounded(marks, upto - 1);
    }
}

/// Marks beyond `upto` do not count.
proof fn marked_ignores_rest(a: Seq<bool>, b: Seq<bool>, upto: int)
    requires
        0 <= upto <= a.len(),
        upto <= b.len(),
        forall|i: int| 0 <= i < upto ==> a[i] == b[i],
    ensures
        marked(a, upto) == marked(b, upto),
    decreases upto,
{
    if upto > 0 {
        marked_ignores_rest(a, b, upto - 1);
    }
}

/// One more mark, one more counted if it is set.
proof fn marked_push(marks: Seq<bool>, mark: bool)
    ensures
        marked(marks.push(mark), marks.len() as int + 1) == marked(marks, marks.len() as int) + if mark {
            1nat
        } else {
            0nat
        },
{
    marked_ignores_rest(marks, marks.push(mark), marks.len() as int);
}

/// Setting a mark that was not set counts one more.
proof fn marked_set(marks: Seq<bool>, i: int, upto: int)
    requires
        0 <= i < marks.len(),
        0 <= upto <= marks.len(),
        !marks[i],
    ensures
        marked(marks.update(i, true), upto) == marked(marks, upto) + if i < upto {
            1nat
        } else {
            0nat
        },
    decreases upto,
{
    if upto > 0 {
        marked_set(marks, i, upto - 1);
    }
}

/// Once the steps have reached the end of the queue, further steps change nothing.
pub proof fn walked_is_stable(capacities: Seq<nat>, nodes: Seq<NodeFacts>, start: Walk, done: nat, later: nat)
    requires
        done <= later,
        walked(capacities, nodes, start, done).queue.len() <= done,
    ensures
        walked(capacities, nodes, start, later) == walked(capacities, nodes, start, done),
    decreases later - done,
{
    if done < later {
        walked_is_stable(capacities, nodes, start, done, (later - 1) as nat);
    }
}

/// A title found among the first `from` nodes is found among the first `upto`.
pub proof fn titled_stays(nodes: Seq<NodeFacts>, title: Seq<char>, from: int, upto: int)
    requires
        from <= upto,
        titled(nodes, title, from) is Some,
    ensures
        titled(nodes, title, upto) == titled(nodes, title, from),
    decreases upto - from,
{
    if from < upto {
        titled_stays(nodes, title, from, upto - 1);
    }
}

} // verus!
