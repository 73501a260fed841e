//! The arrangement of a graph on a layer cake, as mathematics.
//!
//! A cake is a stack of tiers, each a ring with room for a fixed number of
//! nodes. Arranging a graph gives every node that finds room a tier and an
//! anchor angle on the ring of that tier. What is defined here is that result
//! as a function of the tiers' capacities and of what the arrangement reads of
//! the graph; the executable arrangement is proved to compute it.

use vstd::prelude::*;
use crate::celestial::graph::Graph;
use crate::celestial::node_type::NodeType;
use crate::outside::ends_with;

verus! {

/// A full turn, in thousandths of a degree.
pub const FULL_TURN: i128 = 360000;

/// What the arrangement reads of one node.
pub struct NodeFacts {
    pub id: Seq<char>,
    pub kind: NodeType,
    pub parent: Option<Seq<char>>,
    pub title: Seq<char>,
}

/// The part of a placement that no chance touches: the tier, and the anchor
/// angle in thousandths of a degree.
pub struct Slot {
    pub layer: nat,
    pub anchor: int,
}

/// How many nodes each tier holds, and the slot of every node that has one.
pub struct Cake {
    pub occupancy: Seq<nat>,
    pub slots: Map<Seq<char>, Slot>,
}

/// A queue of nodes, each by its index and with the tier asked for its
/// children's parent, and the set of the indices that have been queued.
pub struct Walk {
    pub cake: Cake,
    pub queue: Seq<(int, nat)>,
    pub seen: Set<int>,
}

pub open spec fn text_of(s: Option<String>) -> Option<Seq<char>> {
    match s {
        Some(t) => Some(t@),
        None => None,
    }
}

/// What the arrangement reads of a graph: of each node, in the order of the
/// walk, its identifier, kind, parent and title.
pub open spec fn facts_of(graph: &Graph) -> Seq<NodeFacts> {
    Seq::new(
        graph.ids().len(),
        |i: int|
            NodeFacts {
                id: graph.ids()[i],
                kind: graph.node_seq()[i].node_type,
                parent: text_of(graph.node_seq()[i].parent_id),
                title: graph.node_seq()[i].title@,
            },
    )
}

/// `base` to the power `exponent`.
pub open spec fn power(base: nat, exponent: nat) -> nat
    decreases exponent,
{
    if exponent == 0 {
        1
    } else {
        base * power(base, (exponent - 1) as nat)
    }
}

/// The radius of the ring of tier `level`: the base radius shrunk by a fifth
/// for every tier above the lowest, but never under three tenths of it.
pub open spec fn tier_radius(base: nat, level: nat) -> nat {
    let shrunk = base * power(4, level) / power(5, level);
    let least = base * 3 / 10;
    if shrunk > least {
        shrunk
    } else {
        least
    }
}

/// The anchor angle of the place `position` on a ring with room for
/// `capacity`: the places divide the full turn evenly.
pub open spec fn anchor_of(capacity: nat, position: nat) -> int {
    if capacity > 0 {
        position * FULL_TURN / (capacity as int)
    } else {
        0
    }
}

/// Whether a random offset is one that a play of `amplitude` allows: none
/// without play, else from `-amplitude` up to, but not including, `amplitude`.
pub open spec fn within(offset: int, amplitude: int) -> bool {
    if amplitude == 0 {
        offset == 0
    } else {
        -amplitude <= offset < amplitude
    }
}

/// The radius of a ring, stretched or shrunk by `offset` thousandths of itself.
pub open spec fn stretched(ring: int, offset: int) -> int {
    ring * (1000 + offset) / 1000
}

/// Whether `radius` is the radius of a ring after an offset that `play` allows.
pub open spec fn loosened(radius: int, ring: int, play: int) -> bool {
    exists|offset: int| #[trigger] within(offset, play) && radius == stretched(ring, offset)
}

/// A cake of `tiers` tiers on which nothing stands.
pub open spec fn empty_cake(tiers: nat) -> Cake {
    Cake { occupancy: Seq::new(tiers, |t: int| 0nat), slots: Map::empty() }
}

/// The deepest tier of a cake of `tiers` tiers.
pub open spec fn deepest(tiers: nat) -> nat {
    if tiers > 0 {
        (tiers - 1) as nat
    } else {
        0
    }
}

/// The tier asked for the children of a node that was queued with
/// `parent_tier`: the next one, but none beyond the deepest.
pub open spec fn child_tier(tiers: nat, parent_tier: nat) -> nat {
    if parent_tier + 1 < deepest(tiers) {
        parent_tier + 1
    } else {
        deepest(tiers)
    }
}

/// How many nodes stand on `tier`; none on a tier that the cake lacks.
pub open spec fn occupancy_at(cake: Cake, tier: nat) -> nat {
    if tier < cake.occupancy.len() {
        cake.occupancy[tier as int]
    } else {
        0
    }
}

/// The first tier from `from` upwards that has room.
pub open spec fn free_tier(capacities: Seq<nat>, occupancy: Seq<nat>, from: nat) -> Option<nat>
    decreases capacities.len() - from,
{
    if from >= capacities.len() {
        None
    } else if occupancy[from as int] < capacities[from as int] {
        Some(from)
    } else {
        free_tier(capacities, occupancy, from + 1)
    }
}

/// The place that a node gets on tier `found` when it was to be put on
/// `tier` at `position`: that position on the tier itself, the start of the
/// ring on another.
pub open spec fn landing(tier: nat, found: nat, position: nat) -> nat {
    if found == tier {
        position
    } else {
        0
    }
}

/// Puts `id` on `tier` at `position`, or, where that tier is full, at the
/// start of the first tier above it that has room. The cake stays as it is
/// when no tier from `tier` upwards has room, which includes a `tier` that
/// the cake lacks.
pub open spec fn place(capacities: Seq<nat>, cake: Cake, id: Seq<char>, tier: nat, position: nat) -> Cake {
    match free_tier(capacities, cake.occupancy, tier) {
        None => cake,
        Some(t) => Cake {
            occupancy: cake.occupancy.update(t as int, cake.occupancy[t as int] + 1),
            slots: cake.slots.insert(
                id,
                Slot {
                    layer: t,
                    anchor: anchor_of(capacities[t as int], landing(tier, t, position)),
                },
            ),
        },
    }
}

/// Puts `id` on the cake unless it has a slot already.
pub open spec fn place_new(capacities: Seq<nat>, cake: Cake, id: Seq<char>, tier: nat, position: nat) -> Cake {
    if cake.slots.contains_key(id) {
        cake
    } else {
        place(capacities, cake, id, tier, position)
    }
}

/// How many of the first `upto` nodes are of the root kind.
pub open spec fn roots_before(nodes: Seq<NodeFacts>, upto: int) -> nat
    decreases upto,
{
    if upto <= 0 {
        0
    } else {
        roots_before(nodes, upto - 1) + if nodes[upto - 1].kind == NodeType::Root {
            1nat
        } else {
            0nat
        }
    }
}

/// The cake after the roots among the first `upto` nodes were put on the
/// lowest tier, one after another, each at the place of its rank among the
/// roots.
pub open spec fn roots_placed(capacities: Seq<nat>, nodes: Seq<NodeFacts>, upto: int) -> Cake
    decreases upto,
{
    if upto <= 0 {
        empty_cake(capacities.len())
    } else {
        let cake = roots_placed(capacities, nodes, upto - 1);
        let node = nodes[upto - 1];
        if node.kind == NodeType::Root {
            place_new(capacities, cake, node.id, 0, roots_before(nodes, upto - 1))
        } else {
            cake
        }
    }
}

/// The walk at its start: the roots among the first `upto` nodes are queued,
/// in their order, each with the lowest tier.
pub open spec fn seeded(cake: Cake, nodes: Seq<NodeFacts>, upto: int) -> Walk
    decreases upto,
{
    if upto <= 0 {
        Walk { cake, queue: Seq::empty(), seen: Set::empty() }
    } else {
        let walk = seeded(cake, nodes, upto - 1);
        if nodes[upto - 1].kind == NodeType::Root {
            Walk {
                cake: walk.cake,
                queue: walk.queue.push((upto - 1, 0nat)),
                seen: walk.seen.insert(upto - 1),
            }
        } else {
            walk
        }
    }
}

/// Whether node `child` names node `parent` as its parent.
pub open spec fn is_child_of(nodes: Seq<NodeFacts>, child: int, parent: int) -> bool {
    nodes[child].parent == Some(nodes[parent].id)
}

/// How many of the first `upto` nodes are children of node `parent`.
pub open spec fn children_before(nodes: Seq<NodeFacts>, parent: int, upto: int) -> nat
    decreases upto,
{
    if upto <= 0 {
        0
    } else {
        children_before(nodes, parent, upto - 1) + if is_child_of(nodes, upto - 1, parent) {
            1nat
        } else {
            0nat
        }
    }
}

/// The walk after the children of node `parent` among the first `upto` nodes
/// were visited: each that had not been queued before is put on `tier`, at
/// the place of its rank among all children of `parent`, and queued.
pub open spec fn children_visited(
    capacities: Seq<nat>,
    nodes: Seq<NodeFacts>,
    walk: Walk,
    parent: int,
    tier: nat,
    upto: int,
) -> Walk
    decreases upto,
{
    if upto <= 0 {
        walk
    } else {
        let so_far = children_visited(capacities, nodes, walk, parent, tier, upto - 1);
        let child = upto - 1;
        if is_child_of(nodes, child, parent) && !so_far.seen.contains(child) {
            Walk {
                cake: place_new(
                    capacities,
                    so_far.cake,
                    nodes[child].id,
                    tier,
                    children_before(nodes, parent, child),
                ),
                queue: so_far.queue.push((child, tier)),
                seen: so_far.seen.insert(child),
            }
        } else {
            so_far
        }
    }
}

/// The walk after `steps` entries of the queue were taken, from its front,
/// and the children of each were visited. A step beyond the end of the queue
/// changes nothing.
pub open spec fn walked(capacities: Seq<nat>, nodes: Seq<NodeFacts>, start: Walk, steps: nat) -> Walk
    decreases steps,
{
    if steps == 0 {
        start
    } else {
        let walk = walked(capacities, nodes, start, (steps - 1) as nat);
        let head = steps - 1;
        if head < walk.queue.len() {
            children_visited(
                capacities,
                nodes,
                walk,
                walk.queue[head].0,
                child_tier(capacities.len(), walk.queue[head].1),
                nodes.len() as int,
            )
        } else {
            walk
        }
    }
}

/// The cake after the roots were placed and the hierarchy below them was
/// walked breadth first. No node is queued twice, so that as many steps as
/// there are nodes exhaust the queue.
pub open spec fn hierarchy_placed(capacities: Seq<nat>, nodes: Seq<NodeFacts>) -> Cake {
    let roots = roots_placed(capacities, nodes, nodes.len() as int);
    walked(capacities, nodes, seeded(roots, nodes, nodes.len() as int), nodes.len()).cake
}

/// What marks the title of a node that evolved from another.
pub open spec fn evolution_suffix() -> Seq<char> {
    " (Evolution)"@
}

/// The title of the node that a node titled `title` evolved from: `title`
/// without the mark at its end, or `title` itself where it bears no mark.
pub open spec fn origin_title(title: Seq<char>) -> Seq<char> {
    if ends_with(title, evolution_suffix()) {
        title.subrange(0, title.len() - evolution_suffix().len())
    } else {
        title
    }
}

/// The index of the first among the first `upto` nodes that is titled `title`.
pub open spec fn titled(nodes: Seq<NodeFacts>, title: Seq<char>, upto: int) -> Option<int>
    decreases upto,
{
    if upto <= 0 {
        None
    } else {
        match titled(nodes, title, upto - 1) {
            Some(i) => Some(i),
            None => if nodes[upto - 1].title == title {
                Some(upto - 1)
            } else {
                None
            },
        }
    }
}

/// The tier for a node of the evolution kind: that of the node it evolved
/// from, where there is one and it stands on the cake; else the deepest.
pub open spec fn evolution_tier(tiers: nat, cake: Cake, nodes: Seq<NodeFacts>, i: int) -> nat {
    match titled(nodes, origin_title(nodes[i].title), nodes.len() as int) {
        Some(origin) => if cake.slots.contains_key(nodes[origin].id) {
            cake.slots[nodes[origin].id].layer
        } else {
            deepest(tiers)
        },
        None => deepest(tiers),
    }
}

/// The cake after those of the first `upto` nodes that are of the evolution
/// kind and had no slot were put behind the nodes of their tier.
pub open spec fn evolutions_placed(capacities: Seq<nat>, nodes: Seq<NodeFacts>, start: Cake, upto: int) -> Cake
    decreases upto,
{
    if upto <= 0 {
        start
    } else {
        let cake = evolutions_placed(capacities, nodes, start, upto - 1);
        let node = nodes[upto - 1];
        if node.kind == NodeType::Evolution {
            let tier = evolution_tier(capacities.len(), cake, nodes, upto - 1);
            place_new(capacities, cake, node.id, tier, occupancy_at(cake, tier))
        } else {
            cake
        }
    }
}

/// Whether one of the nodes bears the identifier `id`.
pub open spec fn is_known(nodes: Seq<NodeFacts>, id: Seq<char>) -> bool {
    exists|j: int| 0 <= j < nodes.len() && (#[trigger] nodes[j]).id == id
}

/// Whether node `i` is an orphan on `cake`: it is not of the root kind, has
/// no slot, and names no parent or one that is none of the nodes.
pub open spec fn is_orphan(nodes: Seq<NodeFacts>, cake: Cake, i: int) -> bool {
    &&& nodes[i].kind != NodeType::Root
    &&& !cake.slots.contains_key(nodes[i].id)
    &&& match nodes[i].parent {
        None => true,
        Some(parent) => !is_known(nodes, parent),
    }
}

/// How many of the first `upto` nodes are orphans on `cake`.
pub open spec fn orphans_before(nodes: Seq<NodeFacts>, cake: Cake, upto: int) -> nat
    decreases upto,
{
    if upto <= 0 {
        0
    } else {
        orphans_before(nodes, cake, upto - 1) + if is_orphan(nodes, cake, upto - 1) {
            1nat
        } else {
            0nat
        }
    }
}

/// The tier on which an orphan of a kind is put.
pub open spec fn preferred_tier(kind: NodeType) -> nat {
    match kind {
        NodeType::Concept => 1,
        NodeType::Task => 2,
        NodeType::Note => 3,
        _ => 2,
    }
}

/// The cake after those of the first `upto` nodes that were orphans on
/// `start` were put on the tier of their kind, each at the place of its rank
/// among those orphans.
pub open spec fn orphans_placed(capacities: Seq<nat>, nodes: Seq<NodeFacts>, start: Cake, upto: int) -> Cake
    decreases upto,
{
    if upto <= 0 {
        start
    } else {
        let cake = orphans_placed(capacities, nodes, start, upto - 1);
        let node = nodes[upto - 1];
        if is_orphan(nodes, start, upto - 1) {
            place_new(
                capacities,
                cake,
                node.id,
                preferred_tier(node.kind),
                orphans_before(nodes, start, upto - 1),
            )
        } else {
            cake
        }
    }
}

/// The cake on which a graph is arranged: first the roots, then the
/// hierarchy below them, then the evolved nodes that the hierarchy left out,
/// then the orphans. A node that names a parent among the nodes, but hangs
/// under no root, is no orphan and stays off the cake.
pub open spec fn arranged(capacities: Seq<nat>, nodes: Seq<NodeFacts>) -> Cake {
    let hierarchy = hierarchy_placed(capacities, nodes);
    let evolved = evolutions_placed(capacities, nodes, hierarchy, nodes.len() as int);
    orphans_placed(capacities, nodes, evolved, nodes.len() as int)
}

/// The cake after one node was added: on the tier above its parent's, but
/// none beyond the deepest, where a parent is named and stands on the cake;
/// else on the lowest tier. It goes behind the nodes of its tier.
pub open spec fn added(capacities: Seq<nat>, cake: Cake, id: Seq<char>, parent: Option<Seq<char>>) -> Cake {
    let tier = added_tier(capacities.len(), cake, parent);
    place(capacities, cake, id, tier, occupancy_at(cake, tier))
}

pub open spec fn added_tier(tiers: nat, cake: Cake, parent: Option<Seq<char>>) -> nat {
    match parent {
        Some(p) => if cake.slots.contains_key(p) {
            child_tier(tiers, cake.slots[p].layer)
        } else {
            0
        },
        None => 0,
    }
}

/// The cake after the tier of `id` gave up one place, if `id` has a slot on
/// a tier of the cake and that tier is not empty.
pub open spec fn lifted(cake: Cake, id: Seq<char>) -> Cake {
    if cake.slots.contains_key(id) && cake.slots[id].layer < cake.occupancy.len()
        && cake.occupancy[cake.slots[id].layer as int] > 0 {
        let tier = cake.slots[id].layer as int;
        Cake { occupancy: cake.occupancy.update(tier, (cake.occupancy[tier] - 1) as nat), ..cake }
    } else {
        cake
    }
}

/// The cake after `id` was moved to `target`: its old tier gives up a place,
/// and it is put behind the nodes of `target`. Nothing happens for a
/// `target` that the cake lacks.
pub open spec fn moved(capacities: Seq<nat>, cake: Cake, id: Seq<char>, target: nat) -> Cake {
    if target >= capacities.len() {
        cake
    } else {
        let free = lifted(cake, id);
        place(capacities, free, id, target, occupancy_at(free, target))
    }
}

/// The sum of the first `upto` numbers of a sequence.
pub open spec fn total(counts: Seq<nat>, upto: int) -> nat
    decreases upto,
{
    if upto <= 0 {
        0
    } else {
        total(counts, upto - 1) + counts[upto - 1]
    }
}

/// What `free_tier` finds is the first tier with room at or above `from`.
pub proof fn free_tier_is_first(capacities: Seq<nat>, occupancy: Seq<nat>, from: nat)
    ensures
        match free_tier(capacities, occupancy, from) {
            Some(t) => {
                &&& from <= t < capacities.len()
                &&& occupancy[t as int] < capacities[t as int]
                &&& forall|u: int| from <= u < t ==> occupancy[u] >= capacities[u]
            },
            None => forall|u: int| from <= u < capacities.len() ==> occupancy[u] >= capacities[u],
        },
    decreases capacities.len() - from,
{
    if from < capacities.len() && occupancy[from as int] >= capacities[from as int] {
        free_tier_is_first(capacities, occupancy, from + 1);
    }
}

} // verus!
