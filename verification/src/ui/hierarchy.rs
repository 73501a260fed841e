//! How the tier of a node follows from its depth under a root.

use vstd::prelude::*;
use crate::celestial::node_type::NodeType;
use crate::ui::cake::{
    anchor_of, arranged, child_tier, children_before, children_visited, deepest, evolutions_placed,
    free_tier, free_tier_is_first, hierarchy_placed, is_child_of, is_known, is_orphan, orphans_before,
    landing, orphans_placed, place_new, preferred_tier, roots_placed, seeded, walked, Cake, NodeFacts, Walk,
};
use crate::ui::laws::{
    arrangement_keeps, crowded_root_is_put_higher, distinct_ids, is_root_named, later_roots_are_placed_later,
    orphans_keep, placing_keeps_slots, rest_keeps, roots_alone_are_placed, seeding_keeps_cake,
};

verus! {

/// The index of the first among the first `upto` nodes that bears `id`.
pub open spec fn named(nodes: Seq<NodeFacts>, id: Seq<char>, upto: int) -> Option<int>
    decreases upto,
{
    if upto <= 0 {
        None
    } else {
        match named(nodes, id, upto - 1) {
            Some(i) => Some(i),
            None => if nodes[upto - 1].id == id {
                Some(upto - 1)
            } else {
                None
            },
        }
    }
}

/// The number of steps from node `i` up to the first root above it, each
/// step leading from a node to the node that it names as its parent, if that
/// root is met within `fuel` steps. A root is its own root, whatever parent
/// it names.
pub open spec fn depth(nodes: Seq<NodeFacts>, i: int, fuel: nat) -> Option<nat>
    decreases fuel,
{
    if nodes[i].kind == NodeType::Root {
        Some(0)
    } else if fuel == 0 {
        None
    } else {
        match nodes[i].parent {
            None => None,
            Some(parent) => match named(nodes, parent, nodes.len() as int) {
                None => None,
                Some(above) => match depth(nodes, above, (fuel - 1) as nat) {
                    Some(steps) => Some(steps + 1),
                    None => None,
                },
            },
        }
    }
}

/// Whether node `i` hangs under a root: a root is met on the way up from it.
pub open spec fn hangs_under_root(nodes: Seq<NodeFacts>, i: int) -> bool {
    exists|fuel: nat| (#[trigger] depth(nodes, i, fuel)) is Some
}

/// The depth of a node that hangs under a root.
pub open spec fn depth_of(nodes: Seq<NodeFacts>, i: int) -> nat {
    depth(nodes, i, choose|fuel: nat| (#[trigger] depth(nodes, i, fuel)) is Some)->0
}

/// The tier asked for a node of a depth: the depth itself, held at the
/// deepest tier.
pub open spec fn held(tiers: nat, steps: nat) -> nat {
    if steps < deepest(tiers) {
        steps
    } else {
        deepest(tiers)
    }
}

/// What is found among the first `upto` nodes bears the name and stands there.
pub proof fn named_is_sound(nodes: Seq<NodeFacts>, id: Seq<char>, upto: int)
    requires
        upto <= nodes.len(),
    ensures
        named(nodes, id, upto) matches Some(i) ==> 0 <= i < upto && nodes[i].id == id,
        named(nodes, id, upto) is None ==> forall|j: int| 0 <= j < upto ==> (#[trigger] nodes[j]).id != id,
    decreases upto,
{
    if upto > 0 {
        named_is_sound(nodes, id, upto - 1);
    }
}

/// Where no two nodes bear the same identifier, a node is found under its own.
pub proof fn named_finds(nodes: Seq<NodeFacts>, i: int)
    requires
        distinct_ids(nodes),
        0 <= i < nodes.len(),
    ensures
        named(nodes, nodes[i].id, nodes.len() as int) == Some(i),
{
    named_is_sound(nodes, nodes[i].id, nodes.len() as int);
}

/// More fuel does not change a depth that was found.
pub proof fn depth_is_stable(nodes: Seq<NodeFacts>, i: int, less: nat, more: nat)
    requires
        less <= more,
        depth(nodes, i, less) is Some,
    ensures
        depth(nodes, i, more) == depth(nodes, i, less),
    decreases less,
{
    if nodes[i].kind != NodeType::Root && less > 0 {
        let above = named(nodes, nodes[i].parent->0, nodes.len() as int)->0;
        depth_is_stable(nodes, above, (less - 1) as nat, (more - 1) as nat);
    }
}

/// A depth found with some fuel is the depth of the node.
pub proof fn depth_is_found(nodes: Seq<NodeFacts>, i: int, fuel: nat)
    requires
        depth(nodes, i, fuel) is Some,
    ensures
        hangs_under_root(nodes, i),
        depth_of(nodes, i) == depth(nodes, i, fuel)->0,
{
    let chosen = choose|fuel: nat| (#[trigger] depth(nodes, i, fuel)) is Some;
    if chosen <= fuel {
        depth_is_stable(nodes, i, chosen, fuel);
    } else {
        depth_is_stable(nodes, i, fuel, chosen);
    }
}

/// A root has depth nothing.
pub proof fn root_has_no_depth(nodes: Seq<NodeFacts>, i: int)
    requires
        nodes[i].kind == NodeType::Root,
    ensures
        hangs_under_root(nodes, i),
        depth_of(nodes, i) == 0,
{
    depth_is_found(nodes, i, 0);
}

/// Where no two nodes bear the same identifier, a child that is no root is
/// one step deeper than its parent.
pub proof fn child_is_one_deeper(nodes: Seq<NodeFacts>, child: int, parent: int)
    requires
        distinct_ids(nodes),
        0 <= child < nodes.len(),
        0 <= parent < nodes.len(),
        is_child_of(nodes, child, parent),
        nodes[child].kind != NodeType::Root,
        hangs_under_root(nodes, parent),
    ensures
        hangs_under_root(nodes, child),
        depth_of(nodes, child) == depth_of(nodes, parent) + 1,
{
    let fuel = choose|fuel: nat| (#[trigger] depth(nodes, parent, fuel)) is Some;
    named_finds(nodes, parent);
    depth_is_found(nodes, child, fuel + 1);
}

/// A node that hangs under a root and is no root names a parent that is one
/// of the nodes.
pub proof fn hanging_node_has_parent(nodes: Seq<NodeFacts>, i: int)
    requires
        0 <= i < nodes.len(),
        hangs_under_root(nodes, i),
        nodes[i].kind != NodeType::Root,
    ensures
        nodes[i].parent matches Some(parent) && is_known(nodes, parent),
{
    let parent = nodes[i].parent->0;
    named_is_sound(nodes, parent, nodes.len() as int);
}

/// The tier asked for the children of a node is the tier asked for a node
/// one step deeper.
pub proof fn child_tier_is_held(tiers: nat, steps: nat)
    ensures
        child_tier(tiers, held(tiers, steps)) == held(tiers, steps + 1),
{}

/// Every entry of the queue is a node that hangs under a root, with the tier
/// asked for its depth.
pub open spec fn queue_on_track(tiers: nat, nodes: Seq<NodeFacts>, walk: Walk) -> bool {
    forall|k: int|
        0 <= k < walk.queue.len() ==> {
            let entry = #[trigger] walk.queue[k];
            &&& 0 <= entry.0 < nodes.len()
            &&& hangs_under_root(nodes, entry.0)
            &&& entry.1 == held(tiers, depth_of(nodes, entry.0))
        }
}

/// Every node that hangs under a root and stands on the cake stands on the
/// tier asked for its depth or above it.
pub open spec fn slots_on_track(tiers: nat, nodes: Seq<NodeFacts>, cake: Cake) -> bool {
    forall|i: int|
        0 <= i < nodes.len() && cake.slots.contains_key((#[trigger] nodes[i]).id) && hangs_under_root(nodes, i)
            ==> cake.slots[nodes[i].id].layer >= held(tiers, depth_of(nodes, i))
}

/// Every root has been queued.
pub open spec fn roots_seen(nodes: Seq<NodeFacts>, walk: Walk) -> bool {
    forall|i: int| 0 <= i < nodes.len() && (#[trigger] nodes[i]).kind == NodeType::Root ==> walk.seen.contains(i)
}

/// The walk is on track.
pub open spec fn on_track(tiers: nat, nodes: Seq<NodeFacts>, walk: Walk) -> bool {
    &&& queue_on_track(tiers, nodes, walk)
    &&& slots_on_track(tiers, nodes, walk.cake)
    &&& roots_seen(nodes, walk)
}

/// The queue with which the walk starts holds roots, each with the lowest tier.
pub proof fn seed_is_on_track(tiers: nat, nodes: Seq<NodeFacts>, cake: Cake, upto: int)
    requires
        0 <= upto <= nodes.len(),
    ensures
        queue_on_track(tiers, nodes, seeded(cake, nodes, upto)),
        forall|i: int|
            0 <= i < upto && (#[trigger] nodes[i]).kind == NodeType::Root ==> seeded(cake, nodes, upto).seen.contains(
                i,
            ),
    decreases upto,
{
    if upto > 0 {
        seed_is_on_track(tiers, nodes, cake, upto - 1);
        let walk = seeded(cake, nodes, upto);
        if nodes[upto - 1].kind == NodeType::Root {
            root_has_no_depth(nodes, upto - 1);
            assert forall|k: int| 0 <= k < walk.queue.len() implies {
                let entry = #[trigger] walk.queue[k];
                &&& 0 <= entry.0 < nodes.len()
                &&& hangs_under_root(nodes, entry.0)
                &&& entry.1 == held(tiers, depth_of(nodes, entry.0))
            } by {}
        }
    }
}

/// Where no two nodes bear the same identifier, the cake on which only the
/// roots stand is on track.
pub proof fn roots_are_on_track(capacities: Seq<nat>, nodes: Seq<NodeFacts>)
    requires
        distinct_ids(nodes),
    ensures
        slots_on_track(capacities.len(), nodes, roots_placed(capacities, nodes, nodes.len() as int)),
{
    let cake = roots_placed(capacities, nodes, nodes.len() as int);
    roots_alone_are_placed(capacities, nodes, nodes.len() as int);
    assert forall|i: int|
        0 <= i < nodes.len() && cake.slots.contains_key((#[trigger] nodes[i]).id) && hangs_under_root(
            nodes,
            i,
        ) implies cake.slots[nodes[i].id].layer >= held(capacities.len(), depth_of(nodes, i)) by {
        root_has_no_depth(nodes, i);
    }
}

/// Placing a node on the tier asked for its depth keeps the cake on track.
pub proof fn placing_stays_on_track(
    capacities: Seq<nat>,
    nodes: Seq<NodeFacts>,
    cake: Cake,
    node: int,
    position: nat,
)
    requires
        distinct_ids(nodes),
        0 <= node < nodes.len(),
        hangs_under_root(nodes, node),
        slots_on_track(capacities.len(), nodes, cake),
    ensures
        slots_on_track(
            capacities.len(),
            nodes,
            place_new(
                capacities,
                cake,
                nodes[node].id,
                held(capacities.len(), depth_of(nodes, node)),
                position,
            ),
        ),
{
    let tier = held(capacities.len(), depth_of(nodes, node));
    let after = place_new(capacities, cake, nodes[node].id, tier, position);
    free_tier_is_first(capacities, cake.occupancy, tier);
    assert forall|i: int|
        0 <= i < nodes.len() && after.slots.contains_key((#[trigger] nodes[i]).id) && hangs_under_root(
            nodes,
            i,
        ) implies after.slots[nodes[i].id].layer >= held(capacities.len(), depth_of(nodes, i)) by {}
}

/// A visit of the children of a node of the queue keeps the walk on track.
pub proof fn visit_stays_on_track(
    capacities: Seq<nat>,
    nodes: Seq<NodeFacts>,
    walk: Walk,
    parent: int,
    upto: int,
)
    requires
        distinct_ids(nodes),
        on_track(capacities.len(), nodes, walk),
        0 <= parent < nodes.len(),
        hangs_under_root(nodes, parent),
        0 <= upto <= nodes.len(),
    ensures
        on_track(
            capacities.len(),
            nodes,
            children_visited(
                capacities,
                nodes,
                walk,
                parent,
                held(capacities.len(), depth_of(nodes, parent) + 1),
                upto,
            ),
        ),
    decreases upto,
{
    if upto > 0 {
        let tiers = capacities.len();
        let tier = held(tiers, depth_of(nodes, parent) + 1);
        visit_stays_on_track(capacities, nodes, walk, parent, upto - 1);
        let before = children_visited(capacities, nodes, walk, parent, tier, upto - 1);
        let after = children_visited(capacities, nodes, walk, parent, tier, upto);
        let child = upto - 1;
        if is_child_of(nodes, child, parent) && !before.seen.contains(child) {
            child_is_one_deeper(nodes, child, parent);
            placing_stays_on_track(capacities, nodes, before.cake, child, children_before(nodes, parent, child));
            assert forall|k: int| 0 <= k < after.queue.len() implies {
                let entry = #[trigger] after.queue[k];
                &&& 0 <= entry.0 < nodes.len()
                &&& hangs_under_root(nodes, entry.0)
                &&& entry.1 == held(tiers, depth_of(nodes, entry.0))
            } by {}
        }
    }
}

/// Where no two nodes bear the same identifier, every step of the walk
/// keeps it on track.
pub proof fn walk_stays_on_track(capacities: Seq<nat>, nodes: Seq<NodeFacts>, start: Walk, steps: nat)
    requires
        distinct_ids(nodes),
        on_track(capacities.len(), nodes, start),
    ensures
        on_track(capacities.len(), nodes, walked(capacities, nodes, start, steps)),
    decreases steps,
{
    if steps > 0 {
        walk_stays_on_track(capacities, nodes, start, (steps - 1) as nat);
        let walk = walked(capacities, nodes, start, (steps - 1) as nat);
        let head = steps - 1;
        if head < walk.queue.len() {
            let entry = walk.queue[head];
            child_tier_is_held(capacities.len(), depth_of(nodes, entry.0));
            visit_stays_on_track(capacities, nodes, walk, entry.0, nodes.len() as int);
        }
    }
}

/// Where no two nodes bear the same identifier, every node that hangs under
/// a root and was placed with the hierarchy stands on the tier asked for its
/// depth or above it.
pub proof fn hierarchy_is_on_track(capacities: Seq<nat>, nodes: Seq<NodeFacts>)
    requires
        distinct_ids(nodes),
    ensures
        slots_on_track(capacities.len(), nodes, hierarchy_placed(capacities, nodes)),
{
    let roots = roots_placed(capacities, nodes, nodes.len() as int);
    let seed = seeded(roots, nodes, nodes.len() as int);
    roots_are_on_track(capacities, nodes);
    seeding_keeps_cake(roots, nodes, nodes.len() as int);
    seed_is_on_track(capacities.len(), nodes, roots, nodes.len() as int);
    walk_stays_on_track(capacities, nodes, seed, nodes.len());
}

/// Whether node `j` is of the evolution kind and bears the identifier `id`.
pub open spec fn is_evolution_named(nodes: Seq<NodeFacts>, j: int, id: Seq<char>) -> bool {
    nodes[j].id == id && nodes[j].kind == NodeType::Evolution
}

/// Whether node `j` is an orphan on `cake` and bears the identifier `id`.
pub open spec fn is_orphan_named(nodes: Seq<NodeFacts>, cake: Cake, j: int, id: Seq<char>) -> bool {
    nodes[j].id == id && is_orphan(nodes, cake, j)
}

/// The placing of the evolved nodes gives new slots to nodes of the
/// evolution kind alone.
pub proof fn evolutions_alone_are_placed(capacities: Seq<nat>, nodes: Seq<NodeFacts>, start: Cake, upto: int)
    requires
        0 <= upto <= nodes.len(),
    ensures
        forall|id: Seq<char>| #[trigger]
            evolutions_placed(capacities, nodes, start, upto).slots.contains_key(id) ==> start.slots.contains_key(id)
                || exists|j: int| 0 <= j < upto && #[trigger] is_evolution_named(nodes, j, id),
    decreases upto,
{
    if upto > 0 {
        evolutions_alone_are_placed(capacities, nodes, start, upto - 1);
        let before = evolutions_placed(capacities, nodes, start, upto - 1);
        let after = evolutions_placed(capacities, nodes, start, upto);
        assert forall|id: Seq<char>| #[trigger] after.slots.contains_key(id) implies start.slots.contains_key(id)
            || exists|j: int| 0 <= j < upto && #[trigger] is_evolution_named(nodes, j, id) by {
            if !before.slots.contains_key(id) {
                assert(is_evolution_named(nodes, upto - 1, id));
            }
        }
    }
}

/// The placing of the orphans gives new slots to orphans alone.
pub proof fn orphans_alone_are_placed(capacities: Seq<nat>, nodes: Seq<NodeFacts>, start: Cake, upto: int)
    requires
        0 <= upto <= nodes.len(),
    ensures
        forall|id: Seq<char>| #[trigger]
            orphans_placed(capacities, nodes, start, upto).slots.contains_key(id) ==> start.slots.contains_key(id)
                || exists|j: int| 0 <= j < upto && #[trigger] is_orphan_named(nodes, start, j, id),
    decreases upto,
{
    if upto > 0 {
        orphans_alone_are_placed(capacities, nodes, start, upto - 1);
        let before = orphans_placed(capacities, nodes, start, upto - 1);
        let after = orphans_placed(capacities, nodes, start, upto);
        assert forall|id: Seq<char>| #[trigger] after.slots.contains_key(id) implies start.slots.contains_key(id)
            || exists|j: int| 0 <= j < upto && #[trigger] is_orphan_named(nodes, start, j, id) by {
            if !before.slots.contains_key(id) {
                assert(is_orphan_named(nodes, start, upto - 1, id));
            }
        }
    }
}

/// Where no two nodes bear the same identifier, a node that hangs under a
/// root and is not of the evolution kind stands on the cake only if the
/// hierarchy placed it.
pub proof fn hanging_nodes_come_with_the_hierarchy(capacities: Seq<nat>, nodes: Seq<NodeFacts>, i: int)
    requires
        distinct_ids(nodes),
        0 <= i < nodes.len(),
        hangs_under_root(nodes, i),
        nodes[i].kind != NodeType::Evolution,
        arranged(capacities, nodes).slots.contains_key(nodes[i].id),
    ensures
        hierarchy_placed(capacities, nodes).slots.contains_key(nodes[i].id),
{
    let id = nodes[i].id;
    let hierarchy = hierarchy_placed(capacities, nodes);
    let evolved = evolutions_placed(capacities, nodes, hierarchy, nodes.len() as int);
    evolutions_alone_are_placed(capacities, nodes, hierarchy, nodes.len() as int);
    orphans_alone_are_placed(capacities, nodes, evolved, nodes.len() as int);
    if !evolved.slots.contains_key(id) {
        hanging_node_has_parent(nodes, i);
    }
}

/// After a graph was arranged, a node that hangs under a root and stands on
/// the cake stands on the tier of its depth, held at the deepest tier, or
/// above it.
///
/// This is said of the nodes that the walk of the hierarchy placed, and of
/// every node that is not of the evolution kind. A node of the evolution
/// kind for which the walk found no room is placed once more, from the tier
/// of the node it evolved from, and may come to stand below its depth.
pub proof fn tiers_follow_depth(capacities: Seq<nat>, nodes: Seq<NodeFacts>, i: int)
    requires
        distinct_ids(nodes),
        0 <= i < nodes.len(),
        hangs_under_root(nodes, i),
        arranged(capacities, nodes).slots.contains_key(nodes[i].id),
        nodes[i].kind != NodeType::Evolution || hierarchy_placed(capacities, nodes).slots.contains_key(
            nodes[i].id,
        ),
    ensures
        arranged(capacities, nodes).slots[nodes[i].id].layer >= held(capacities.len(), depth_of(nodes, i)),
{
    let id = nodes[i].id;
    let hierarchy = hierarchy_placed(capacities, nodes);
    if nodes[i].kind != NodeType::Evolution {
        hanging_nodes_come_with_the_hierarchy(capacities, nodes, i);
    }
    hierarchy_is_on_track(capacities, nodes);
    let slot = hierarchy.slots[id];
    let holds = |cake: Cake| cake.slots.contains_key(id) && cake.slots[id] == slot;
    assert forall|cake: Cake, other: Seq<char>, tier: nat, position: nat| holds(cake) implies #[trigger] holds(
        place_new(capacities, cake, other, tier, position),
    ) by {
        placing_keeps_slots(capacities, cake, other, tier, position, id);
    }
    rest_keeps(capacities, nodes, holds);
}

/// Whether node `j` is no root and bears the identifier `id`.
pub open spec fn is_other_named(nodes: Seq<NodeFacts>, j: int, id: Seq<char>) -> bool {
    nodes[j].id == id && nodes[j].kind != NodeType::Root
}

/// A visit of the children of a node gives new slots to nodes that are no
/// roots, once every root has been queued.
pub proof fn visit_places_others(
    capacities: Seq<nat>,
    nodes: Seq<NodeFacts>,
    walk: Walk,
    parent: int,
    tier: nat,
    upto: int,
)
    requires
        roots_seen(nodes, walk),
        0 <= upto <= nodes.len(),
    ensures
        roots_seen(nodes, children_visited(capacities, nodes, walk, parent, tier, upto)),
        forall|id: Seq<char>| #[trigger]
            children_visited(capacities, nodes, walk, parent, tier, upto).cake.slots.contains_key(id)
                ==> walk.cake.slots.contains_key(id) || exists|j: int|
                0 <= j < nodes.len() && #[trigger] is_other_named(nodes, j, id),
    decreases upto,
{
    if upto > 0 {
        visit_places_others(capacities, nodes, walk, parent, tier, upto - 1);
        let before = children_visited(capacities, nodes, walk, parent, tier, upto - 1);
        let after = children_visited(capacities, nodes, walk, parent, tier, upto);
        assert forall|id: Seq<char>| #[trigger] after.cake.slots.contains_key(id) implies walk.cake.slots.contains_key(
            id,
        ) || exists|j: int| 0 <= j < nodes.len() && #[trigger] is_other_named(nodes, j, id) by {
            if !before.cake.slots.contains_key(id) {
                assert(is_other_named(nodes, upto - 1, id));
            }
        }
    }
}

/// The walk of the hierarchy gives new slots to nodes that are no roots,
/// once every root has been queued.
pub proof fn walk_places_others(capacities: Seq<nat>, nodes: Seq<NodeFacts>, start: Walk, steps: nat)
    requires
        roots_seen(nodes, start),
    ensures
        roots_seen(nodes, walked(capacities, nodes, start, steps)),
        forall|id: Seq<char>| #[trigger]
            walked(capacities, nodes, start, steps).cake.slots.contains_key(id) ==> start.cake.slots.contains_key(
                id,
            ) || exists|j: int| 0 <= j < nodes.len() && #[trigger] is_other_named(nodes, j, id),
    decreases steps,
{
    if steps > 0 {
        walk_places_others(capacities, nodes, start, (steps - 1) as nat);
        let walk = walked(capacities, nodes, start, (steps - 1) as nat);
        let head = steps - 1;
        if head < walk.queue.len() {
            visit_places_others(
                capacities,
                nodes,
                walk,
                walk.queue[head].0,
                child_tier(capacities.len(), walk.queue[head].1),
                nodes.len() as int,
            );
        }
    }
}

/// Where no two nodes bear the same identifier, a root stands on the cake
/// only if it was put there at its turn among the roots.
pub proof fn roots_come_at_their_turn(capacities: Seq<nat>, nodes: Seq<NodeFacts>, i: int)
    requires
        distinct_ids(nodes),
        0 <= i < nodes.len(),
        nodes[i].kind == NodeType::Root,
        arranged(capacities, nodes).slots.contains_key(nodes[i].id),
    ensures
        roots_placed(capacities, nodes, i + 1).slots.contains_key(nodes[i].id),
{
    let id = nodes[i].id;
    let count = nodes.len() as int;
    let roots = roots_placed(capacities, nodes, count);
    let seed = seeded(roots, nodes, count);
    let hierarchy = hierarchy_placed(capacities, nodes);
    let evolved = evolutions_placed(capacities, nodes, hierarchy, count);
    seeding_keeps_cake(roots, nodes, count);
    seed_is_on_track(capacities.len(), nodes, roots, count);
    walk_places_others(capacities, nodes, seed, nodes.len());
    evolutions_alone_are_placed(capacities, nodes, hierarchy, count);
    orphans_alone_are_placed(capacities, nodes, evolved, count);
    later_roots_are_placed_later(capacities, nodes, i + 1, count);
    assert forall|j: int| 0 <= j < nodes.len() && j != i implies nodes[j].id != id by {}
}

/// A root whose rank among the roots is beyond the room of the lowest tier
/// does not stand on it: if it stands on the cake, it stands higher.
pub proof fn crowded_roots_stand_higher(capacities: Seq<nat>, nodes: Seq<NodeFacts>, i: int)
    requires
        distinct_ids(nodes),
        0 <= i < nodes.len(),
        nodes[i].kind == NodeType::Root,
        capacities.len() > 0,
        crate::ui::cake::roots_before(nodes, i) >= capacities[0],
        arranged(capacities, nodes).slots.contains_key(nodes[i].id),
    ensures
        arranged(capacities, nodes).slots[nodes[i].id].layer > 0,
{
    roots_come_at_their_turn(capacities, nodes, i);
    crowded_root_is_put_higher(capacities, nodes, i);
    let id = nodes[i].id;
    let slot = roots_placed(capacities, nodes, i + 1).slots[id];
    let holds = |cake: Cake| cake.slots.contains_key(id) && cake.slots[id] == slot;
    assert forall|cake: Cake, other: Seq<char>, tier: nat, position: nat| holds(cake) implies #[trigger] holds(
        place_new(capacities, cake, other, tier, position),
    ) by {
        placing_keeps_slots(capacities, cake, other, tier, position, id);
    }
    arrangement_keeps(capacities, nodes, holds, i + 1);
}

/// The cake on which the orphans are placed: the hierarchy and the evolved
/// nodes stand on it.
pub open spec fn evolved_cake(capacities: Seq<nat>, nodes: Seq<NodeFacts>) -> Cake {
    evolutions_placed(capacities, nodes, hierarchy_placed(capacities, nodes), nodes.len() as int)
}

/// An orphan is put on the tier that its kind prefers, at the place of its
/// rank among the orphans, whenever the cake has that tier and the tier has
/// room when the turn of the orphan comes.
pub proof fn orphans_take_their_tier(capacities: Seq<nat>, nodes: Seq<NodeFacts>, i: int)
    requires
        distinct_ids(nodes),
        0 <= i < nodes.len(),
        is_orphan(nodes, evolved_cake(capacities, nodes), i),
        preferred_tier(nodes[i].kind) < capacities.len(),
        orphans_placed(capacities, nodes, evolved_cake(capacities, nodes), i).occupancy[preferred_tier(
            nodes[i].kind,
        ) as int] < capacities[preferred_tier(nodes[i].kind) as int],
    ensures
        arranged(capacities, nodes).slots.contains_key(nodes[i].id),
        arranged(capacities, nodes).slots[nodes[i].id] == (crate::ui::cake::Slot {
            layer: preferred_tier(nodes[i].kind),
            anchor: anchor_of(
                capacities[preferred_tier(nodes[i].kind) as int],
                orphans_before(nodes, evolved_cake(capacities, nodes), i),
            ),
        }),
{
    let id = nodes[i].id;
    let count = nodes.len() as int;
    let evolved = evolved_cake(capacities, nodes);
    orphans_alone_are_placed(capacities, nodes, evolved, i);
    let slot = orphans_placed(capacities, nodes, evolved, i + 1).slots[id];
    let holds = |cake: Cake| cake.slots.contains_key(id) && cake.slots[id] == slot;
    assert forall|cake: Cake, other: Seq<char>, at: nat, position: nat| holds(cake) implies #[trigger] holds(
        place_new(capacities, cake, other, at, position),
    ) by {
        placing_keeps_slots(capacities, cake, other, at, position, id);
    }
    orphans_keep(capacities, nodes, holds, evolved, i + 1, count);
}

/// Without roots nothing is queued.
proof fn nothing_is_seeded(cake: Cake, nodes: Seq<NodeFacts>, upto: int)
    requires
        0 <= upto <= nodes.len(),
        forall|j: int| 0 <= j < nodes.len() ==> (#[trigger] nodes[j]).kind != NodeType::Root,
    ensures
        seeded(cake, nodes, upto).queue.len() == 0,
    decreases upto,
{
    if upto > 0 {
        nothing_is_seeded(cake, nodes, upto - 1);
    }
}

/// A walk that starts with an empty queue goes nowhere.
proof fn empty_queue_stays(capacities: Seq<nat>, nodes: Seq<NodeFacts>, start: Walk, steps: nat)
    requires
        start.queue.len() == 0,
    ensures
        walked(capacities, nodes, start, steps) == start,
    decreases steps,
{
    if steps > 0 {
        empty_queue_stays(capacities, nodes, start, (steps - 1) as nat);
    }
}

/// In a graph without roots no hierarchy is placed: the cake stays empty
/// until the evolved nodes are placed.
pub proof fn no_roots_no_hierarchy(capacities: Seq<nat>, nodes: Seq<NodeFacts>)
    requires
        forall|j: int| 0 <= j < nodes.len() ==> (#[trigger] nodes[j]).kind != NodeType::Root,
    ensures
        hierarchy_placed(capacities, nodes) == crate::ui::cake::empty_cake(capacities.len()),
{
    let count = nodes.len() as int;
    roots_alone_are_placed(capacities, nodes, count);
    let roots = roots_placed(capacities, nodes, count);
    assert(roots == crate::ui::cake::empty_cake(capacities.len())) by {
        no_roots_placed(capacities, nodes, count);
    }
    nothing_is_seeded(roots, nodes, count);
    seeding_keeps_cake(roots, nodes, count);
    empty_queue_stays(capacities, nodes, seeded(roots, nodes, count), nodes.len());
}

proof fn no_roots_placed(capacities: Seq<nat>, nodes: Seq<NodeFacts>, upto: int)
    requires
        0 <= upto <= nodes.len(),
        forall|j: int| 0 <= j < nodes.len() ==> (#[trigger] nodes[j]).kind != NodeType::Root,
    ensures
        roots_placed(capacities, nodes, upto) == crate::ui::cake::empty_cake(capacities.len()),
    decreases upto,
{
    if upto > 0 {
        no_roots_placed(capacities, nodes, upto - 1);
    }
}

/// In a graph without roots, where no two nodes bear the same identifier, a
/// node that names no parent and is not of the evolution kind is an orphan
/// when the orphans are placed.
pub proof fn parentless_nodes_are_orphans(capacities: Seq<nat>, nodes: Seq<NodeFacts>, i: int)
    requires
        distinct_ids(nodes),
        forall|j: int| 0 <= j < nodes.len() ==> (#[trigger] nodes[j]).kind != NodeType::Root,
        0 <= i < nodes.len(),
        nodes[i].parent is None,
        nodes[i].kind != NodeType::Evolution,
    ensures
        is_orphan(nodes, evolved_cake(capacities, nodes), i),
{
    let hierarchy = hierarchy_placed(capacities, nodes);
    no_roots_no_hierarchy(capacities, nodes);
    evolutions_alone_are_placed(capacities, nodes, hierarchy, nodes.len() as int);
}

} // verus!
