//! What holds of every arrangement.

use vstd::prelude::*;
use crate::celestial::graph::Graph;
use crate::celestial::node_type::NodeType;
use crate::ui::scene_3d::Scene3D;
use crate::ui::cake::{
    loosened, stretched, within, anchor_of, arranged, children_visited, empty_cake, evolutions_placed, facts_of, free_tier, free_tier_is_first,
    hierarchy_placed, landing, lifted, moved, occupancy_at, orphans_placed, place, place_new, roots_before,
    roots_placed, seeded, total, walked, Cake, NodeFacts, Slot, Walk,
};

verus! {

/// Whether a property of cakes survives every placement of a node that has
/// no slot yet.
pub open spec fn survives_placing(capacities: Seq<nat>, holds: spec_fn(Cake) -> bool) -> bool {
    forall|cake: Cake, id: Seq<char>, tier: nat, position: nat|
        holds(cake) ==> #[trigger] holds(place_new(capacities, cake, id, tier, position))
}

/// No two nodes bear the same identifier.
pub open spec fn distinct_ids(nodes: Seq<NodeFacts>) -> bool {
    forall|a: int, b: int| 0 <= a < b < nodes.len() ==> nodes[a].id != nodes[b].id
}

/// The cake has one count for each tier, and no tier holds more than it has
/// room for.
pub open spec fn fits(capacities: Seq<nat>, cake: Cake) -> bool {
    &&& cake.occupancy.len() == capacities.len()
    &&& forall|t: int| 0 <= t < capacities.len() ==> cake.occupancy[t] <= capacities[t]
}

/// A property that survives placing holds on from any stage of placing the
/// roots.
pub proof fn roots_keep(
    capacities: Seq<nat>,
    nodes: Seq<NodeFacts>,
    holds: spec_fn(Cake) -> bool,
    from: int,
    upto: int,
)
    requires
        survives_placing(capacities, holds),
        0 <= from <= upto,
        holds(roots_placed(capacities, nodes, from)),
    ensures
        holds(roots_placed(capacities, nodes, upto)),
    decreases upto - from,
{
    if from < upto {
        roots_keep(capacities, nodes, holds, from, upto - 1);
    }
}

/// Queueing the roots leaves the cake as it is.
pub proof fn seeding_keeps_cake(cake: Cake, nodes: Seq<NodeFacts>, upto: int)
    ensures
        seeded(cake, nodes, upto).cake == cake,
    decreases upto,
{
    if upto > 0 {
        seeding_keeps_cake(cake, nodes, upto - 1);
    }
}

/// A property that survives placing survives a visit of the children of a node.
pub proof fn visit_keeps(
    capacities: Seq<nat>,
    nodes: Seq<NodeFacts>,
    holds: spec_fn(Cake) -> bool,
    walk: Walk,
    parent: int,
    tier: nat,
    upto: int,
)
    requires
        survives_placing(capacities, holds),
        holds(walk.cake),
    ensures
        holds(children_visited(capacities, nodes, walk, parent, tier, upto).cake),
    decreases upto,
{
    if upto > 0 {
        visit_keeps(capacities, nodes, holds, walk, parent, tier, upto - 1);
    }
}

/// A property that survives placing survives the walk of the hierarchy.
pub proof fn walk_keeps(
    capacities: Seq<nat>,
    nodes: Seq<NodeFacts>,
    holds: spec_fn(Cake) -> bool,
    start: Walk,
    steps: nat,
)
    requires
        survives_placing(capacities, holds),
        holds(start.cake),
    ensures
        holds(walked(capacities, nodes, start, steps).cake),
    decreases steps,
{
    if steps > 0 {
        walk_keeps(capacities, nodes, holds, start, (steps - 1) as nat);
        let walk = walked(capacities, nodes, start, (steps - 1) as nat);
        let head = steps - 1;
        if head < walk.queue.len() {
            visit_keeps(
                capacities,
                nodes,
                holds,
                walk,
                walk.queue[head].0,
                crate::ui::cake::child_tier(capacities.len(), walk.queue[head].1),
                nodes.len() as int,
            );
        }
    }
}

/// A property that survives placing survives the placing of the evolved nodes.
pub proof fn evolutions_keep(
    capacities: Seq<nat>,
    nodes: Seq<NodeFacts>,
    holds: spec_fn(Cake) -> bool,
    start: Cake,
    upto: int,
)
    requires
        survives_placing(capacities, holds),
        holds(start),
    ensures
        holds(evolutions_placed(capacities, nodes, start, upto)),
    decreases upto,
{
    if upto > 0 {
        evolutions_keep(capacities, nodes, holds, start, upto - 1);
    }
}

/// A property that survives placing holds on from any stage of placing the
/// orphans.
pub proof fn orphans_keep(
    capacities: Seq<nat>,
    nodes: Seq<NodeFacts>,
    holds: spec_fn(Cake) -> bool,
    start: Cake,
    from: int,
    upto: int,
)
    requires
        survives_placing(capacities, holds),
        0 <= from <= upto,
        holds(orphans_placed(capacities, nodes, start, from)),
    ensures
        holds(orphans_placed(capacities, nodes, start, upto)),
    decreases upto - from,
{
    if from < upto {
        orphans_keep(capacities, nodes, holds, start, from, upto - 1);
    }
}

/// What holds of the cake after the hierarchy was placed, and survives
/// placing, holds of the arranged cake.
pub proof fn rest_keeps(capacities: Seq<nat>, nodes: Seq<NodeFacts>, holds: spec_fn(Cake) -> bool)
    requires
        survives_placing(capacities, holds),
        holds(hierarchy_placed(capacities, nodes)),
    ensures
        holds(arranged(capacities, nodes)),
{
    let hierarchy = hierarchy_placed(capacities, nodes);
    evolutions_keep(capacities, nodes, holds, hierarchy, nodes.len() as int);
    let evolved = evolutions_placed(capacities, nodes, hierarchy, nodes.len() as int);
    orphans_keep(capacities, nodes, holds, evolved, 0, nodes.len() as int);
}

/// What holds of the cake at a stage of placing the roots, and survives
/// placing, holds of the cake after the hierarchy was placed.
pub proof fn hierarchy_keeps(
    capacities: Seq<nat>,
    nodes: Seq<NodeFacts>,
    holds: spec_fn(Cake) -> bool,
    from: int,
)
    requires
        survives_placing(capacities, holds),
        0 <= from <= nodes.len(),
        holds(roots_placed(capacities, nodes, from)),
    ensures
        holds(hierarchy_placed(capacities, nodes)),
{
    roots_keep(capacities, nodes, holds, from, nodes.len() as int);
    let roots = roots_placed(capacities, nodes, nodes.len() as int);
    seeding_keeps_cake(roots, nodes, nodes.len() as int);
    walk_keeps(capacities, nodes, holds, seeded(roots, nodes, nodes.len() as int), nodes.len());
}

/// What holds of the cake at a stage of placing the roots, and survives
/// placing, holds of the arranged cake.
pub proof fn arrangement_keeps(
    capacities: Seq<nat>,
    nodes: Seq<NodeFacts>,
    holds: spec_fn(Cake) -> bool,
    from: int,
)
    requires
        survives_placing(capacities, holds),
        0 <= from <= nodes.len(),
        holds(roots_placed(capacities, nodes, from)),
    ensures
        holds(arranged(capacities, nodes)),
{
    hierarchy_keeps(capacities, nodes, holds, from);
    rest_keeps(capacities, nodes, holds);
}

/// A placement on a cake that fits leaves a cake that fits.
pub proof fn placing_fits(capacities: Seq<nat>, cake: Cake, id: Seq<char>, tier: nat, position: nat)
    requires
        fits(capacities, cake),
    ensures
        fits(capacities, place(capacities, cake, id, tier, position)),
        fits(capacities, place_new(capacities, cake, id, tier, position)),
{
    free_tier_is_first(capacities, cake.occupancy, tier);
}

/// However a graph is arranged, no tier holds more nodes than it has room for.
pub proof fn arrangement_fits(capacities: Seq<nat>, nodes: Seq<NodeFacts>)
    ensures
        fits(capacities, arranged(capacities, nodes)),
{
    let holds = |cake: Cake| fits(capacities, cake);
    assert forall|cake: Cake, id: Seq<char>, tier: nat, position: nat| holds(cake) implies #[trigger] holds(
        place_new(capacities, cake, id, tier, position),
    ) by {
        placing_fits(capacities, cake, id, tier, position);
    }
    arrangement_keeps(capacities, nodes, holds, 0);
}

/// Adding a node to a cake that fits leaves a cake that fits.
pub proof fn adding_fits(capacities: Seq<nat>, cake: Cake, id: Seq<char>, parent: Option<Seq<char>>)
    requires
        fits(capacities, cake),
    ensures
        fits(capacities, crate::ui::cake::added(capacities, cake, id, parent)),
{
    let tier = crate::ui::cake::added_tier(capacities.len(), cake, parent);
    placing_fits(capacities, cake, id, tier, occupancy_at(cake, tier));
}

/// Moving a node on a cake that fits leaves a cake that fits.
pub proof fn moving_fits(capacities: Seq<nat>, cake: Cake, id: Seq<char>, target: nat)
    requires
        fits(capacities, cake),
    ensures
        fits(capacities, moved(capacities, cake, id, target)),
{
    if target < capacities.len() {
        let free = lifted(cake, id);
        placing_fits(capacities, free, id, target, occupancy_at(free, target));
    }
}

/// The arrangement of a graph is a matter of the rooms of the tiers and of
/// the identifiers, kinds, parents and titles of the nodes alone: two cakes
/// with the same rooms, each holding the arrangement of a graph with the same
/// such facts, hold the same nodes and give each the same tier and the same
/// anchor angle, whatever their plays are and did to the angles and radii.
/// So does one cake on which one graph is arranged twice, since arranging
/// changes none of these facts of the graph.
pub proof fn arrangement_is_determined(first: &Scene3D, second: &Scene3D, graph: &Graph, again: &Graph)
    requires
        first.cake() == arranged(first.capacities(), facts_of(graph)),
        second.cake() == arranged(second.capacities(), facts_of(again)),
        first.capacities() == second.capacities(),
        facts_of(again) == facts_of(graph),
    ensures
        first.occupancy() == second.occupancy(),
        forall|id: Seq<char>| first.records().contains_key(id) == second.records().contains_key(id),
        forall|id: Seq<char>| #[trigger]
            first.records().contains_key(id) ==> first.records()[id].layer == second.records()[id].layer
                && first.records()[id].anchor == second.records()[id].anchor,
{
    assert forall|id: Seq<char>| first.records().contains_key(id) == second.records().contains_key(id) by {
        assert(first.cake().slots.contains_key(id) == second.cake().slots.contains_key(id));
    }
    assert forall|id: Seq<char>| #[trigger] first.records().contains_key(id) implies first.records()[id].layer
        == second.records()[id].layer && first.records()[id].anchor == second.records()[id].anchor by {
        assert(first.cake().slots[id] == second.cake().slots[id]);
    }
}

/// Moving a node to the tier on which it stands changes no tier's count, and
/// so leaves their sum as it was. This is said of a node whose tier counts
/// at least one node, as it does wherever the counts agree with the records.
pub proof fn moving_in_place_keeps_counts(capacities: Seq<nat>, cake: Cake, id: Seq<char>)
    requires
        fits(capacities, cake),
        cake.slots.contains_key(id),
        cake.slots[id].layer < capacities.len(),
        cake.occupancy[cake.slots[id].layer as int] > 0,
    ensures
        moved(capacities, cake, id, cake.slots[id].layer).occupancy == cake.occupancy,
        total(moved(capacities, cake, id, cake.slots[id].layer).occupancy, capacities.len() as int) == total(
            cake.occupancy,
            capacities.len() as int,
        ),
        moved(capacities, cake, id, cake.slots[id].layer).slots[id].layer == cake.slots[id].layer,
{
    let tier = cake.slots[id].layer;
    assert(moved(capacities, cake, id, tier).occupancy =~= cake.occupancy);
}

/// Placing a node that has no slot leaves every slot that there is.
pub proof fn placing_keeps_slots(
    capacities: Seq<nat>,
    cake: Cake,
    id: Seq<char>,
    tier: nat,
    position: nat,
    other: Seq<char>,
)
    requires
        cake.slots.contains_key(other),
    ensures
        place_new(capacities, cake, id, tier, position).slots.contains_key(other),
        place_new(capacities, cake, id, tier, position).slots[other] == cake.slots[other],
{}

/// Whether node `j` is a root that bears the identifier `id`.
pub open spec fn is_root_named(nodes: Seq<NodeFacts>, j: int, id: Seq<char>) -> bool {
    nodes[j].id == id && nodes[j].kind == NodeType::Root
}

/// Every slot of the cake belongs to a root among the first `upto` nodes.
pub open spec fn only_roots(nodes: Seq<NodeFacts>, cake: Cake, upto: int) -> bool {
    forall|id: Seq<char>| #[trigger]
        cake.slots.contains_key(id) ==> exists|j: int| 0 <= j < upto && #[trigger] is_root_named(nodes, j, id)
}

/// The placing of the roots gives slots to roots alone.
pub proof fn roots_alone_are_placed(capacities: Seq<nat>, nodes: Seq<NodeFacts>, upto: int)
    requires
        0 <= upto <= nodes.len(),
    ensures
        only_roots(nodes, roots_placed(capacities, nodes, upto), upto),
    decreases upto,
{
    let cake = roots_placed(capacities, nodes, upto);
    if upto > 0 {
        roots_alone_are_placed(capacities, nodes, upto - 1);
        let before = roots_placed(capacities, nodes, upto - 1);
        assert forall|id: Seq<char>| #[trigger] cake.slots.contains_key(id) implies exists|j: int|
            0 <= j < upto && #[trigger] is_root_named(nodes, j, id) by {
            if !before.slots.contains_key(id) {
                assert(is_root_named(nodes, upto - 1, id));
            }
        }
    }
}

/// Where no two nodes bear the same identifier, a root has no slot before
/// its turn.
pub proof fn root_waits_its_turn(capacities: Seq<nat>, nodes: Seq<NodeFacts>, i: int)
    requires
        distinct_ids(nodes),
        0 <= i < nodes.len(),
    ensures
        !roots_placed(capacities, nodes, i).slots.contains_key(nodes[i].id),
{
    roots_alone_are_placed(capacities, nodes, i);
}

/// The placing of the roots leaves a cake that fits.
pub proof fn roots_fit(capacities: Seq<nat>, nodes: Seq<NodeFacts>, upto: int)
    requires
        0 <= upto,
    ensures
        fits(capacities, roots_placed(capacities, nodes, upto)),
{
    let holds = |cake: Cake| fits(capacities, cake);
    assert forall|cake: Cake, id: Seq<char>, tier: nat, position: nat| holds(cake) implies #[trigger] holds(
        place_new(capacities, cake, id, tier, position),
    ) by {
        placing_fits(capacities, cake, id, tier, position);
    }
    roots_keep(capacities, nodes, holds, 0, upto);
}

/// Where no two nodes bear the same identifier, the lowest tier holds as
/// many roots as there were, up to its room.
pub proof fn lowest_tier_fills(capacities: Seq<nat>, nodes: Seq<NodeFacts>, upto: int)
    requires
        distinct_ids(nodes),
        0 <= upto <= nodes.len(),
        capacities.len() > 0,
    ensures
        roots_placed(capacities, nodes, upto).occupancy.len() == capacities.len(),
        roots_placed(capacities, nodes, upto).occupancy[0] == if roots_before(nodes, upto) < capacities[0] {
            roots_before(nodes, upto)
        } else {
            capacities[0]
        },
    decreases upto,
{
    if upto > 0 {
        lowest_tier_fills(capacities, nodes, upto - 1);
        let before = roots_placed(capacities, nodes, upto - 1);
        if nodes[upto - 1].kind == NodeType::Root {
            root_waits_its_turn(capacities, nodes, upto - 1);
            roots_fit(capacities, nodes, upto - 1);
            free_tier_is_first(capacities, before.occupancy, 0);
        }
    }
}

/// Where no two nodes bear the same identifier, a root whose rank is within
/// the room of the lowest tier is put there at its turn, at the place of its
/// rank.
pub proof fn root_is_put_lowest(capacities: Seq<nat>, nodes: Seq<NodeFacts>, i: int)
    requires
        distinct_ids(nodes),
        0 <= i < nodes.len(),
        nodes[i].kind == NodeType::Root,
        capacities.len() > 0,
        roots_before(nodes, i) < capacities[0],
    ensures
        roots_placed(capacities, nodes, i + 1).slots.contains_key(nodes[i].id),
        roots_placed(capacities, nodes, i + 1).slots[nodes[i].id] == (Slot {
            layer: 0,
            anchor: anchor_of(capacities[0], roots_before(nodes, i)),
        }),
{
    root_waits_its_turn(capacities, nodes, i);
    lowest_tier_fills(capacities, nodes, i);
}

/// A root stands on the lowest tier, at the place of its rank among the
/// roots, whenever that rank is within the room of the lowest tier, and it
/// does so wherever in the graph it stands.
pub proof fn roots_stand_lowest(capacities: Seq<nat>, nodes: Seq<NodeFacts>, i: int)
    requires
        distinct_ids(nodes),
        0 <= i < nodes.len(),
        nodes[i].kind == NodeType::Root,
        capacities.len() > 0,
        roots_before(nodes, i) < capacities[0],
    ensures
        arranged(capacities, nodes).slots.contains_key(nodes[i].id),
        arranged(capacities, nodes).slots[nodes[i].id] == (Slot {
            layer: 0,
            anchor: anchor_of(capacities[0], roots_before(nodes, i)),
        }),
{
    root_is_put_lowest(capacities, nodes, i);
    let id = nodes[i].id;
    let slot = Slot { layer: 0, anchor: anchor_of(capacities[0], roots_before(nodes, i)) };
    let holds = |cake: Cake| cake.slots.contains_key(id) && cake.slots[id] == slot;
    assert forall|cake: Cake, other: Seq<char>, tier: nat, position: nat| holds(cake) implies #[trigger] holds(
        place_new(capacities, cake, other, tier, position),
    ) by {
        placing_keeps_slots(capacities, cake, other, tier, position, id);
    }
    arrangement_keeps(capacities, nodes, holds, i + 1);
}

/// Where no two nodes bear the same identifier, a root whose rank is beyond
/// the room of the lowest tier is put higher at its turn, if it is put on
/// the cake at all.
pub proof fn crowded_root_is_put_higher(capacities: Seq<nat>, nodes: Seq<NodeFacts>, i: int)
    requires
        distinct_ids(nodes),
        0 <= i < nodes.len(),
        nodes[i].kind == NodeType::Root,
        capacities.len() > 0,
        roots_before(nodes, i) >= capacities[0],
        roots_placed(capacities, nodes, i + 1).slots.contains_key(nodes[i].id),
    ensures
        roots_placed(capacities, nodes, i + 1).slots[nodes[i].id].layer > 0,
{
    root_waits_its_turn(capacities, nodes, i);
    lowest_tier_fills(capacities, nodes, i);
    let before = roots_placed(capacities, nodes, i);
    free_tier_is_first(capacities, before.occupancy, 0);
}

/// What the placing of the roots adds from one stage to a later one are
/// slots of the roots between the two.
pub proof fn later_roots_are_placed_later(capacities: Seq<nat>, nodes: Seq<NodeFacts>, from: int, upto: int)
    requires
        0 <= from <= upto <= nodes.len(),
    ensures
        forall|id: Seq<char>| #[trigger]
            roots_placed(capacities, nodes, upto).slots.contains_key(id) ==> roots_placed(
                capacities,
                nodes,
                from,
            ).slots.contains_key(id) || exists|j: int| from <= j < upto && #[trigger] is_root_named(nodes, j, id),
    decreases upto - from,
{
    if from < upto {
        later_roots_are_placed_later(capacities, nodes, from, upto - 1);
        let start = roots_placed(capacities, nodes, from);
        let before = roots_placed(capacities, nodes, upto - 1);
        let after = roots_placed(capacities, nodes, upto);
        assert forall|id: Seq<char>| #[trigger] after.slots.contains_key(id) implies start.slots.contains_key(id)
            || exists|j: int| from <= j < upto && #[trigger] is_root_named(nodes, j, id) by {
            if !before.slots.contains_key(id) {
                assert(is_root_named(nodes, upto - 1, id));
            }
        }
    }
}

/// The identifiers of the nodes that stand on `tier`.
pub open spec fn crowd(cake: Cake, tier: nat) -> Set<Seq<char>> {
    Set::new(|id: Seq<char>| cake.slots.contains_key(id) && cake.slots[id].layer == tier)
}

/// The counts agree with the slots: finitely many nodes stand on the cake,
/// each on one of its tiers, and every tier counts the nodes that stand on
/// it.
pub open spec fn counted(tiers: nat, cake: Cake) -> bool {
    &&& cake.occupancy.len() == tiers
    &&& cake.slots.dom().finite()
    &&& forall|id: Seq<char>| #[trigger] cake.slots.contains_key(id) ==> cake.slots[id].layer < tiers
    &&& forall|t: nat| t < tiers ==> (#[trigger] crowd(cake, t)).len() == cake.occupancy[t as int]
}

/// The crowd of a tier is finite where the cake holds finitely many nodes.
pub proof fn crowd_is_finite(cake: Cake, tier: nat)
    requires
        cake.slots.dom().finite(),
    ensures
        crowd(cake, tier).finite(),
{
    vstd::set_lib::lemma_len_subset(crowd(cake, tier), cake.slots.dom());
}

/// Placing a node that has no slot keeps the counts in agreement with the slots.
pub proof fn placing_keeps_count(capacities: Seq<nat>, cake: Cake, id: Seq<char>, tier: nat, position: nat)
    requires
        counted(capacities.len(), cake),
    ensures
        counted(capacities.len(), place_new(capacities, cake, id, tier, position)),
{
    let after = place_new(capacities, cake, id, tier, position);
    free_tier_is_first(capacities, cake.occupancy, tier);
    if !cake.slots.contains_key(id) {
        match free_tier(capacities, cake.occupancy, tier) {
            Some(found) => {
                assert forall|t: nat| t < capacities.len() implies (#[trigger] crowd(after, t)).len()
                    == after.occupancy[t as int] by {
                    crowd_is_finite(cake, t);
                    if t == found {
                        assert(crowd(after, t) =~= crowd(cake, t).insert(id));
                    } else {
                        assert(crowd(after, t) =~= crowd(cake, t));
                    }
                }
            },
            None => {},
        }
    }
}

/// After a graph was arranged, every tier counts exactly the nodes whose
/// records name it.
pub proof fn arrangement_is_counted(capacities: Seq<nat>, nodes: Seq<NodeFacts>)
    ensures
        counted(capacities.len(), arranged(capacities, nodes)),
{
    let holds = |cake: Cake| counted(capacities.len(), cake);
    assert forall|cake: Cake, id: Seq<char>, tier: nat, position: nat| holds(cake) implies #[trigger] holds(
        place_new(capacities, cake, id, tier, position),
    ) by {
        placing_keeps_count(capacities, cake, id, tier, position);
    }
    let empty = empty_cake(capacities.len());
    assert forall|t: nat| t < capacities.len() implies (#[trigger] crowd(empty, t)).len() == empty.occupancy[t as int] by {
        assert(crowd(empty, t) =~= Set::<Seq<char>>::empty());
    }
    arrangement_keeps(capacities, nodes, holds, 0);
}

/// In a valid graph no two nodes bear the same identifier.
pub proof fn graph_has_distinct_ids(graph: &Graph)
    requires
        graph.wf(),
    ensures
        distinct_ids(facts_of(graph)),
{
    graph.identifiers_are_distinct();
}

/// A graph without nodes leaves the cake empty.
pub proof fn empty_graph_leaves_cake_empty(capacities: Seq<nat>, nodes: Seq<NodeFacts>)
    requires
        nodes.len() == 0,
    ensures
        arranged(capacities, nodes) == empty_cake(capacities.len()),
{}

/// A radius that was loosened lies between the radius of the ring shrunk by
/// the whole play and the radius stretched by it.
pub proof fn loosened_radius_is_near(radius: int, ring: int, play: int)
    requires
        ring >= 0,
        0 <= play <= 1000,
        loosened(radius, ring, play),
    ensures
        stretched(ring, -play) <= radius <= stretched(ring, play),
        0 <= radius <= 2 * ring,
{
    let offset = choose|offset: int| #[trigger] within(offset, play) && radius == stretched(ring, offset);
    assert(ring * (1000 - play) <= ring * (1000 + offset) <= ring * (1000 + play)) by (nonlinear_arith)
        requires
            ring >= 0,
            -play <= offset <= play,
    ;
    assert(0 <= ring * (1000 - play) && ring * (1000 + play) <= ring * 2000) by (nonlinear_arith)
        requires
            ring >= 0,
            0 <= play <= 1000,
    ;
}

/// Where the counts agree with the slots, the tier of a node that stands on
/// the cake counts at least that node.
pub proof fn counted_tier_holds_its_nodes(tiers: nat, cake: Cake, id: Seq<char>)
    requires
        counted(tiers, cake),
        cake.slots.contains_key(id),
    ensures
        cake.slots[id].layer < tiers,
        cake.occupancy[cake.slots[id].layer as int] > 0,
{
    let tier = cake.slots[id].layer;
    crowd_is_finite(cake, tier);
    assert(crowd(cake, tier).contains(id));
    if crowd(cake, tier).len() == 0 {
        crowd(cake, tier).lemma_len0_is_empty();
    }
}

/// After a graph was arranged, moving a node to the tier on which it stands
/// changes no tier's count.
pub proof fn moving_in_place_after_arranging(capacities: Seq<nat>, nodes: Seq<NodeFacts>, id: Seq<char>)
    requires
        arranged(capacities, nodes).slots.contains_key(id),
    ensures
        moved(capacities, arranged(capacities, nodes), id, arranged(capacities, nodes).slots[id].layer).occupancy
            == arranged(capacities, nodes).occupancy,
{
    let cake = arranged(capacities, nodes);
    arrangement_is_counted(capacities, nodes);
    arrangement_fits(capacities, nodes);
    counted_tier_holds_its_nodes(capacities.len(), cake, id);
    moving_in_place_keeps_counts(capacities, cake, id);
}

} // verus!
