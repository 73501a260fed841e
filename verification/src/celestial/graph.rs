use vstd::prelude::*;
use crate::celestial::node::Node;
use crate::celestial::node_type::NodeType;
use crate::celestial::position::Position2D;
use crate::celestial::relation::{Relation, RelationType};
use crate::registry::Registry;

verus! {

/// How far, in thousandths, a node that evolves from another is set off from
/// it along each axis of the plane when no point is given for it.
pub const EVOLUTION_OFFSET: i128 = 50000;

/// The nodes of a universe, each under its identifier, and the links between
/// them. The nodes are walked in the order in which their identifiers were
/// first entered.
pub struct Graph {
    nodes: Registry<Node>,
    relations: Vec<Relation>,
}

/// The nodes that a list of references points at.
pub open spec fn shown(list: Seq<&Node>) -> Seq<Node> {
    Seq::new(list.len(), |i: int| *list[i])
}

/// Whether a link stays when what concerns `id` is cleared away: when
/// `by_endpoint` is set, the links that start or end at the node `id` go;
/// otherwise the link whose own identifier is `id` goes.
pub open spec fn keeps(link: Relation, id: Seq<char>, by_endpoint: bool) -> bool {
    if by_endpoint {
        link.source_id@ != id && link.target_id@ != id
    } else {
        link.id@ != id
    }
}

/// The links that stay, in their order.
pub open spec fn kept(links: Seq<Relation>, id: Seq<char>, by_endpoint: bool) -> Seq<Relation> {
    links.filter(|link: Relation| keeps(link, id, by_endpoint))
}

/// `value + EVOLUTION_OFFSET`, held at the largest number that fits.
pub open spec fn set_off(value: int) -> int {
    if value + EVOLUTION_OFFSET > i128::MAX {
        i128::MAX as int
    } else {
        value + EVOLUTION_OFFSET
    }
}

impl Graph {
    /// The identifiers of the nodes, in the order in which the graph is walked.
    pub closed spec fn ids(&self) -> Seq<Seq<char>> {
        self.nodes.ids()
    }

    /// The nodes, each at the index of its identifier.
    pub closed spec fn node_seq(&self) -> Seq<Node> {
        self.nodes.items()
    }

    /// The links, in the order in which they were added.
    pub closed spec fn links(&self) -> Seq<Relation> {
        self.relations@
    }

    /// No identifier occurs twice, and every identifier has its node.
    pub closed spec fn wf(&self) -> bool {
        self.nodes.wf()
    }

    /// Whether a node stands under `id`.
    pub open spec fn has(&self, id: Seq<char>) -> bool {
        self.ids().contains(id)
    }

    /// The index at which `id` stands, meaningful when it is present.
    pub open spec fn slot(&self, id: Seq<char>) -> int {
        self.ids().index_of(id)
    }

    /// The node under `id`, meaningful when it is present.
    pub open spec fn node(&self, id: Seq<char>) -> Node {
        self.node_seq()[self.slot(id)]
    }

    /// Nothing but the links differs between `self` and `before`.
    pub open spec fn same_nodes(&self, before: &Graph) -> bool {
        self.ids() == before.ids() && self.node_seq() == before.node_seq()
    }

    /// A node stands under `id`, entered as a map enters it: in place of the
    /// node that `id` had before, or behind all others when `id` is new.
    pub open spec fn stored(&self, before: &Graph, id: Seq<char>) -> bool {
        &&& self.has(id)
        &&& before.has(id) ==> {
            &&& self.ids() == before.ids()
            &&& self.node_seq() == before.node_seq().update(before.slot(id), self.node(id))
        }
        &&& !before.has(id) ==> {
            &&& self.ids() == before.ids().push(id)
            &&& self.node_seq() == before.node_seq().push(self.node(id))
        }
    }

    /// The last link is new and leads from `source` to `target`; the links
    /// before it are those of `before`.
    pub open spec fn linked(&self, before: &Graph, source: Seq<char>, target: Seq<char>, kind: RelationType) -> bool {
        &&& self.links().len() == before.links().len() + 1
        &&& self.links().drop_last() == before.links()
        &&& self.links().last().source_id@ == source
        &&& self.links().last().target_id@ == target
        &&& self.links().last().relation_type == kind
        &&& self.links().last().label is None
        &&& self.links().last().weight == 1000
    }

    /// The nodes reached from `parent` by the first `upto` links, in the order
    /// of those links. A link counts when it starts at `parent`, is of the
    /// parent or the child kind, and ends at a node of the graph.
    pub open spec fn children_upto(&self, parent: Seq<char>, upto: int) -> Seq<Node>
        decreases upto,
    {
        if upto <= 0 {
            Seq::empty()
        } else {
            let rest = self.children_upto(parent, upto - 1);
            let link = self.links()[upto - 1];
            if link.source_id@ == parent && is_family(link) && self.has(link.target_id@) {
                rest.push(self.node(link.target_id@))
            } else {
                rest
            }
        }
    }

    /// The index of the first among the first `upto` links that ends at
    /// `child` and is of the parent or the child kind.
    pub open spec fn parent_link(&self, child: Seq<char>, upto: int) -> Option<int>
        decreases upto,
    {
        if upto <= 0 {
            None
        } else {
            match self.parent_link(child, upto - 1) {
                Some(k) => Some(k),
                None => {
                    let link = self.links()[upto - 1];
                    if link.target_id@ == child && is_family(link) {
                        Some(upto - 1)
                    } else {
                        None
                    }
                },
            }
        }
    }

    /// The index of the first among the first `upto` links that starts at
    /// `from` and is of the evolution kind.
    pub open spec fn evolution_link(&self, from: Seq<char>, upto: int) -> Option<int>
        decreases upto,
    {
        if upto <= 0 {
            None
        } else {
            match self.evolution_link(from, upto - 1) {
                Some(k) => Some(k),
                None => {
                    let link = self.links()[upto - 1];
                    if link.source_id@ == from && link.relation_type == RelationType::Evolution {
                        Some(upto - 1)
                    } else {
                        None
                    }
                },
            }
        }
    }

    /// The nodes that follow `from` along evolution links, at most `steps` of
    /// them. The walk ends where no evolution link leaves, or where the link
    /// that leaves ends at no node of the graph.
    pub open spec fn successors(&self, from: Seq<char>, steps: nat) -> Seq<Node>
        decreases steps,
    {
        if steps == 0 {
            Seq::empty()
        } else {
            match self.evolution_link(from, self.links().len() as int) {
                Some(k) => {
                    let target = self.links()[k].target_id@;
                    if self.has(target) {
                        seq![self.node(target)] + self.successors(target, (steps - 1) as nat)
                    } else {
                        Seq::empty()
                    }
                },
                None => Seq::empty(),
            }
        }
    }

    /// The node `start`, if the graph has it, and then the nodes that follow
    /// it along evolution links. The walk takes at most as many steps as
    /// there are links, which cuts a circular chain short.
    pub open spec fn evolution_chain(&self, start: Seq<char>) -> Seq<Node> {
        let head = if self.has(start) {
            seq![self.node(start)]
        } else {
            Seq::empty()
        };
        head + self.successors(start, self.links().len())
    }

    /// In a valid graph every identifier has exactly one index and one node.
    pub proof fn identifiers_are_distinct(&self)
        requires
            self.wf(),
        ensures
            self.ids().no_duplicates(),
            self.ids().len() == self.node_seq().len(),
            forall|i: int| 0 <= i < self.ids().len() ==> self.slot(#[trigger] self.ids()[i]) == i,
    {
        assert forall|i: int| 0 <= i < self.ids().len() implies self.slot(#[trigger] self.ids()[i]) == i by {
            self.nodes.slot_is_unique(i);
        }
        self.nodes.validity();
    }

    pub fn new() -> (graph: Self)
        ensures
            graph.wf(),
            graph.ids().len() == 0,
            graph.node_seq().len() == 0,
            graph.links().len() == 0,
    {
        Self { nodes: Registry::new(), relations: Vec::new() }
    }

    /// Makes a node and enters it under its fresh identifier, which is returned.
    pub fn create_node(&mut self, title: String, node_type: NodeType, position: Position2D) -> (id: String)
        requires
            old(self).wf(),
        ensures
            final(self).wf(),
            final(self).links() == old(self).links(),
            final(self).stored(old(self), id@),
            final(self).node(id@).is_new(title, node_type, position),
            final(self).node(id@).id@ == id@,
    {
        let node = Node::new(title, node_type, position);
        self.insert_node(node)
    }

    /// Makes a node on the ring of a tier and enters it under its fresh
    /// identifier, which is returned.
    pub fn create_node_3d(
        &mut self,
        title: String,
        node_type: NodeType,
        layer: usize,
        radius: i128,
        angle: i128,
    ) -> (id: String)
        requires
            old(self).wf(),
        ensures
            final(self).wf(),
            final(self).links() == old(self).links(),
            final(self).stored(old(self), id@),
            final(self).node(id@).is_new_3d(title, node_type, layer, radius, angle),
            final(self).node(id@).id@ == id@,
    {
        let node = Node::new_3d(title, node_type, layer, radius, angle);
        self.insert_node(node)
    }

    /// Enters `node` under its own identifier, which is returned: in place
    /// of the node that the identifier had, or behind all others.
    pub fn insert_node(&mut self, node: Node) -> (id: String)
        requires
            old(self).wf(),
        ensures
            final(self).wf(),
            final(self).links() == old(self).links(),
            final(self).stored(old(self), id@),
            final(self).node(id@) == node,
            id@ == node.id@,
    {
        let id = node.id.clone();
        let ghost before = *self;
        self.nodes.insert(id.clone(), node);
        proof {
            if before.has(id@) {
                before.nodes.slot_in_range(id@);
            } else {
                let last = before.ids().len() as int;
                self.nodes.slot_is_unique(last);
            }
        }
        id
    }

    pub fn get_node(&self, id: &str) -> (node: Option<&Node>)
        requires
            self.wf(),
        ensures
            match node {
                Some(found) => self.has(id@) && *found == self.node(id@),
                None => !self.has(id@),
            },
    {
        self.nodes.get(id)
    }

    /// The node under `id`, to be changed in place. The graph is the old one
    /// but for what the caller makes of that node.
    pub fn get_node_mut(&mut self, id: &str) -> (node: Option<&mut Node>)
        requires
            old(self).wf(),
        ensures
            final(self).wf(),
            final(self).ids() == old(self).ids(),
            final(self).links() == old(self).links(),
            match node {
                Some(found) => {
                    &&& old(self).has(id@)
                    &&& *found == old(self).node(id@)
                    &&& final(self).node_seq() == old(self).node_seq().update(
                        old(self).slot(id@),
                        *final(found),
                    )
                },
                None => !old(self).has(id@) && final(self).node_seq() == old(self).node_seq(),
            },
    {
        self.nodes.get_mut(id)
    }

    /// The nodes, in the order in which the graph is walked.
    pub fn get_nodes(&self) -> (nodes: Vec<&Node>)
        requires
            self.wf(),
        ensures
            shown(nodes@) == self.node_seq(),
    {
        let mut nodes: Vec<&Node> = Vec::new();
        let mut i: usize = 0;
        while i < self.nodes.len()
            invariant
                self.wf(),
                i <= self.node_seq().len(),
                nodes@.len() == i,
                forall|j: int| 0 <= j < i ==> *nodes@[j] == self.node_seq()[j],
            decreases self.node_seq().len() - i,
        {
            nodes.push(self.nodes.value_at(i));
            i += 1;
        }
        nodes
    }

    /// The identifier at index `i` of the walk.
    pub fn id_at(&self, i: usize) -> (id: &String)
        requires
            self.wf(),
            i < self.ids().len(),
        ensures
            id@ == self.ids()[i as int],
    {
        self.nodes.key_at(i)
    }

    /// The node at index `i` of the walk.
    pub fn node_at(&self, i: usize) -> (node: &Node)
        requires
            self.wf(),
            i < self.ids().len(),
        ensures
            *node == self.node_seq()[i as int],
    {
        self.nodes.value_at(i)
    }

    /// The links, in the order in which they were added.
    pub fn get_relations(&self) -> (links: &Vec<Relation>)
        ensures
            links@ == self.links(),
    {
        &self.relations
    }

    /// Makes a node as a child of the node `parent_id` and links the two by a
    /// hierarchy link. Nothing happens when the graph has no node `parent_id`.
    pub fn create_child_node(
        &mut self,
        title: String,
        node_type: NodeType,
        parent_id: &str,
        position: Position2D,
    ) -> (id: Option<String>)
        requires
            old(self).wf(),
        ensures
            final(self).wf(),
            id is Some <==> old(self).has(parent_id@),
            id is None ==> final(self).same_nodes(old(self)) && final(self).links() == old(self).links(),
            id matches Some(child) ==> {
                let made = final(self).node(child@);
                &&& final(self).stored(old(self), child@)
                &&& made.id@ == child@
                &&& (Node { parent_id: None, ..made }).is_new(title, node_type, position)
                &&& made.parent_id matches Some(parent) && parent@ == parent_id@
                &&& final(self).linked(old(self), parent_id@, child@, RelationType::Hierarchy)
            },
    {
        if self.nodes.get(parent_id).is_none() {
            return None;
        }
        let node = Node::new(title, node_type, position).with_parent(parent_id.to_owned());
        let id = self.insert_node(node);
        self.add_relation(parent_id, id.as_str(), RelationType::Hierarchy);
        Some(id)
    }

    /// Makes a node of the kind of the node `base_node_id` and links the two
    /// by an evolution link. Without a point the new node is set off from its
    /// base by `EVOLUTION_OFFSET` along both axes. Nothing happens when the
    /// graph has no node `base_node_id`.
    pub fn evolve_node(&mut self, base_node_id: &str, title: String, position: Option<Position2D>) -> (id: Option<String>)
        requires
            old(self).wf(),
        ensures
            final(self).wf(),
            id is Some <==> old(self).has(base_node_id@),
            id is None ==> final(self).same_nodes(old(self)) && final(self).links() == old(self).links(),
            id matches Some(next) ==> {
                let base = old(self).node(base_node_id@);
                let place = match position {
                    Some(given) => given,
                    None => Position2D {
                        x: set_off(base.position.x as int) as i128,
                        y: set_off(base.position.y as int) as i128,
                    },
                };
                &&& final(self).stored(old(self), next@)
                &&& final(self).node(next@).id@ == next@
                &&& final(self).node(next@).is_new(title, base.node_type, place)
                &&& final(self).linked(old(self), base_node_id@, next@, RelationType::Evolution)
            },
    {
        let (kind, place) = match self.nodes.get(base_node_id) {
            Some(base) => {
                let place = match position {
                    Some(given) => given,
                    None => Position2D::new(
                        Self::shifted(base.position.x),
                        Self::shifted(base.position.y),
                    ),
                };
                (base.node_type, place)
            },
            None => {
                return None;
            },
        };
        let node = Node::new(title, kind, place);
        let id = self.insert_node(node);
        self.add_relation(base_node_id, id.as_str(), RelationType::Evolution);
        Some(id)
    }

    fn shifted(value: i128) -> (moved: i128)
        ensures
            moved == set_off(value as int),
    {
        if value > i128::MAX - EVOLUTION_OFFSET {
            i128::MAX
        } else {
            value + EVOLUTION_OFFSET
        }
    }

    /// Adds a link from `source_id` to `target_id`. Neither has to be a node
    /// of the graph.
    pub fn add_relation(&mut self, source_id: &str, target_id: &str, relation_type: RelationType)
        ensures
            final(self).wf() == old(self).wf(),
            final(self).same_nodes(old(self)),
            final(self).linked(old(self), source_id@, target_id@, relation_type),
    {
        let relation = Relation::new(source_id.to_owned(), target_id.to_owned(), relation_type);
        let ghost before = self.relations@;
        self.relations.push(relation);
        assert(self.relations@.drop_last() =~= before);
    }

    /// Adds a link as it is, behind the links that there are.
    pub fn insert_relation(&mut self, relation: Relation)
        ensures
            final(self).wf() == old(self).wf(),
            final(self).same_nodes(old(self)),
            final(self).links() == old(self).links().push(relation),
    {
        self.relations.push(relation);
    }

    /// The same as `add_relation`.
    pub fn create_relation(&mut self, source_id: &str, target_id: &str, relation_type: RelationType)
        ensures
            final(self).wf() == old(self).wf(),
            final(self).same_nodes(old(self)),
            final(self).linked(old(self), source_id@, target_id@, relation_type),
    {
        self.add_relation(source_id, target_id, relation_type);
    }

    /// Takes out the links whose identifier is `relation_id`.
    pub fn remove_relation(&mut self, relation_id: &str)
        ensures
            final(self).wf() == old(self).wf(),
            final(self).same_nodes(old(self)),
            final(self).links() == kept(old(self).links(), relation_id@, false),
    {
        self.clear_links(relation_id, false);
    }

    /// Takes out the node `node_id`, if there is one, and every link that
    /// starts or ends at it.
    pub fn remove_node(&mut self, node_id: &str)
        requires
            old(self).wf(),
        ensures
            final(self).wf(),
            !final(self).has(node_id@),
            old(self).has(node_id@) ==> {
                &&& final(self).ids() == old(self).ids().remove(old(self).slot(node_id@))
                &&& final(self).node_seq() == old(self).node_seq().remove(old(self).slot(node_id@))
            },
            !old(self).has(node_id@) ==> final(self).same_nodes(old(self)),
            final(self).links() == kept(old(self).links(), node_id@, true),
    {
        let _ = self.nodes.remove(node_id);
        self.clear_links(node_id, true);
    }

    /// Takes out the links that `keeps` does not keep.
    fn clear_links(&mut self, id: &str, by_endpoint: bool)
        ensures
            final(self).nodes == old(self).nodes,
            final(self).links() == kept(old(self).links(), id@, by_endpoint),
    {
        let key = id.to_owned();
        let ghost all = self.relations@;
        let ghost mut done: int = 0;
        let mut i: usize = 0;
        proof {
            reveal(Seq::filter);
        }
        while i < self.relations.len()
            invariant
                self.nodes == old(self).nodes,
                key@ == id@,
                0 <= done <= all.len(),
                i == kept(all.take(done), id@, by_endpoint).len(),
                self.relations@ == kept(all.take(done), id@, by_endpoint) + all.skip(done),
            decreases all.len() - done,
        {
            proof {
                let next = all.take(done + 1);
                assert(next.drop_last() =~= all.take(done));
                reveal(Seq::filter);
            }
            let link = &self.relations[i];
            let stays = if by_endpoint {
                link.source_id != key && link.target_id != key
            } else {
                link.id != key
            };
            if stays {
                i += 1;
            } else {
                let _ = self.relations.remove(i);
            }
            proof {
                done = done + 1;
            }
        }
    }

    /// The nodes that parent or child links lead to from `parent_id`.
    pub fn get_children(&self, parent_id: &str) -> (children: Vec<&Node>)
        requires
            self.wf(),
        ensures
            shown(children@) == self.children_upto(parent_id@, self.links().len() as int),
    {
        let key = parent_id.to_owned();
        let mut children: Vec<&Node> = Vec::new();
        let mut i: usize = 0;
        while i < self.relations.len()
            invariant
                self.wf(),
                key@ == parent_id@,
                i <= self.links().len(),
                shown(children@) == self.children_upto(parent_id@, i as int),
            decreases self.links().len() - i,
        {
            let link = &self.relations[i];
            if link.source_id == key && link.is_parent_child() {
                match self.nodes.get(link.target_id.as_str()) {
                    Some(node) => {
                        children.push(node);
                    },
                    None => {},
                }
            }
            i += 1;
        }
        children
    }

    /// The node from which the first parent or child link leads to
    /// `child_id`. There is none when no such link exists, or when the first
    /// one starts at no node of the graph.
    pub fn get_parent(&self, child_id: &str) -> (parent: Option<&Node>)
        requires
            self.wf(),
        ensures
            match self.parent_link(child_id@, self.links().len() as int) {
                Some(k) => {
                    let source = self.links()[k].source_id@;
                    if self.has(source) {
                        parent matches Some(found) && *found == self.node(source)
                    } else {
                        parent is None
                    }
                },
                None => parent is None,
            },
    {
        let key = child_id.to_owned();
        let mut i: usize = 0;
        while i < self.relations.len()
            invariant
                self.wf(),
                key@ == child_id@,
                i <= self.links().len(),
                self.parent_link(child_id@, i as int) is None,
            decreases self.links().len() - i,
        {
            let link = &self.relations[i];
            if link.target_id == key && link.is_parent_child() {
                proof {
                    self.parent_link_stays(child_id@, i as int + 1, self.links().len() as int);
                }
                return self.nodes.get(link.source_id.as_str());
            }
            i += 1;
        }
        None
    }

    /// A link found among the first `from` links is found among the first
    /// `upto` as well.
    proof fn parent_link_stays(&self, child: Seq<char>, from: int, upto: int)
        requires
            from <= upto,
            self.parent_link(child, from) is Some,
        ensures
            self.parent_link(child, upto) == self.parent_link(child, from),
        decreases upto - from,
    {
        if from < upto {
            self.parent_link_stays(child, from, upto - 1);
        }
    }

    proof fn evolution_link_stays(&self, source: Seq<char>, from: int, upto: int)
        requires
            from <= upto,
            self.evolution_link(source, from) is Some,
        ensures
            self.evolution_link(source, upto) == self.evolution_link(source, from),
        decreases upto - from,
    {
        if from < upto {
            self.evolution_link_stays(source, from, upto - 1);
        }
    }

    /// The index of the first evolution link that starts at `from`.
    fn next_evolution(&self, from: &String) -> (found: Option<usize>)
        ensures
            match found {
                Some(k) => self.evolution_link(from@, self.links().len() as int) == Some(k as int)
                    && k < self.links().len(),
                None => self.evolution_link(from@, self.links().len() as int) is None,
            },
    {
        let mut i: usize = 0;
        while i < self.relations.len()
            invariant
                i <= self.links().len(),
                self.evolution_link(from@, i as int) is None,
            decreases self.links().len() - i,
        {
            let link = &self.relations[i];
            if link.source_id == *from && link.relation_type == RelationType::Evolution {
                proof {
                    self.evolution_link_stays(from@, i as int + 1, self.links().len() as int);
                }
                return Some(i);
            }
            i += 1;
        }
        None
    }

    /// The node `node_id` and those that evolved from it, one after another.
    pub fn get_evolution_chain(&self, node_id: &str) -> (chain: Vec<&Node>)
        requires
            self.wf(),
        ensures
            shown(chain@) == self.evolution_chain(node_id@),
    {
        let mut chain: Vec<&Node> = Vec::new();
        let mut current: String = node_id.to_owned();
        match self.nodes.get(node_id) {
            Some(node) => {
                chain.push(node);
            },
            None => {},
        }
        let mut steps: usize = self.relations.len();
        while steps > 0
            invariant
                self.wf(),
                steps <= self.links().len(),
                shown(chain@) + self.successors(current@, steps as nat) == self.evolution_chain(node_id@),
            decreases steps,
        {
            match self.next_evolution(&current) {
                Some(k) => {
                    let target = &self.relations[k].target_id;
                    match self.nodes.get(target.as_str()) {
                        Some(node) => {
                            chain.push(node);
                            current = target.clone();
                            steps -= 1;
                        },
                        None => {
                            return chain;
                        },
                    }
                },
                None => {
                    return chain;
                },
            }
        }
        chain
    }

    pub fn node_count(&self) -> (count: usize)
        requires
            self.wf(),
        ensures
            count == self.ids().len(),
            count == self.node_seq().len(),
    {
        self.nodes.len()
    }

    pub fn relation_count(&self) -> (count: usize)
        ensures
            count == self.links().len(),
    {
        self.relations.len()
    }

    pub fn is_empty(&self) -> (empty: bool)
        requires
            self.wf(),
        ensures
            empty == (self.ids().len() == 0),
    {
        self.nodes.len() == 0
    }
}

/// Whether a link is of the parent or of the child kind.
pub open spec fn is_family(link: Relation) -> bool {
    link.relation_type == RelationType::Parent || link.relation_type == RelationType::Child
}

} // verus!
