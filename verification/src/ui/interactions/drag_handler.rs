use vstd::prelude::*;
use crate::celestial::graph::Graph;
use crate::celestial::node::Node;
use crate::celestial::position::Position2D;

verus! {

/// How near to the middle of a node the pointer has to be to hit it, in
/// thousandths.
pub const REACH: i128 = 20000;

/// What a drag is doing.
#[derive(Clone, Copy, Debug, PartialEq, Eq, Structural)]
pub enum DragMode {
    Idle,
    ViewPan,
    CreateNode,
    MoveNode,
    DrawConnection,
}

/// What the pointer did since it was last looked at. `hover_pos` is where it
/// is, if it is over the view; `drag_delta` is how far it dragged.
#[derive(Clone, Copy, Debug)]
pub struct Pointer {
    pub hover_pos: Option<Position2D>,
    pub double_clicked: bool,
    pub drag_started: bool,
    pub secondary_down: bool,
    pub primary_down: bool,
    pub dragged: bool,
    pub drag_delta: Position2D,
    pub drag_released: bool,
    pub clicked: bool,
}

/// What the view is asked to do.
#[derive(Debug)]
pub enum DragAction {
    SelectNode(String),
    Deselect,
    StartViewPan,
    StartDrawConnection(String, Position2D),
    StartMoveNode(String),
    ViewPan(Position2D),
    DrawingConnection { source_id: String, current_pos: Position2D },
    Dragging { node_id: String, mode: DragMode, current_pos: Position2D },
    EndDrawConnection { source_id: String, end_pos: Position2D },
    EndMoveNode { node_id: String, end_pos: Position2D },
    RequestCreateNode(Position2D),
    NodeDoubleClicked(String),
    CreateChildNode { parent_id: String, position: Position2D },
}

/// A `DragAction` with its identifiers as characters.
pub enum Gesture {
    SelectNode(Seq<char>),
    Deselect,
    StartViewPan,
    StartDrawConnection(Seq<char>, Position2D),
    StartMoveNode(Seq<char>),
    ViewPan(Position2D),
    DrawingConnection { source_id: Seq<char>, current_pos: Position2D },
    Dragging { node_id: Seq<char>, mode: DragMode, current_pos: Position2D },
    EndDrawConnection { source_id: Seq<char>, end_pos: Position2D },
    EndMoveNode { node_id: Seq<char>, end_pos: Position2D },
    RequestCreateNode(Position2D),
    NodeDoubleClicked(Seq<char>),
    CreateChildNode { parent_id: Seq<char>, position: Position2D },
}

impl DragAction {
    /// The action with its identifiers as characters.
    pub open spec fn gesture(self) -> Gesture {
        match self {
            DragAction::SelectNode(id) => Gesture::SelectNode(id@),
            DragAction::Deselect => Gesture::Deselect,
            DragAction::StartViewPan => Gesture::StartViewPan,
            DragAction::StartDrawConnection(id, pos) => Gesture::StartDrawConnection(id@, pos),
            DragAction::StartMoveNode(id) => Gesture::StartMoveNode(id@),
            DragAction::ViewPan(delta) => Gesture::ViewPan(delta),
            DragAction::DrawingConnection { source_id, current_pos } => Gesture::DrawingConnection {
                source_id: source_id@,
                current_pos,
            },
            DragAction::Dragging { node_id, mode, current_pos } => Gesture::Dragging {
                node_id: node_id@,
                mode,
                current_pos,
            },
            DragAction::EndDrawConnection { source_id, end_pos } => Gesture::EndDrawConnection {
                source_id: source_id@,
                end_pos,
            },
            DragAction::EndMoveNode { node_id, end_pos } => Gesture::EndMoveNode { node_id: node_id@, end_pos },
            DragAction::RequestCreateNode(pos) => Gesture::RequestCreateNode(pos),
            DragAction::NodeDoubleClicked(id) => Gesture::NodeDoubleClicked(id@),
            DragAction::CreateChildNode { parent_id, position } => Gesture::CreateChildNode {
                parent_id: parent_id@,
                position,
            },
        }
    }
}

/// The gesture of an action, if there is one.
pub open spec fn gesture_of(action: Option<DragAction>) -> Option<Gesture> {
    match action {
        Some(a) => Some(a.gesture()),
        None => None,
    }
}

/// The drag that is under way: what it is doing, and the node that it
/// started on with the place where it started.
pub struct DragHandler {
    pub drag_mode: DragMode,
    pub dragging: Option<(String, Position2D)>,
}

/// The node on which a drag started, as characters.
pub open spec fn grip(dragging: Option<(String, Position2D)>) -> Option<Seq<char>> {
    match dragging {
        Some(held) => Some(held.0@),
        None => None,
    }
}

/// Whether the pointer at `pos` hits a node that stands at `at`: it is less
/// than `REACH` away from it.
pub open spec fn hits(at: Position2D, pos: Position2D) -> bool {
    let dx = at.x - pos.x;
    let dy = at.y - pos.y;
    dx * dx + dy * dy < REACH * REACH
}

/// The index of the first among the first `upto` nodes that the pointer at
/// `pos` hits.
pub open spec fn first_hit(nodes: Seq<Node>, pos: Position2D, upto: int) -> Option<int>
    decreases upto,
{
    if upto <= 0 {
        None
    } else {
        match first_hit(nodes, pos, upto - 1) {
            Some(i) => Some(i),
            None => if hits(nodes[upto - 1].position, pos) {
                Some(upto - 1)
            } else {
                None
            },
        }
    }
}

/// What a handler makes of the pointer: the gesture that it answers, and the
/// drag that is under way afterwards.
pub struct Verdict {
    pub gesture: Option<Gesture>,
    pub drag_mode: DragMode,
    pub grip: Option<Seq<char>>,
    pub grip_moved: bool,
}

/// What a handler in `mode`, holding the node `held`, makes of the pointer
/// over the nodes `nodes`, which bear the identifiers `ids`.
///
/// A pointer that is not over the view is nothing to the handler. Else the
/// first of these that applies decides. A double click opens the node that
/// it hits, or asks for a node where it hits none. The start of a drag with
/// the secondary button on a node starts a connection from it; with the
/// primary button, and not the secondary, it starts to move the node that it
/// hits, or to pan the view where it hits none. A drag goes on with what it
/// was doing. The release of a drag ends it: a connection that was drawn
/// asks for a child of its node at the place of the release, and a move ends
/// there. A click selects the node that it hits, or clears the selection.
pub open spec fn verdict(
    mode: DragMode,
    held: Option<Seq<char>>,
    pointer: Pointer,
    ids: Seq<Seq<char>>,
    nodes: Seq<Node>,
) -> Verdict {
    let stays = Verdict { gesture: None, drag_mode: mode, grip: held, grip_moved: false };
    match pointer.hover_pos {
        None => stays,
        Some(pos) => {
            let hit = first_hit(nodes, pos, nodes.len() as int);
            if pointer.double_clicked {
                Verdict {
                    gesture: Some(
                        match hit {
                            Some(i) => Gesture::NodeDoubleClicked(ids[i]),
                            None => Gesture::RequestCreateNode(pos),
                        },
                    ),
                    ..stays
                }
            } else if pointer.drag_started && pointer.secondary_down && hit is Some {
                Verdict {
                    gesture: Some(Gesture::StartDrawConnection(ids[hit->0], pos)),
                    drag_mode: DragMode::DrawConnection,
                    grip: Some(ids[hit->0]),
                    grip_moved: true,
                }
            } else if pointer.drag_started && !pointer.secondary_down && pointer.primary_down {
                match hit {
                    Some(i) => Verdict {
                        gesture: Some(Gesture::StartMoveNode(ids[i])),
                        drag_mode: DragMode::MoveNode,
                        grip: Some(ids[i]),
                        grip_moved: true,
                    },
                    None => Verdict { gesture: Some(Gesture::StartViewPan), drag_mode: DragMode::ViewPan, ..stays },
                }
            } else if pointer.dragged && mode == DragMode::ViewPan {
                Verdict { gesture: Some(Gesture::ViewPan(pointer.drag_delta)), ..stays }
            } else if pointer.dragged && mode == DragMode::DrawConnection && held is Some {
                Verdict {
                    gesture: Some(Gesture::DrawingConnection { source_id: held->0, current_pos: pos }),
                    ..stays
                }
            } else if pointer.dragged && mode == DragMode::MoveNode && held is Some {
                Verdict {
                    gesture: Some(Gesture::Dragging { node_id: held->0, mode, current_pos: pos }),
                    ..stays
                }
            } else if pointer.drag_released {
                Verdict {
                    gesture: match held {
                        Some(id) => if mode == DragMode::DrawConnection {
                            Some(Gesture::CreateChildNode { parent_id: id, position: pos })
                        } else if mode == DragMode::MoveNode {
                            Some(Gesture::EndMoveNode { node_id: id, end_pos: pos })
                        } else {
                            None
                        },
                        None => None,
                    },
                    drag_mode: DragMode::Idle,
                    grip: None,
                    grip_moved: false,
                }
            } else if pointer.clicked {
                Verdict {
                    gesture: Some(
                        match hit {
                            Some(i) => Gesture::SelectNode(ids[i]),
                            None => Gesture::Deselect,
                        },
                    ),
                    ..stays
                }
            } else {
                stays
            }
        },
    }
}

/// A hit found among the first `from` nodes is found among the first `upto`.
proof fn first_hit_stays(nodes: Seq<Node>, pos: Position2D, from: int, upto: int)
    requires
        from <= upto,
        first_hit(nodes, pos, from) is Some,
    ensures
        first_hit(nodes, pos, upto) == first_hit(nodes, pos, from),
    decreases upto - from,
{
    if from < upto {
        first_hit_stays(nodes, pos, from, upto - 1);
    }
}

/// The difference of two coordinates where it is less than `REACH` either way.
fn within_reach(a: i128, b: i128) -> (gap: Option<i128>)
    ensures
        match gap {
            Some(d) => d == a - b && -REACH < d < REACH,
            None => a - b <= -REACH || a - b >= REACH,
        },
{
    if (a >= 0 && b >= 0) || (a < 0 && b < 0) {
        let d: i128 = a - b;
        if -REACH < d && d < REACH {
            Some(d)
        } else {
            None
        }
    } else if a >= 0 {
        if a < REACH && b > -REACH {
            let d: i128 = a - b;
            if d < REACH {
                Some(d)
            } else {
                None
            }
        } else {
            None
        }
    } else {
        if b < REACH && a > -REACH {
            let d: i128 = a - b;
            if d > -REACH {
                Some(d)
            } else {
                None
            }
        } else {
            None
        }
    }
}

impl DragHandler {
    pub fn new() -> (handler: Self)
        ensures
            handler.drag_mode == DragMode::Idle,
            handler.dragging is None,
    {
        Self { drag_mode: DragMode::Idle, dragging: None }
    }

    /// Whether the pointer at `pos` hits `node`.
    pub fn is_pos_in_node(&self, node: &Node, pos: Position2D) -> (hit: bool)
        ensures
            hit == hits(node.position, pos),
    {
        match within_reach(node.position.x, pos.x) {
            Some(dx) => match within_reach(node.position.y, pos.y) {
                Some(dy) => {
                    assert(0 <= dx * dx <= 400000000 && 0 <= dy * dy <= 400000000) by (nonlinear_arith)
                        requires
                            -20000 < dx < 20000,
                            -20000 < dy < 20000,
                    ;
                    dx * dx + dy * dy < REACH * REACH
                },
                None => {
                    let ghost dy = node.position.y - pos.y;
                    assert(dx * dx >= 0 && dy * dy >= REACH * REACH) by (nonlinear_arith)
                        requires
                            dy <= -REACH || dy >= REACH,
                    ;
                    false
                },
            },
            None => {
                let ghost dx = node.position.x - pos.x;
                let ghost dy = node.position.y - pos.y;
                assert(dy * dy >= 0 && dx * dx >= REACH * REACH) by (nonlinear_arith)
                    requires
                        dx <= -REACH || dx >= REACH,
                ;
                false
            },
        }
    }

    /// The index of the first node of the graph that the pointer at `pos` hits.
    fn find_hit(&self, graph: &Graph, pos: Position2D) -> (hit: Option<usize>)
        requires
            graph.wf(),
        ensures
            match hit {
                Some(i) => first_hit(graph.node_seq(), pos, graph.node_seq().len() as int) == Some(i as int)
                    && i < graph.ids().len(),
                None => first_hit(graph.node_seq(), pos, graph.node_seq().len() as int) is None,
            },
    {
        let count: usize = graph.node_count();
        let mut i: usize = 0;
        while i < count
            invariant
                graph.wf(),
                count == graph.node_seq().len(),
                count == graph.ids().len(),
                i <= count,
                first_hit(graph.node_seq(), pos, i as int) is None,
            decreases count - i,
        {
            if self.is_pos_in_node(graph.node_at(i), pos) {
                proof {
                    first_hit_stays(graph.node_seq(), pos, i as int + 1, count as int);
                }
                return Some(i);
            }
            i += 1;
        }
        None
    }

    /// Answers what the pointer did with what the view is to do, and keeps
    /// track of the drag that is under way. The nodes are tried in the order
    /// of the graph, and a node is known by the identifier under which the
    /// graph holds it.
    pub fn handle_drag(&mut self, pointer: &Pointer, graph: &Graph) -> (action: Option<DragAction>)
        requires
            graph.wf(),
        ensures
            ({
                let made = verdict(
                    old(self).drag_mode,
                    grip(old(self).dragging),
                    *pointer,
                    graph.ids(),
                    graph.node_seq(),
                );
                &&& gesture_of(action) == made.gesture
                &&& final(self).drag_mode == made.drag_mode
                &&& grip(final(self).dragging) == made.grip
                &&& if made.grip_moved {
                    final(self).dragging matches Some(held) && Some(held.1) == pointer.hover_pos
                } else {
                    made.grip is Some ==> final(self).dragging == old(self).dragging
                }
            }),
    {
        let pos: Position2D = match pointer.hover_pos {
            Some(pos) => pos,
            None => {
                return None;
            },
        };
        let hit: Option<usize> = self.find_hit(graph, pos);
        if pointer.double_clicked {
            return Some(
                match hit {
                    Some(i) => DragAction::NodeDoubleClicked(graph.id_at(i).clone()),
                    None => DragAction::RequestCreateNode(pos),
                },
            );
        }
        if pointer.drag_started {
            if pointer.secondary_down {
                match hit {
                    Some(i) => {
                        let id: String = graph.id_at(i).clone();
                        self.drag_mode = DragMode::DrawConnection;
                        self.dragging = Some((id.clone(), pos));
                        return Some(DragAction::StartDrawConnection(id, pos));
                    },
                    None => {},
                }
            } else if pointer.primary_down {
                match hit {
                    Some(i) => {
                        let id: String = graph.id_at(i).clone();
                        self.drag_mode = DragMode::MoveNode;
                        self.dragging = Some((id.clone(), pos));
                        return Some(DragAction::StartMoveNode(id));
                    },
                    None => {
                        self.drag_mode = DragMode::ViewPan;
                        return Some(DragAction::StartViewPan);
                    },
                }
            }
        }
        if pointer.dragged {
            match self.drag_mode {
                DragMode::ViewPan => {
                    return Some(DragAction::ViewPan(pointer.drag_delta));
                },
                DragMode::DrawConnection => match &self.dragging {
                    Some(held) => {
                        return Some(
                            DragAction::DrawingConnection { source_id: held.0.clone(), current_pos: pos },
                        );
                    },
                    None => {},
                },
                DragMode::MoveNode => match &self.dragging {
                    Some(held) => {
                        return Some(
                            DragAction::Dragging {
                                node_id: held.0.clone(),
                                mode: DragMode::MoveNode,
                                current_pos: pos,
                            },
                        );
                    },
                    None => {},
                },
                _ => {},
            }
        }
        if pointer.drag_released {
            let held: Option<(String, Position2D)> = self.dragging.take();
            let mode: DragMode = self.drag_mode;
            self.drag_mode = DragMode::Idle;
            return match held {
                Some(grip) => match mode {
                    DragMode::DrawConnection => Some(DragAction::CreateChildNode { parent_id: grip.0, position: pos }),
                    DragMode::MoveNode => Some(DragAction::EndMoveNode { node_id: grip.0, end_pos: pos }),
                    _ => None,
                },
                None => None,
            };
        }
        if pointer.clicked {
            return Some(
                match hit {
                    Some(i) => DragAction::SelectNode(graph.id_at(i).clone()),
                    None => DragAction::Deselect,
                },
            );
        }
        None
    }
}

} // verus!
