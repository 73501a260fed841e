//! What is worked out before the cake is drawn: the platforms of the tiers,
//! the stars of the background and the look of the links. Projecting to the
//! screen and painting are for the caller.

use vstd::prelude::*;
use crate::celestial::graph::Graph;
use crate::celestial::node::Node;
use crate::celestial::position::{add_held, held, LAYER_HEIGHT_UNIT};

verus! {

/// The least radius of a platform before its rim is added, and the width of
/// the rim, in thousandths.
pub const LEAST_PLATFORM: i128 = 100000;

pub const PLATFORM_RIM: i128 = 50000;

/// How many stars the background has.
pub const STARS: u32 = 100;

/// What the renderer of the cake is set to.
pub struct Renderer3D {
    pub is_dragging: bool,
    pub auto_rotate: bool,
    pub show_grid: bool,
    pub show_layer_platforms: bool,
}

/// A star of the background: where it stands on the view, from the left and
/// from the top, and how bright it is, in hundredths.
#[derive(Clone, Copy, Debug, PartialEq, Eq, Structural)]
pub struct Star {
    pub x: u32,
    pub y: u32,
    pub brightness: u8,
}

/// How a link between a node and its parent is drawn: its width in
/// thousandths, and its colour as red, green, blue and alpha bytes.
#[derive(Clone, Copy, Debug)]
pub struct LinkStyle {
    pub thickness: u32,
    pub color: [u8; 4],
}

/// The least of the tiers at or above `floor` on which one of the first
/// `upto` nodes stands.
pub open spec fn least_layer(nodes: Seq<Node>, floor: int, upto: int) -> Option<int>
    decreases upto,
{
    if upto <= 0 {
        None
    } else {
        let rest = least_layer(nodes, floor, upto - 1);
        let layer = nodes[upto - 1].layer as int;
        if layer >= floor && (rest is None || layer < rest->0) {
            Some(layer)
        } else {
            rest
        }
    }
}

/// The largest ring radius of those of the first `upto` nodes that stand on
/// `layer`, and nothing where none does or none has a radius above nothing.
pub open spec fn widest_ring(nodes: Seq<Node>, layer: int, upto: int) -> int
    decreases upto,
{
    if upto <= 0 {
        0
    } else {
        let rest = widest_ring(nodes, layer, upto - 1);
        let node = nodes[upto - 1];
        if node.layer == layer && node.layer_radius > rest {
            node.layer_radius as int
        } else {
            rest
        }
    }
}

/// The radius of the platform of a tier: the largest ring radius of the
/// nodes on it, but at least `LEAST_PLATFORM`, and the rim.
pub open spec fn platform_radius(nodes: Seq<Node>, layer: int) -> int {
    let widest = widest_ring(nodes, layer, nodes.len() as int);
    held(
        if widest > LEAST_PLATFORM {
            widest
        } else {
            LEAST_PLATFORM as int
        } + PLATFORM_RIM,
    )
}

/// The platforms of the tiers at or above `floor` on which nodes stand, from
/// the lowest, at most `count` of them: of each its tier and its radius.
pub open spec fn platforms_from(nodes: Seq<Node>, floor: int, count: nat) -> Seq<(usize, i128)>
    decreases count,
{
    if count == 0 {
        Seq::empty()
    } else {
        match least_layer(nodes, floor, nodes.len() as int) {
            None => Seq::empty(),
            Some(layer) => seq![(layer as usize, platform_radius(nodes, layer) as i128)] + platforms_from(
                nodes,
                layer + 1,
                (count - 1) as nat,
            ),
        }
    }
}

/// Star `index` of the background of a view of a width and a height.
pub open spec fn star_at(index: int, width: int, height: int) -> Star {
    Star {
        x: ((index * 17 + 23) % width) as u32,
        y: ((index * 31 + 47) % height) as u32,
        brightness: ((index * 7 + 13) % 100) as u8,
    }
}

/// The distance from which the camera looks at a tier that it is turned
/// to, in thousandths: the higher the tier, the farther, up to the fourth.
pub open spec fn focus_distance(layer: nat) -> int {
    if layer == 0 {
        200000
    } else if layer == 1 {
        300000
    } else if layer == 2 {
        400000
    } else {
        500000
    }
}

/// The least distance from which the camera takes in the whole cake.
pub const LEAST_FIT_DISTANCE: i128 = 300000;

/// Where the camera looks, and from how far, to take in a cake whose
/// highest tier is `max_layer` and whose widest ring has the radius
/// `max_radius`: at half the height of the cake, from that height and one
/// and a half radii away, but not nearer than `LEAST_FIT_DISTANCE`.
pub open spec fn fit(max_layer: nat, max_radius: int) -> (int, int) {
    let half = max_layer * LAYER_HEIGHT_UNIT / 2;
    let wanted = half + max_radius * 3 / 2;
    (
        half,
        if wanted > LEAST_FIT_DISTANCE {
            wanted
        } else {
            LEAST_FIT_DISTANCE as int
        },
    )
}

/// The colour of the platform of a tier, as red, green, blue and alpha bytes.
pub open spec fn platform_paint(layer: nat) -> Seq<u8> {
    if layer == 0 {
        seq![255u8, 230u8, 180u8, 60u8]
    } else if layer == 1 {
        seq![180u8, 180u8, 255u8, 60u8]
    } else if layer == 2 {
        seq![255u8, 180u8, 180u8, 60u8]
    } else if layer == 3 {
        seq![180u8, 255u8, 180u8, 60u8]
    } else {
        seq![200u8, 200u8, 200u8, 60u8]
    }
}

impl Renderer3D {
    /// A renderer that shows the grid and the platforms and does not turn
    /// the cake of itself.
    pub fn new() -> (renderer: Self)
        ensures
            !renderer.is_dragging,
            !renderer.auto_rotate,
            renderer.show_grid,
            renderer.show_layer_platforms,
    {
        Self { is_dragging: false, auto_rotate: false, show_grid: true, show_layer_platforms: true }
    }

    /// Star `index` of the background. A view without width or height has
    /// no stars, and there are `STARS` stars at most.
    pub fn star(index: u32, width: u32, height: u32) -> (star: Option<Star>)
        ensures
            star == if index < STARS && width > 0 && height > 0 {
                Some(star_at(index as int, width as int, height as int))
            } else {
                None
            },
    {
        if index < STARS && width > 0 && height > 0 {
            Some(
                Star {
                    x: (index * 17 + 23) % width,
                    y: (index * 31 + 47) % height,
                    brightness: ((index * 7 + 13) % 100) as u8,
                },
            )
        } else {
            None
        }
    }

    /// The height at which the camera looks when it is turned to a tier, and
    /// the distance from which it does.
    pub fn focus_on_layer(layer: usize) -> (view: (i128, i128))
        ensures
            view.0 == layer * LAYER_HEIGHT_UNIT,
            view.1 == focus_distance(layer as nat),
    {
        let distance: i128 = match layer {
            0 => 200000,
            1 => 300000,
            2 => 400000,
            _ => 500000,
        };
        (layer as i128 * LAYER_HEIGHT_UNIT, distance)
    }

    /// The height at which the camera looks, and the distance from which it
    /// does, to take in the whole cake. The radius is that of the widest
    /// ring, which is no wider than a lowest ring can be.
    pub fn fit_all_layers(max_layer: usize, max_radius: u64) -> (view: (i128, i128))
        ensures
            view.0 == fit(max_layer as nat, max_radius as int).0,
            view.1 == fit(max_layer as nat, max_radius as int).1,
    {
        let half: i128 = max_layer as i128 * LAYER_HEIGHT_UNIT / 2;
        let wanted: i128 = half + max_radius as i128 * 3 / 2;
        (
            half,
            if wanted > LEAST_FIT_DISTANCE {
                wanted
            } else {
                LEAST_FIT_DISTANCE
            },
        )
    }

    /// The colour of the platform of a tier.
    pub fn platform_color(layer: usize) -> (rgba: [u8; 4])
        ensures
            rgba@ == platform_paint(layer as nat),
    {
        let rgba: [u8; 4] = match layer {
            0 => [255, 230, 180, 60],
            1 => [180, 180, 255, 60],
            2 => [255, 180, 180, 60],
            3 => [180, 255, 180, 60],
            _ => [200, 200, 200, 60],
        };
        rgba
    }

    /// How the link between a node and its parent is drawn: thick and golden
    /// where it leads from one tier to another, thin and blue within a tier.
    pub fn link_style(parent_layer: usize, child_layer: usize) -> (style: LinkStyle)
        ensures
            parent_layer != child_layer ==> style.thickness == 3000 && style.color@ == seq![
                255u8,
                215u8,
                0u8,
                255u8,
            ],
            parent_layer == child_layer ==> style.thickness == 2000 && style.color@ == seq![
                150u8,
                150u8,
                255u8,
                180u8,
            ],
    {
        if parent_layer != child_layer {
            let color: [u8; 4] = [255, 215, 0, 255];
            LinkStyle { thickness: 3000, color }
        } else {
            let color: [u8; 4] = [150, 150, 255, 180];
            LinkStyle { thickness: 2000, color }
        }
    }

    /// The least tier at or above `floor` on which a node of the graph stands.
    fn next_layer(graph: &Graph, floor: usize) -> (found: Option<usize>)
        requires
            graph.wf(),
        ensures
            match found {
                Some(layer) => least_layer(graph.node_seq(), floor as int, graph.node_seq().len() as int) == Some(
                    layer as int,
                ) && layer >= floor,
                None => least_layer(graph.node_seq(), floor as int, graph.node_seq().len() as int) is None,
            },
    {
        let count: usize = graph.node_count();
        let mut found: Option<usize> = None;
        let mut i: usize = 0;
        while i < count
            invariant
                graph.wf(),
                count == graph.node_seq().len(),
                count == graph.ids().len(),
                i <= count,
                match found {
                    Some(layer) => least_layer(graph.node_seq(), floor as int, i as int) == Some(layer as int)
                        && layer >= floor,
                    None => least_layer(graph.node_seq(), floor as int, i as int) is None,
                },
            decreases count - i,
        {
            let layer: usize = graph.node_at(i).layer;
            if layer >= floor {
                found = match found {
                    Some(least) => if layer < least {
                        Some(layer)
                    } else {
                        Some(least)
                    },
                    None => Some(layer),
                };
            }
            i += 1;
        }
        found
    }

    /// The radius of the platform of a tier.
    fn radius_of_platform(graph: &Graph, layer: usize) -> (radius: i128)
        requires
            graph.wf(),
        ensures
            radius == platform_radius(graph.node_seq(), layer as int),
    {
        let count: usize = graph.node_count();
        let mut widest: i128 = 0;
        let mut i: usize = 0;
        while i < count
            invariant
                graph.wf(),
                count == graph.node_seq().len(),
                count == graph.ids().len(),
                i <= count,
                widest == widest_ring(graph.node_seq(), layer as int, i as int),
            decreases count - i,
        {
            let node: &Node = graph.node_at(i);
            if node.layer == layer && node.layer_radius > widest {
                widest = node.layer_radius;
            }
            i += 1;
        }
        if widest > LEAST_PLATFORM {
            add_held(widest, PLATFORM_RIM)
        } else {
            LEAST_PLATFORM + PLATFORM_RIM
        }
    }

    /// The platforms of the tiers on which nodes of the graph stand, from the
    /// lowest: of each its tier and its radius. There are no more platforms
    /// than nodes.
    pub fn platforms(graph: &Graph) -> (rings: Vec<(usize, i128)>)
        requires
            graph.wf(),
        ensures
            rings@ == platforms_from(graph.node_seq(), 0, graph.node_seq().len()),
    {
        let ghost nodes = graph.node_seq();
        let count: usize = graph.node_count();
        let mut rings: Vec<(usize, i128)> = Vec::new();
        let mut floor: usize = 0;
        let mut left: usize = count;
        while left > 0
            invariant
                graph.wf(),
                nodes == graph.node_seq(),
                count == nodes.len(),
                rings@ + platforms_from(nodes, floor as int, left as nat) == platforms_from(nodes, 0, count as nat),
            decreases left,
        {
            match Self::next_layer(graph, floor) {
                Some(layer) => {
                    let radius: i128 = Self::radius_of_platform(graph, layer);
                    rings.push((layer, radius));
                    left -= 1;
                    if layer == usize::MAX {
                        proof {
                            no_layer_beyond(nodes, layer + 1, nodes.len() as int);
                            assert(platforms_from(nodes, layer + 1, left as nat) == Seq::<(usize, i128)>::empty());
                        }
                        return rings;
                    }
                    floor = layer + 1;
                },
                None => {
                    return rings;
                },
            }
        }
        rings
    }
}

/// No node stands on a tier beyond the largest number.
proof fn no_layer_beyond(nodes: Seq<Node>, floor: int, upto: int)
    requires
        floor > usize::MAX,
    ensures
        least_layer(nodes, floor, upto) is None,
    decreases upto,
{
    if upto > 0 {
        no_layer_beyond(nodes, floor, upto - 1);
    }
}

} // verus!
