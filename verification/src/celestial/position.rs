use vstd::prelude::*;

verus! {

/// The height of one tier above the one below it, in thousandths.
pub const LAYER_HEIGHT_UNIT: i128 = 100000;

/// A point in space. Coordinates are in thousandths of a unit.
#[derive(Clone, Copy, Debug, PartialEq, Eq, Structural)]
pub struct Position3D {
    pub x: i128,
    pub y: i128,
    pub z: i128,
}

impl Position3D {
    pub fn new(x: i128, y: i128, z: i128) -> (p: Self)
        ensures
            p == (Position3D { x, y, z }),
    {
        Self { x, y, z }
    }

    pub fn zero() -> (p: Self)
        ensures
            p == (Position3D { x: 0, y: 0, z: 0 }),
    {
        Self::new(0, 0, 0)
    }
}

/// Where a node sits on the cake: its tier, and its place on the ring of that
/// tier in polar form. Radius and height are in thousandths of a unit, the
/// angles in thousandths of a degree.
///
/// `anchor` is the evenly spaced angle that the node was given on its ring;
/// `angle` is what became of it after the ring was loosened by a random
/// offset. The Cartesian point follows from `radius`, `angle` and
/// `height_offset` and is not stored.
#[derive(Clone, Copy, Debug, PartialEq, Eq, Structural)]
pub struct LayerPosition {
    pub layer: usize,
    pub radius: i128,
    pub angle: i128,
    pub anchor: i128,
    pub height_offset: i128,
}

impl LayerPosition {
    /// The height of tier `layer`.
    pub open spec fn height_of(layer: nat) -> int {
        layer * LAYER_HEIGHT_UNIT
    }

    /// The tint of a tier, as red, green, blue and alpha in thousandths.
    pub open spec fn tint_of(layer: nat) -> Seq<u16> {
        if layer == 0 {
            seq![1000u16, 900u16, 700u16, 1000u16]
        } else if layer == 1 {
            seq![800u16, 800u16, 1000u16, 1000u16]
        } else if layer == 2 {
            seq![1000u16, 800u16, 800u16, 1000u16]
        } else if layer == 3 {
            seq![800u16, 1000u16, 800u16, 1000u16]
        } else {
            seq![900u16, 900u16, 900u16, 1000u16]
        }
    }

    /// The size at which a node on a tier is drawn, in thousandths.
    pub open spec fn size_of(layer: nat) -> int {
        if layer == 0 {
            25000
        } else if layer == 1 {
            20000
        } else if layer == 2 {
            15000
        } else if layer == 3 {
            12000
        } else {
            10000
        }
    }

    /// A position on tier `layer` whose angle has not been loosened.
    pub fn new(layer: usize, radius: i128, angle: i128) -> (p: Self)
        ensures
            p == (LayerPosition {
                layer,
                radius,
                angle,
                anchor: angle,
                height_offset: Self::height_of(layer as nat) as i128,
            }),
            p.height_offset == Self::height_of(layer as nat),
    {
        let height_offset: i128 = layer as i128 * LAYER_HEIGHT_UNIT;
        Self { layer, radius, angle, anchor: angle, height_offset }
    }

    pub fn layer_color(&self) -> (tint: [u16; 4])
        ensures
            tint@ == Self::tint_of(self.layer as nat),
    {
        let tint: [u16; 4] = match self.layer {
            0 => [1000, 900, 700, 1000],
            1 => [800, 800, 1000, 1000],
            2 => [1000, 800, 800, 1000],
            3 => [800, 1000, 800, 1000],
            _ => [900, 900, 900, 1000],
        };
        tint
    }

    pub fn layer_size(&self) -> (size: i128)
        ensures
            size == Self::size_of(self.layer as nat),
    {
        match self.layer {
            0 => 25000,
            1 => 20000,
            2 => 15000,
            3 => 12000,
            _ => 10000,
        }
    }
}

/// A point in the plane. Coordinates are in thousandths of a unit.
#[derive(Clone, Copy, Debug, PartialEq, Eq, Structural)]
pub struct Position2D {
    pub x: i128,
    pub y: i128,
}

/// A number held between the least and the largest coordinate.
pub open spec fn held(value: int) -> int {
    if value > i128::MAX {
        i128::MAX as int
    } else if value < i128::MIN {
        i128::MIN as int
    } else {
        value
    }
}

/// The sum of two coordinates, held between the least and the largest.
pub fn add_held(a: i128, b: i128) -> (sum: i128)
    ensures
        sum == held(a + b),
{
    if b > 0 && a > i128::MAX - b {
        i128::MAX
    } else if b < 0 && a < i128::MIN - b {
        i128::MIN
    } else {
        a + b
    }
}

/// The difference of two coordinates, held between the least and the largest.
pub fn sub_held(a: i128, b: i128) -> (difference: i128)
    ensures
        difference == held(a - b),
{
    if b < 0 && a > i128::MAX + b {
        i128::MAX
    } else if b > 0 && a < i128::MIN + b {
        i128::MIN
    } else {
        a - b
    }
}

impl Position2D {
    /// The point moved by `by`; a point that would leave the plane stays at
    /// its edge.
    pub open spec fn moved_by(self, by: Position2D) -> Position2D {
        Position2D { x: held(self.x + by.x) as i128, y: held(self.y + by.y) as i128 }
    }

    /// The point as seen from `from`; a point that would leave the plane
    /// stays at its edge.
    pub open spec fn seen_from(self, from: Position2D) -> Position2D {
        Position2D { x: held(self.x - from.x) as i128, y: held(self.y - from.y) as i128 }
    }

    pub fn plus(&self, by: Position2D) -> (p: Position2D)
        ensures
            p == self.moved_by(by),
    {
        Position2D { x: add_held(self.x, by.x), y: add_held(self.y, by.y) }
    }

    pub fn minus(&self, from: Position2D) -> (p: Position2D)
        ensures
            p == self.seen_from(from),
    {
        Position2D { x: sub_held(self.x, from.x), y: sub_held(self.y, from.y) }
    }

    pub fn new(x: i128, y: i128) -> (p: Self)
        ensures
            p == (Position2D { x, y }),
    {
        Self { x, y }
    }

    pub fn to_position3d(&self, z: i128) -> (p: Position3D)
        ensures
            p == (Position3D { x: self.x, y: self.y, z }),
    {
        Position3D::new(self.x, self.y, z)
    }
}

} // verus!
