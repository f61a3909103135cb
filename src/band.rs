use vstd::prelude::*;

verus! {

// How a circular band (one straight line of the cross-section, revolved) is
// cut flat. The line runs from its inner point to its outer point; unrolled,
// it becomes part of a cone's development: an annular sector, a sector that
// closes at the apex, a full disk or ring, or, for a vertical line, a
// rectangle.

/// The side of a gore a seam allowance belongs to.
#[derive(Clone, Copy, Debug, PartialEq, Eq, Structural)]
pub enum Side {
    Right,
    Top,
    Left,
    Bottom,
}

/// The flat outline of one gore of a circular band.
#[derive(Clone, Copy, Debug, PartialEq, Eq, Structural)]
pub enum BandShape {
    /// Nothing to cut: the band has no width or there are no gores.
    Empty,
    /// A cylinder wall: right, top, left and bottom edges.
    Rectangle,
    /// One gore spans the full turn and reaches the apex: a disk.
    Disk,
    /// One gore spans the full turn around a hole: only the outer circle is
    /// cut; the hole is not part of the outline and must be cut separately.
    RingWithoutHole,
    /// Part of a turn, closing at the apex: outer arc and two straight sides.
    Sector,
    /// Part of a turn around a hole: outer arc, right side, inner arc, left side.
    AnnularSector,
}

/// What the geometry of the band says, measured by the caller: whether the line
/// has (nearly) no length, whether it is (nearly) vertical, whether one gore's
/// unrolled angle covers the full turn, and whether the cone's apex lies within
/// the top seam allowance, so that no hole is left.
pub open spec fn band_shape_of(
    no_width: bool,
    gores: u16,
    vertical: bool,
    full_turn: bool,
    closes_at_apex: bool,
) -> BandShape {
    if no_width || gores == 0 {
        BandShape::Empty
    } else if vertical {
        BandShape::Rectangle
    } else if full_turn && closes_at_apex {
        BandShape::Disk
    } else if full_turn {
        BandShape::RingWithoutHole
    } else if closes_at_apex {
        BandShape::Sector
    } else {
        BandShape::AnnularSector
    }
}

/// The sides whose allowances the outline's segments carry, in the order the
/// segments are laid down.
pub open spec fn sides_of(shape: BandShape) -> Seq<Side> {
    match shape {
        BandShape::Empty => seq![],
        BandShape::Rectangle => seq![Side::Right, Side::Top, Side::Left, Side::Bottom],
        BandShape::Disk => seq![Side::Bottom],
        BandShape::RingWithoutHole => seq![Side::Bottom],
        BandShape::Sector => seq![Side::Bottom, Side::Right, Side::Left],
        BandShape::AnnularSector => seq![Side::Bottom, Side::Right, Side::Top, Side::Left],
    }
}

/// Chooses the outline of a circular band from the caller's measurements.
pub fn band_shape(
    no_width: bool,
    gores: u16,
    vertical: bool,
    full_turn: bool,
    closes_at_apex: bool,
) -> (r: BandShape)
    ensures
        r == band_shape_of(no_width, gores, vertical, full_turn, closes_at_apex),
{
    if no_width || gores == 0 {
        BandShape::Empty
    } else if vertical {
        BandShape::Rectangle
    } else if full_turn && closes_at_apex {
        BandShape::Disk
    } else if full_turn {
        BandShape::RingWithoutHole
    } else if closes_at_apex {
        BandShape::Sector
    } else {
        BandShape::AnnularSector
    }
}

/// The sides of the outline's segments, in order.
pub fn segment_sides(shape: BandShape) -> (r: Vec<Side>)
    ensures
        r@ == sides_of(shape),
{
    let r = match shape {
        BandShape::Empty => Vec::new(),
        BandShape::Rectangle => vec![Side::Right, Side::Top, Side::Left, Side::Bottom],
        BandShape::Disk => vec![Side::Bottom],
        BandShape::RingWithoutHole => vec![Side::Bottom],
        BandShape::Sector => vec![Side::Bottom, Side::Right, Side::Left],
        BandShape::AnnularSector => vec![Side::Bottom, Side::Right, Side::Top, Side::Left],
    };
    assert(r@ =~= sides_of(shape));
    r
}

/// Per-side values (right, top, left, bottom) as seen after turning the gore
/// half a turn: right and left swap, and so do top and bottom. Used when a
/// band's line is drawn from the outer point to the inner one.
pub fn turn_sides<T: Copy>(a: (T, T, T, T)) -> (r: (T, T, T, T))
    ensures
        r == (a.2, a.3, a.0, a.1),
{
    (a.2, a.3, a.0, a.1)
}

/// The value of `side` in per-side values (right, top, left, bottom).
pub fn side_value<T: Copy>(a: (T, T, T, T), side: Side) -> (r: T)
    ensures
        r == match side {
            Side::Right => a.0,
            Side::Top => a.1,
            Side::Left => a.2,
            Side::Bottom => a.3,
        },
{
    match side {
        Side::Right => a.0,
        Side::Top => a.1,
        Side::Left => a.2,
        Side::Bottom => a.3,
    }
}

} // verus!
