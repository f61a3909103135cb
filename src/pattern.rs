use vstd::prelude::*;

verus! {

// Bookkeeping of the seam-allowance walk around a pattern piece. The piece is a
// closed loop of segments, each a run of points sharing one seam allowance;
// the walk visits every point once, in order, and offsets the edge arriving at
// it and the edge leaving it. A point is named by its segment and its index in
// that segment.

/// A point of the loop: its segment and its index in that segment.
#[derive(Clone, Copy, Debug, PartialEq, Eq, Structural)]
pub struct PointRef {
    pub segment: usize,
    pub index: usize,
}

/// What the offset of one point needs besides coordinates.
#[derive(Clone, Copy, Debug, PartialEq, Eq, Structural)]
pub struct VertexPlan {
    /// The point before it on the loop.
    pub prev: PointRef,
    /// The point after it on the loop.
    pub next: PointRef,
    /// Segment whose allowance applies to the arriving edge.
    pub arriving_allowance: usize,
    /// Segment whose allowance applies to the leaving edge.
    pub leaving_allowance: usize,
    /// Whether the point starts its segment, where two allowances meet.
    pub corner: bool,
}

/// The plan of point `j` of segment `k`, for segments of lengths `lens`.
/// The edge that arrives at a segment's first point belongs to the segment
/// before it; every other edge belongs to the segment it runs along.
pub open spec fn vertex_plan(lens: Seq<usize>, k: int, j: int) -> VertexPlan {
    let n = lens.len() as int;
    let before = if k == 0 { n - 1 } else { k - 1 };
    let after = if k == n - 1 { 0 } else { k + 1 };
    VertexPlan {
        prev: if j > 0 {
            PointRef { segment: k as usize, index: (j - 1) as usize }
        } else {
            PointRef { segment: before as usize, index: (lens[before] - 1) as usize }
        },
        next: if j < lens[k] - 1 {
            PointRef { segment: k as usize, index: (j + 1) as usize }
        } else {
            PointRef { segment: after as usize, index: 0 }
        },
        arriving_allowance: (if j == 0 { before } else { k }) as usize,
        leaving_allowance: k as usize,
        corner: j == 0,
    }
}

/// The walk around a loop of segments with `lens[k]` points each (none empty):
/// `r[k][j]` is the plan of point `j` of segment `k`.
pub fn seam_walk_plan(lens: &Vec<usize>) -> (r: Vec<Vec<VertexPlan>>)
    requires
        lens@.len() >= 1,
        forall|k: int| 0 <= k < lens@.len() ==> #[trigger] lens@[k] >= 1,
    ensures
        r@.len() == lens@.len(),
        forall|k: int| 0 <= k < lens@.len() ==> (#[trigger] r@[k])@.len() == lens@[k],
        forall|k: int, j: int|
            0 <= k < lens@.len() && 0 <= j < lens@[k] ==> (#[trigger] r@[k]@[j]) == vertex_plan(
                lens@,
                k,
                j,
            ),
{
    let n = lens.len();
    let mut r: Vec<Vec<VertexPlan>> = Vec::new();
    let mut k: usize = 0;
    while k < n
        invariant
            n == lens@.len(),
            n >= 1,
            forall|i: int| 0 <= i < lens@.len() ==> #[trigger] lens@[i] >= 1,
            k <= n,
            r@.len() == k,
            forall|i: int| 0 <= i < k ==> (#[trigger] r@[i])@.len() == lens@[i],
            forall|i: int, j: int|
                0 <= i < k && 0 <= j < lens@[i] ==> (#[trigger] r@[i]@[j]) == vertex_plan(
                    lens@,
                    i,
                    j,
                ),
        decreases n - k,
    {
        let before: usize = if k == 0 {
            n - 1
        } else {
            k - 1
        };
        let after: usize = if k == n - 1 {
            0
        } else {
            k + 1
        };
        let len = lens[k];
        let mut row: Vec<VertexPlan> = Vec::new();
        let mut j: usize = 0;
        while j < len
            invariant
                n == lens@.len(),
                k < n,
                len == lens@[k as int],
                len >= 1,
                before == (if k == 0 { n - 1 } else { k - 1 }),
                after == (if k == n - 1 { 0 } else { k + 1 }),
                lens@[before as int] >= 1,
                j <= len,
                row@.len() == j,
                forall|i: int| 0 <= i < j ==> #[trigger] row@[i] == vertex_plan(lens@, k as int, i),
            decreases len - j,
        {
            let prev = if j > 0 {
                PointRef { segment: k, index: j - 1 }
            } else {
                PointRef { segment: before, index: lens[before] - 1 }
            };
            let next = if j < len - 1 {
                PointRef { segment: k, index: j + 1 }
            } else {
                PointRef { segment: after, index: 0 }
            };
            row.push(
                VertexPlan {
                    prev,
                    next,
                    arriving_allowance: if j == 0 { before } else { k },
                    leaving_allowance: k,
                    corner: j == 0,
                },
            );
            j = j + 1;
        }
        r.push(row);
        k = k + 1;
    }
    r
}

/// How the offset outline is formed at one point of the walk.
#[derive(Clone, Copy, Debug, PartialEq, Eq, Structural)]
pub enum CornerRule {
    /// The point and both neighbours coincide: the point is kept unmoved.
    Keep,
    /// The edges are parallel or one has no length: one point, offset along
    /// the usable normal by the mean of the two allowances.
    OffsetMean,
    /// As `OffsetMean`, but with corners cut out: two points, offset by each
    /// allowance in turn.
    OffsetEach,
    /// A corner cut out: the offset end of the arriving edge, the corner point
    /// itself, and the offset start of the leaving edge.
    Cutout,
    /// The intersection of the two offset edges (a mitred corner).
    Miter,
}

/// The rule at a point, from the caller's measurements: whether both edges
/// are (nearly) of no length, whether the edges are (nearly) parallel or
/// either has no length, whether corners are cut out, and whether the point
/// starts a segment.
pub open spec fn corner_rule_of(both_short: bool, flat: bool, cutout: bool, corner: bool) -> CornerRule {
    if both_short {
        CornerRule::Keep
    } else if flat {
        if cutout {
            CornerRule::OffsetEach
        } else {
            CornerRule::OffsetMean
        }
    } else if cutout && corner {
        CornerRule::Cutout
    } else {
        CornerRule::Miter
    }
}

/// How many outline points a rule emits.
pub open spec fn emitted(rule: CornerRule) -> nat {
    match rule {
        CornerRule::Keep => 1,
        CornerRule::OffsetMean => 1,
        CornerRule::OffsetEach => 2,
        CornerRule::Cutout => 3,
        CornerRule::Miter => 1,
    }
}

/// Chooses how the offset outline is formed at one point.
pub fn corner_rule(both_short: bool, flat: bool, cutout: bool, corner: bool) -> (r: CornerRule)
    ensures
        r == corner_rule_of(both_short, flat, cutout, corner),
{
    if both_short {
        CornerRule::Keep
    } else if flat {
        if cutout {
            CornerRule::OffsetEach
        } else {
            CornerRule::OffsetMean
        }
    } else if cutout && corner {
        CornerRule::Cutout
    } else {
        CornerRule::Miter
    }
}

impl CornerRule {
    /// How many outline points this rule emits.
    pub fn point_count(&self) -> (r: usize)
        ensures
            r == emitted(*self),
    {
        match self {
            CornerRule::Keep => 1,
            CornerRule::OffsetMean => 1,
            CornerRule::OffsetEach => 2,
            CornerRule::Cutout => 3,
            CornerRule::Miter => 1,
        }
    }
}

} // verus!
