//! Bounding box of a segment list and the canvas derived from it.
//!
//! Every bound is seeded at 0, so an empty or origin-only drawing still
//! yields a valid canvas; the canvas adds a fixed margin on all four sides.

use crate::turtle::seg_in_range;
use crate::turtle::seg_views;
use crate::turtle::Segment;
use crate::MARGIN;
use crate::MAX_COORD;
use vstd::prelude::*;

verus! {

/// The smaller of two integers.
pub open spec fn imin(a: int, b: int) -> int {
    if a <= b {
        a
    } else {
        b
    }
}

/// The larger of two integers.
pub open spec fn imax(a: int, b: int) -> int {
    if a >= b {
        a
    } else {
        b
    }
}

/// Least x coordinate over all endpoints, seeded at 0.
pub open spec fn lo_x(segs: Seq<(int, int, int, int)>) -> int
    decreases segs.len(),
{
    if segs.len() == 0 {
        0
    } else {
        imin(lo_x(segs.drop_last()), imin(segs.last().0, segs.last().2))
    }
}

/// Least y coordinate over all endpoints, seeded at 0.
pub open spec fn lo_y(segs: Seq<(int, int, int, int)>) -> int
    decreases segs.len(),
{
    if segs.len() == 0 {
        0
    } else {
        imin(lo_y(segs.drop_last()), imin(segs.last().1, segs.last().3))
    }
}

/// Greatest x coordinate over all endpoints, seeded at 0.
pub open spec fn hi_x(segs: Seq<(int, int, int, int)>) -> int
    decreases segs.len(),
{
    if segs.len() == 0 {
        0
    } else {
        imax(hi_x(segs.drop_last()), imax(segs.last().0, segs.last().2))
    }
}

/// Greatest y coordinate over all endpoints, seeded at 0.
pub open spec fn hi_y(segs: Seq<(int, int, int, int)>) -> int
    decreases segs.len(),
{
    if segs.len() == 0 {
        0
    } else {
        imax(hi_y(segs.drop_last()), imax(segs.last().1, segs.last().3))
    }
}

/// Canvas width a segment list asks for: its x extent plus a margin on both
/// sides.
pub open spec fn canvas_width(segs: Seq<(int, int, int, int)>) -> int {
    hi_x(segs) - lo_x(segs) + 2 * MARGIN
}

/// Canvas height a segment list asks for: its y extent plus a margin on both
/// sides.
pub open spec fn canvas_height(segs: Seq<(int, int, int, int)>) -> int {
    hi_y(segs) - lo_y(segs) + 2 * MARGIN
}

/// The bounding box of a drawing, in fixed-point subunits.
#[derive(Clone, Copy, Debug, PartialEq, Eq, Structural)]
pub struct Bounds {
    pub min_x: i64,
    pub min_y: i64,
    pub max_x: i64,
    pub max_y: i64,
}

/// Canvas size and the translation that moves the drawing into positive
/// coordinates, in fixed-point subunits.
#[derive(Clone, Copy, Debug, PartialEq, Eq, Structural)]
pub struct Canvas {
    pub width: i64,
    pub height: i64,
    pub off_x: i64,
    pub off_y: i64,
}

/// The bounding box holds the origin and every endpoint: each minimum is at
/// most every coordinate, each maximum at least every coordinate.
pub proof fn lemma_bounds_envelope(segs: Seq<(int, int, int, int)>)
    ensures
        lo_x(segs) <= 0 <= hi_x(segs),
        lo_y(segs) <= 0 <= hi_y(segs),
        forall|k: int|
            0 <= k < segs.len() ==> {
                &&& lo_x(segs) <= (#[trigger] segs[k]).0 <= hi_x(segs)
                &&& lo_x(segs) <= segs[k].2 <= hi_x(segs)
                &&& lo_y(segs) <= segs[k].1 <= hi_y(segs)
                &&& lo_y(segs) <= segs[k].3 <= hi_y(segs)
            },
    decreases segs.len(),
{
    if segs.len() > 0 {
        lemma_bounds_envelope(segs.drop_last());
        assert(forall|k: int|
            0 <= k < segs.len() - 1 ==> #[trigger] segs[k] == segs.drop_last()[k]);
    }
}

/// Smallest and largest x and y over every endpoint, each seeded at 0 so an
/// empty drawing still has a box.
pub fn compute_bounds(segs: &Vec<Segment>) -> (b: Bounds)
    requires
        forall|k: int| 0 <= k < segs@.len() ==> seg_in_range(#[trigger] segs@[k]),
    ensures
        b.min_x as int == lo_x(seg_views(segs@)),
        b.min_y as int == lo_y(seg_views(segs@)),
        b.max_x as int == hi_x(seg_views(segs@)),
        b.max_y as int == hi_y(seg_views(segs@)),
        -MAX_COORD <= b.min_x <= 0,
        -MAX_COORD <= b.min_y <= 0,
        0 <= b.max_x <= MAX_COORD,
        0 <= b.max_y <= MAX_COORD,
{
    let ghost sv = seg_views(segs@);
    let mut min_x: i64 = 0;
    let mut min_y: i64 = 0;
    let mut max_x: i64 = 0;
    let mut max_y: i64 = 0;
    let mut i: usize = 0;
    proof {
        assert(sv.take(0) =~= Seq::<(int, int, int, int)>::empty());
    }
    while i < segs.len()
        invariant
            i <= segs@.len(),
            sv == seg_views(segs@),
            forall|k: int| 0 <= k < segs@.len() ==> seg_in_range(#[trigger] segs@[k]),
            min_x as int == lo_x(sv.take(i as int)),
            min_y as int == lo_y(sv.take(i as int)),
            max_x as int == hi_x(sv.take(i as int)),
            max_y as int == hi_y(sv.take(i as int)),
            -MAX_COORD <= min_x <= 0,
            -MAX_COORD <= min_y <= 0,
            0 <= max_x <= MAX_COORD,
            0 <= max_y <= MAX_COORD,
        decreases segs@.len() - i,
    {
        let s = segs[i];
        proof {
            assert(sv.take(i as int + 1).drop_last() =~= sv.take(i as int));
            assert(sv.take(i as int + 1).last() == (
                s.x0 as int,
                s.y0 as int,
                s.x1 as int,
                s.y1 as int,
            ));
        }
        if s.x0 < min_x {
            min_x = s.x0;
        }
        if s.x1 < min_x {
            min_x = s.x1;
        }
        if s.y0 < min_y {
            min_y = s.y0;
        }
        if s.y1 < min_y {
            min_y = s.y1;
        }
        if s.x0 > max_x {
            max_x = s.x0;
        }
        if s.x1 > max_x {
            max_x = s.x1;
        }
        if s.y0 > max_y {
            max_y = s.y0;
        }
        if s.y1 > max_y {
            max_y = s.y1;
        }
        i = i + 1;
    }
    proof {
        assert(sv.take(segs@.len() as int) =~= sv);
    }
    Bounds { min_x, min_y, max_x, max_y }
}

/// Canvas for a bounding box: width and height are exactly the box extent
/// plus twice the margin, and the offset translates the box minimum to
/// `(MARGIN, MARGIN)`.
pub fn canvas_of(b: &Bounds) -> (c: Canvas)
    requires
        -MAX_COORD <= b.min_x <= 0,
        -MAX_COORD <= b.min_y <= 0,
        0 <= b.max_x <= MAX_COORD,
        0 <= b.max_y <= MAX_COORD,
    ensures
        c.width as int == b.max_x - b.min_x + 2 * MARGIN,
        c.height as int == b.max_y - b.min_y + 2 * MARGIN,
        c.off_x as int == MARGIN - b.min_x,
        c.off_y as int == MARGIN - b.min_y,
{
    Canvas {
        width: b.max_x - b.min_x + 2 * MARGIN,
        height: b.max_y - b.min_y + 2 * MARGIN,
        off_x: MARGIN - b.min_x,
        off_y: MARGIN - b.min_y,
    }
}

} // verus!
