//! Axis-aligned bounding boxes over integer world units.

use vstd::prelude::*;

verus! {

/// Where an entity is and how large it is: the centre of its sprite, the
/// unscaled size of the sprite, and the scale of its transform.
///
/// The bounding box is centred on `(x, y)`. Its half extent on each axis is
/// half the size divided by the scale of that axis, as an exact fraction. A
/// scale of zero leaves the box unbounded on that axis.
#[derive(Clone, Copy, PartialEq, Eq, Structural, Debug)]
pub struct Body {
    /// Horizontal position of the centre.
    pub x: i64,
    /// Vertical position of the centre.
    pub y: i64,
    /// Unscaled width.
    pub width: u32,
    /// Unscaled height.
    pub height: u32,
    /// Horizontal scale; 1 unless the entity is stretched.
    pub scale_x: u32,
    /// Vertical scale; 1 unless the entity is stretched.
    pub scale_y: u32,
}

/// The distance between two coordinates.
pub open spec fn distance(a: int, b: int) -> nat {
    if a <= b {
        (b - a) as nat
    } else {
        (a - b) as nat
    }
}

/// Whether two closed intervals share a point. The first is centred on
/// `a_center` with half length `a_size / (2 * a_scale)`, the second likewise.
///
/// They meet when the distance of the centres is at most the sum of the half
/// lengths; the inequality is stated with both denominators cleared, so touching
/// ends count as meeting.
pub open spec fn spans_meet(
    a_center: int,
    a_size: nat,
    a_scale: nat,
    b_center: int,
    b_size: nat,
    b_scale: nat,
) -> bool {
    2 * distance(a_center, b_center) * (a_scale * b_scale) <= a_size * b_scale + b_size * a_scale
}

impl Body {
    /// A body of the given size at `(x, y)` with scale 1 on both axes.
    pub fn new(x: i64, y: i64, width: u32, height: u32) -> (body: Body)
        ensures
            body == (Body { x, y, width, height, scale_x: 1, scale_y: 1 }),
    {
        Body { x, y, width, height, scale_x: 1, scale_y: 1 }
    }

    /// Whether the bounding boxes of `self` and `other` overlap on both axes.
    /// Boxes that only share an edge or a corner overlap.
    pub open spec fn overlaps(self, other: Body) -> bool {
        &&& spans_meet(
            self.x as int,
            self.width as nat,
            self.scale_x as nat,
            other.x as int,
            other.width as nat,
            other.scale_x as nat,
        )
        &&& spans_meet(
            self.y as int,
            self.height as nat,
            self.scale_y as nat,
            other.y as int,
            other.height as nat,
            other.scale_y as nat,
        )
    }

    /// Tests the bounding boxes of `self` and `other` for overlap.
    pub fn intersects(&self, other: &Body) -> (hit: bool)
        ensures
            hit == self.overlaps(*other),
    {
        axis_meets(self.x, self.width, self.scale_x, other.x, other.width, other.scale_x)
            && axis_meets(
            self.y,
            self.height,
            self.scale_y,
            other.y,
            other.height,
            other.scale_y,
        )
    }
}

/// For a positive divisor, `count * divisor <= total` says the same as
/// `count <= total / divisor`.
proof fn lemma_product_bound_is_quotient_bound(count: int, divisor: int, total: int)
    requires
        0 <= count,
        0 < divisor,
        0 <= total,
    ensures
        count * divisor <= total <==> count <= total / divisor,
{
    let quotient = total / divisor;
    vstd::arithmetic::div_mod::lemma_fundamental_div_mod(total, divisor);
    vstd::arithmetic::div_mod::lemma_mod_bound(total, divisor);
    assert(total == divisor * quotient + total % divisor);
    if count <= quotient {
        assert(count * divisor <= quotient * divisor) by (nonlinear_arith)
            requires
                count <= quotient,
                0 < divisor,
        ;
        assert(quotient * divisor == divisor * quotient) by (nonlinear_arith);
    } else {
        assert(count * divisor >= (quotient + 1) * divisor) by (nonlinear_arith)
            requires
                count >= quotient + 1,
                0 < divisor,
        ;
        assert((quotient + 1) * divisor == divisor * quotient + divisor) by (nonlinear_arith);
    }
}

/// Tests two intervals for a common point without leaving 128 bits.
fn axis_meets(
    a_center: i64,
    a_size: u32,
    a_scale: u32,
    b_center: i64,
    b_size: u32,
    b_scale: u32,
) -> (meet: bool)
    ensures
        meet == spans_meet(
            a_center as int,
            a_size as nat,
            a_scale as nat,
            b_center as int,
            b_size as nat,
            b_scale as nat,
        ),
{
    let gap: i128 = a_center as i128 - b_center as i128;
    let apart: u128 = if gap < 0 {
        (-gap) as u128
    } else {
        gap as u128
    };
    assert(apart == distance(a_center as int, b_center as int));
    assert(a_scale * b_scale <= 0xffff_ffff * 0xffff_ffff) by (nonlinear_arith)
        requires
            a_scale <= 0xffff_ffff,
            b_scale <= 0xffff_ffff,
    ;
    assert(a_size * b_scale <= 0xffff_ffff * 0xffff_ffff) by (nonlinear_arith)
        requires
            a_size <= 0xffff_ffff,
            b_scale <= 0xffff_ffff,
    ;
    assert(b_size * a_scale <= 0xffff_ffff * 0xffff_ffff) by (nonlinear_arith)
        requires
            b_size <= 0xffff_ffff,
            a_scale <= 0xffff_ffff,
    ;
    let scales: u128 = a_scale as u128 * b_scale as u128;
    let reach: u128 = a_size as u128 * b_scale as u128 + b_size as u128 * a_scale as u128;
    if scales == 0 {
        assert(2 * apart * (a_scale * b_scale) == 0) by (nonlinear_arith)
            requires
                a_scale * b_scale == 0,
        ;
        true
    } else {
        proof {
            lemma_product_bound_is_quotient_bound(2 * apart, scales as int, reach as int);
        }
        2 * apart <= reach / scales
    }
}

/// The overlap test does not depend on the order of the two boxes.
pub proof fn lemma_overlap_is_symmetric(a: Body, b: Body)
    ensures
        a.overlaps(b) == b.overlaps(a),
{
    assert(a.scale_x * b.scale_x == b.scale_x * a.scale_x) by (nonlinear_arith);
    assert(a.scale_y * b.scale_y == b.scale_y * a.scale_y) by (nonlinear_arith);
}

/// Every box overlaps itself.
pub proof fn lemma_overlap_is_reflexive(a: Body)
    ensures
        a.overlaps(a),
{
    assert(2 * distance(a.x as int, a.x as int) * (a.scale_x * a.scale_x) == 0) by (nonlinear_arith)
        requires
            distance(a.x as int, a.x as int) == 0,
    ;
    assert(2 * distance(a.y as int, a.y as int) * (a.scale_y * a.scale_y) == 0) by (nonlinear_arith)
        requires
            distance(a.y as int, a.y as int) == 0,
    ;
    assert(0 <= a.width * a.scale_x + a.width * a.scale_x) by (nonlinear_arith);
    assert(0 <= a.height * a.scale_y + a.height * a.scale_y) by (nonlinear_arith);
}

/// With both scales at 1 two intervals meet when twice the distance of
/// their centres is at most the sum of their sizes.
proof fn lemma_spans_meet_unscaled(a_center: int, a_size: nat, b_center: int, b_size: nat)
    ensures
        spans_meet(a_center, a_size, 1, b_center, b_size, 1) <==> 2 * distance(a_center, b_center)
            <= a_size + b_size,
{
    let apart = distance(a_center, b_center);
    assert(2 * apart * (1nat * 1nat) == 2 * apart) by (nonlinear_arith);
    assert(a_size * 1nat + b_size * 1nat == a_size + b_size) by (nonlinear_arith);
}

/// For boxes of scale 1 the test is the familiar one: on each axis, twice
/// the distance of the centres is at most the sum of the sizes.
pub proof fn lemma_overlap_unscaled(a: Body, b: Body)
    requires
        a.scale_x == 1 && a.scale_y == 1,
        b.scale_x == 1 && b.scale_y == 1,
    ensures
        a.overlaps(b) <==> {
            &&& 2 * distance(a.x as int, b.x as int) <= a.width + b.width
            &&& 2 * distance(a.y as int, b.y as int) <= a.height + b.height
        },
{
    lemma_spans_meet_unscaled(a.x as int, a.width as nat, b.x as int, b.width as nat);
    lemma_spans_meet_unscaled(a.y as int, a.height as nat, b.y as int, b.height as nat);
}

/// Two boxes of scale 1 that overlap on the vertical axis and share exactly
/// one vertical edge overlap: the convention is inclusive. Any further apart
/// they no longer do.
pub proof fn lemma_touching_edges_overlap(a: Body, b: Body)
    requires
        a.scale_x == 1 && a.scale_y == 1,
        b.scale_x == 1 && b.scale_y == 1,
        2 * distance(a.y as int, b.y as int) <= a.height + b.height,
    ensures
        2 * distance(a.x as int, b.x as int) == a.width + b.width ==> a.overlaps(b),
        2 * distance(a.x as int, b.x as int) > a.width + b.width ==> !a.overlaps(b),
{
    lemma_overlap_unscaled(a, b);
}

} // verus!
