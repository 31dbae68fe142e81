use vstd::prelude::*;
use crate::skills::{clamp_i64, saturate_i64};

verus! {

/// A point or an extent in the plane, in micro-units.
#[derive(Clone, Copy, PartialEq, Eq, Structural, Debug)]
pub struct Vec2 {
    pub x: i64,
    pub y: i64,
}

impl Vec2 {
    pub fn new(x: i64, y: i64) -> (r: Vec2)
        ensures
            r == (Vec2 { x, y }),
    {
        Vec2 { x, y }
    }

    pub fn zero() -> (r: Vec2)
        ensures
            r == (Vec2 { x: 0, y: 0 }),
    {
        Vec2 { x: 0, y: 0 }
    }
}

/// `a - b` component by component, each saturating at the bounds of `i64`.
pub open spec fn sat_diff(a: Vec2, b: Vec2) -> Vec2 {
    Vec2 { x: clamp_i64(a.x - b.x) as i64, y: clamp_i64(a.y - b.y) as i64 }
}

/// `a - b` component by component, saturating at the bounds of `i64`.
pub fn saturating_diff(a: Vec2, b: Vec2) -> (r: Vec2)
    ensures
        r == sat_diff(a, b),
{
    Vec2 {
        x: saturate_i64(a.x as i128 - b.x as i128),
        y: saturate_i64(a.y as i128 - b.y as i128),
    }
}

/// What an overlap test reports: the contact vector, which is the position
/// of the first box minus the position of the second.
#[derive(Debug)]
pub struct Collision {
    point: Vec2,
}

impl Collision {
    pub closed spec fn point_spec(&self) -> Vec2 {
        self.point
    }

    pub fn new(point: Vec2) -> (r: Collision)
        ensures
            r.point_spec() == point,
    {
        Collision { point }
    }

    pub fn get_point(&self) -> (r: Vec2)
        ensures
            r == self.point_spec(),
    {
        self.point
    }
}

/// An axis-aligned box: its lower corner and its width and height.
#[derive(Clone, Copy, Debug)]
pub struct Collider {
    position: Vec2,
    dimensions: Vec2,
}

/// Whether the intervals `[a_min, a_min + a_len)` and `[b_min, b_min + b_len)`
/// overlap, by strict comparison of their edges.
pub open spec fn axis_overlap(a_min: int, a_len: int, b_min: int, b_len: int) -> bool {
    a_min < b_min + b_len && a_min + a_len > b_min
}

/// The separation of two intervals on one axis: the distance from the end
/// of one to the start of the other, negative where they overlap.
pub open spec fn axis_gap(a_min: int, a_len: int, b_min: int, b_len: int) -> int {
    let left = b_min - (a_min + a_len);
    let right = a_min - (b_min + b_len);
    if left >= right {
        left
    } else {
        right
    }
}

/// Whether boxes `a` and `b` overlap: they do on both axes.
pub open spec fn overlaps(a: Collider, b: Collider) -> bool {
    &&& axis_overlap(a.pos().x as int, a.dims().x as int, b.pos().x as int, b.dims().x as int)
    &&& axis_overlap(a.pos().y as int, a.dims().y as int, b.pos().y as int, b.dims().y as int)
}

/// The contact vector of `a` against `b`: `a`'s position minus `b`'s. On
/// overlap it is an `i64` on each axis (see `lemma_contact_fits`).
pub open spec fn contact(a: Collider, b: Collider) -> Vec2 {
    Vec2 { x: (a.pos().x - b.pos().x) as i64, y: (a.pos().y - b.pos().y) as i64 }
}

impl Collider {
    pub closed spec fn pos(&self) -> Vec2 {
        self.position
    }

    pub closed spec fn dims(&self) -> Vec2 {
        self.dimensions
    }

    pub fn new(position: Vec2, dimensions: Vec2) -> (r: Collider)
        ensures
            r.pos() == position,
            r.dims() == dimensions,
    {
        Collider { position, dimensions }
    }

    pub fn get_dimensions(&self) -> (r: Vec2)
        ensures
            r == self.dims(),
    {
        self.dimensions
    }

    pub fn get_position(&self) -> (r: Vec2)
        ensures
            r == self.pos(),
    {
        self.position
    }

    /// Moves the box; its dimensions stay.
    pub fn set_position(&mut self, position: Vec2)
        ensures
            final(self).pos() == position,
            final(self).dims() == old(self).dims(),
    {
        self.position = position;
    }

    /// Tests this box against `other`. On overlap it reports `true` and the
    /// contact vector; otherwise `false` and no collision.
    pub fn collide(&self, other: &Collider) -> (r: (bool, Option<Collision>))
        ensures
            r.0 == overlaps(*self, *other),
            r.0 ==> (r.1 is Some && r.1->Some_0.point_spec() == contact(*self, *other)),
            !r.0 ==> (r.1 is None),
    {
        let ax = self.position.x as i128;
        let ay = self.position.y as i128;
        let aw = self.dimensions.x as i128;
        let ah = self.dimensions.y as i128;
        let bx = other.position.x as i128;
        let by = other.position.y as i128;
        let bw = other.dimensions.x as i128;
        let bh = other.dimensions.y as i128;
        let hit = ax < bx + bw && ax + aw > bx && ay < by + bh && ay + ah > by;
        if hit {
            proof {
                lemma_contact_fits(*self, *other);
            }
            let point = Vec2 { x: (ax - bx) as i64, y: (ay - by) as i64 };
            (true, Some(Collision::new(point)))
        } else {
            (false, None)
        }
    }
}

/// Where two boxes overlap, their positions differ by less than a width on
/// the horizontal axis and less than a height on the vertical one, so the
/// contact vector is exact.
pub proof fn lemma_contact_fits(a: Collider, b: Collider)
    requires
        overlaps(a, b),
    ensures
        i64::MIN < a.pos().x - b.pos().x < i64::MAX,
        i64::MIN < a.pos().y - b.pos().y < i64::MAX,
        contact(a, b).x == a.pos().x - b.pos().x,
        contact(a, b).y == a.pos().y - b.pos().y,
{
}

/// Overlap does not depend on the order of the two boxes, and on overlap the
/// contact vector changes sign when the order does.
pub proof fn lemma_overlap_symmetric(a: Collider, b: Collider)
    ensures
        overlaps(a, b) == overlaps(b, a),
        overlaps(a, b) ==> contact(b, a) == (Vec2 { x: -contact(a, b).x as i64, y: -contact(a, b).y as i64 }),
{
    if overlaps(a, b) {
        lemma_contact_fits(a, b);
        lemma_contact_fits(b, a);
    }
}

/// Two boxes overlap exactly when their separation is negative on both axes;
/// a separation of zero or more on either axis, touching edges included,
/// means no overlap.
pub proof fn lemma_overlap_is_negative_separation(a: Collider, b: Collider)
    ensures
        overlaps(a, b) <==> (
            axis_gap(a.pos().x as int, a.dims().x as int, b.pos().x as int, b.dims().x as int) < 0
            && axis_gap(a.pos().y as int, a.dims().y as int, b.pos().y as int, b.dims().y as int)
            < 0),
{
}

/// Boxes whose edges touch on an axis, with nothing of either beyond the
/// shared edge, do not overlap.
pub proof fn lemma_touching_edges_do_not_overlap(a: Collider, b: Collider)
    requires
        a.pos().x + a.dims().x == b.pos().x || b.pos().x + b.dims().x == a.pos().x
            || a.pos().y + a.dims().y == b.pos().y || b.pos().y + b.dims().y == a.pos().y,
    ensures
        !overlaps(a, b),
{
}

} // verus!
