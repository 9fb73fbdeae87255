//! Points, vectors and axis-aligned bounding boxes in world space.
//!
//! Coordinates are fixed-point, in thousandths of a world unit. The contracts
//! speak of `Vector` and `Extent`, the same things over unbounded integers.

use vstd::prelude::*;
use crate::units::midpoint;
use crate::units::midpoint_of;

verus! {

/// Largest magnitude of a coordinate of a bounding box's corner, in thousandths
/// of a world unit. Inside it, everything the camera derives from a box fits in `i64`.
pub const WORLD_LIMIT: i64 = 1_000_000_000_000;

/// The smaller of two integers.
pub open spec fn lower(a: int, b: int) -> int {
    if a <= b {
        a
    } else {
        b
    }
}

/// The larger of two integers.
pub open spec fn upper(a: int, b: int) -> int {
    if a >= b {
        a
    } else {
        b
    }
}

/// A point or an offset in space, over the mathematical integers.
pub struct Vector {
    pub x: int,
    pub y: int,
    pub z: int,
}

impl Vector {
    /// No component of `self` exceeds the same component of `other`.
    pub open spec fn le(self, other: Vector) -> bool {
        self.x <= other.x && self.y <= other.y && self.z <= other.z
    }

    /// Every component lies in `-limit ..= limit`.
    pub open spec fn within(self, limit: int) -> bool {
        &&& -limit <= self.x <= limit
        &&& -limit <= self.y <= limit
        &&& -limit <= self.z <= limit
    }

    /// `self` moved by `by` along each of the three axes.
    pub open spec fn shifted(self, by: int) -> Vector {
        Vector { x: self.x + by, y: self.y + by, z: self.z + by }
    }

    /// The square of the straight-line distance between two points.
    pub open spec fn distance_squared(self, other: Vector) -> int {
        (self.x - other.x) * (self.x - other.x) + (self.y - other.y) * (self.y - other.y) + (self.z
            - other.z) * (self.z - other.z)
    }
}

/// A point or an offset in space, in thousandths of a world unit.
#[derive(Clone, Copy, Debug, PartialEq, Eq, Structural)]
pub struct Vec3 {
    pub x: i64,
    pub y: i64,
    pub z: i64,
}

impl View for Vec3 {
    type V = Vector;

    open spec fn view(&self) -> Vector {
        Vector { x: self.x as int, y: self.y as int, z: self.z as int }
    }
}

impl Vec3 {
    /// The vector with the given components.
    pub fn new(x: i64, y: i64, z: i64) -> (v: Vec3)
        ensures
            v@ == (Vector { x: x as int, y: y as int, z: z as int }),
    {
        Vec3 { x, y, z }
    }
}

/// What a bounding box covers: nothing at all, or everything between two corners.
pub enum Extent {
    /// The box of no geometry, the identity of `join`.
    Empty,
    /// Every point `p` with `min <= p <= max` on each axis.
    Span { min: Vector, max: Vector },
}

impl Extent {
    /// The corners are in order on every axis. An empty extent is always well formed.
    pub open spec fn wf(self) -> bool {
        match self {
            Extent::Empty => true,
            Extent::Span { min, max } => min.le(max),
        }
    }

    /// Both corners lie inside `WORLD_LIMIT`.
    pub open spec fn in_world(self) -> bool {
        match self {
            Extent::Empty => true,
            Extent::Span { min, max } => min.within(WORLD_LIMIT as int) && max.within(
                WORLD_LIMIT as int,
            ),
        }
    }

    /// The point `p` lies in the extent.
    pub open spec fn contains(self, p: Vector) -> bool {
        match self {
            Extent::Empty => false,
            Extent::Span { min, max } => min.le(p) && p.le(max),
        }
    }

    /// All of `inner` lies in `self`.
    pub open spec fn encloses(self, inner: Extent) -> bool {
        match inner {
            Extent::Empty => true,
            Extent::Span { min, max } => match self {
                Extent::Empty => false,
                Extent::Span { min: outer_min, max: outer_max } => outer_min.le(min) && max.le(
                    outer_max,
                ),
            },
        }
    }

    /// The point halfway between the corners, each coordinate rounded down to the
    /// grid. The origin for an empty extent.
    pub open spec fn center(self) -> Vector {
        match self {
            Extent::Empty => Vector { x: 0, y: 0, z: 0 },
            Extent::Span { min, max } => Vector {
                x: midpoint(min.x, max.x),
                y: midpoint(min.y, max.y),
                z: midpoint(min.z, max.z),
            },
        }
    }

    /// The edge lengths, `max - min`. Zero for an empty extent.
    pub open spec fn size(self) -> Vector {
        match self {
            Extent::Empty => Vector { x: 0, y: 0, z: 0 },
            Extent::Span { min, max } => Vector {
                x: max.x - min.x,
                y: max.y - min.y,
                z: max.z - min.z,
            },
        }
    }

    /// The longest edge.
    pub open spec fn max_dim(self) -> int {
        upper(upper(self.size().x, self.size().y), self.size().z)
    }

    /// There is nothing to frame: the extent is empty or a single point.
    pub open spec fn is_degenerate(self) -> bool {
        self is Empty || self.max_dim() == 0
    }

    /// The smallest extent that encloses both `self` and `other`.
    pub open spec fn join(self, other: Extent) -> Extent {
        match (self, other) {
            (Extent::Empty, _) => other,
            (_, Extent::Empty) => self,
            (Extent::Span { min: a, max: b }, Extent::Span { min: c, max: d }) => Extent::Span {
                min: Vector { x: lower(a.x, c.x), y: lower(a.y, c.y), z: lower(a.z, c.z) },
                max: Vector { x: upper(b.x, d.x), y: upper(b.y, d.y), z: upper(b.z, d.z) },
            },
        }
    }
}

/// The smallest extent that encloses every one of `parts`, joined from the first on.
pub open spec fn join_all(parts: Seq<Extent>) -> Extent
    decreases parts.len(),
{
    if parts.len() == 0 {
        Extent::Empty
    } else {
        join_all(parts.drop_last()).join(parts.last())
    }
}

/// The extents of a sequence of boxes, in the same order.
pub open spec fn extents(boxes: Seq<BoundingBox>) -> Seq<Extent> {
    Seq::new(boxes.len(), |i: int| boxes[i]@)
}

/// Joining is the least upper bound of two well-formed extents: the join is well
/// formed, encloses both, and lies inside every well-formed extent that encloses both.
pub proof fn lemma_join_is_least_enclosure(a: Extent, b: Extent, c: Extent)
    requires
        a.wf(),
        b.wf(),
    ensures
        a.join(b).wf(),
        a.join(b).encloses(a),
        a.join(b).encloses(b),
        c.encloses(a) && c.encloses(b) ==> c.encloses(a.join(b)),
{
}

/// The order of the two operands of a join does not matter.
pub proof fn lemma_join_commutative(a: Extent, b: Extent)
    ensures
        a.join(b) == b.join(a),
{
}

/// Joins can be grouped either way.
pub proof fn lemma_join_associative(a: Extent, b: Extent, c: Extent)
    ensures
        a.join(b).join(c) == a.join(b.join(c)),
{
}

/// Joining an extent with itself, or with the empty extent, changes nothing.
pub proof fn lemma_join_identity(a: Extent)
    requires
        a.wf(),
    ensures
        a.join(a) == a,
        a.join(Extent::Empty) == a,
        Extent::Empty.join(a) == a,
{
}

/// Joining keeps corners inside the world limit.
pub proof fn lemma_join_in_world(a: Extent, b: Extent)
    requires
        a.in_world(),
        b.in_world(),
    ensures
        a.join(b).in_world(),
{
}

/// Every point of an extent is a point of each extent that encloses it.
pub proof fn lemma_enclosed_points_are_contained(outer: Extent, inner: Extent, p: Vector)
    requires
        outer.encloses(inner),
        inner.contains(p),
    ensures
        outer.contains(p),
{
}

/// The join of a sequence of well-formed extents is well formed and encloses
/// each of them.
pub proof fn lemma_join_all_encloses_each(parts: Seq<Extent>, i: int)
    requires
        forall|k: int| 0 <= k < parts.len() ==> (#[trigger] parts[k]).wf(),
        0 <= i < parts.len(),
    ensures
        join_all(parts).wf(),
        join_all(parts).encloses(parts[i]),
    decreases parts.len(),
{
    let front = parts.drop_last();
    lemma_join_all_wf(front);
    lemma_join_is_least_enclosure(join_all(front), parts.last(), Extent::Empty);
    if i < parts.len() - 1 {
        lemma_join_all_encloses_each(front, i);
        assert(front[i] == parts[i]);
        lemma_encloses_transitive(join_all(parts), join_all(front), parts[i]);
    }
}

/// The join of a sequence of well-formed extents lies inside every extent that
/// encloses each of them: no smaller box would do.
pub proof fn lemma_join_all_is_least(parts: Seq<Extent>, c: Extent)
    requires
        forall|k: int| 0 <= k < parts.len() ==> (#[trigger] parts[k]).wf(),
        forall|k: int| 0 <= k < parts.len() ==> c.encloses(#[trigger] parts[k]),
    ensures
        c.encloses(join_all(parts)),
    decreases parts.len(),
{
    if parts.len() > 0 {
        let front = parts.drop_last();
        assert forall|k: int| 0 <= k < front.len() implies c.encloses(#[trigger] front[k]) by {
            assert(front[k] == parts[k]);
        }
        lemma_join_all_is_least(front, c);
        lemma_join_all_wf(front);
        lemma_join_is_least_enclosure(join_all(front), parts.last(), c);
    }
}

/// Enclosure is transitive.
pub proof fn lemma_encloses_transitive(a: Extent, b: Extent, c: Extent)
    requires
        a.encloses(b),
        b.encloses(c),
    ensures
        a.encloses(c),
{
}

/// The join of well-formed extents is well formed.
pub proof fn lemma_join_all_wf(parts: Seq<Extent>)
    requires
        forall|k: int| 0 <= k < parts.len() ==> (#[trigger] parts[k]).wf(),
    ensures
        join_all(parts).wf(),
    decreases parts.len(),
{
    if parts.len() > 0 {
        let front = parts.drop_last();
        lemma_join_all_wf(front);
        lemma_join_is_least_enclosure(join_all(front), parts.last(), Extent::Empty);
    }
}

/// An axis-aligned bounding box in world space: empty, or the span between two
/// corners that are in order on every axis and inside `WORLD_LIMIT`.
#[derive(Clone, Copy, Debug, PartialEq, Eq)]
pub struct BoundingBox {
    span: Option<(Vec3, Vec3)>,
}

impl View for BoundingBox {
    type V = Extent;

    closed spec fn view(&self) -> Extent {
        match self.span {
            None => Extent::Empty,
            Some((min, max)) => Extent::Span { min: min@, max: max@ },
        }
    }
}

impl BoundingBox {
    /// What holds of every box: its extent is well formed and inside the world limit.
    #[verifier::type_invariant]
    pub open spec fn inv(&self) -> bool {
        self@.wf() && self@.in_world()
    }

    /// The box of no geometry.
    pub fn empty() -> (b: BoundingBox)
        ensures
            b@ == Extent::Empty,
    {
        BoundingBox { span: None }
    }

    /// The box between two corners, if they are in order on every axis and inside
    /// `WORLD_LIMIT`; nothing otherwise.
    pub fn new(min: Vec3, max: Vec3) -> (made: Option<BoundingBox>)
        ensures
            made is Some <==> min@.le(max@) && min@.within(WORLD_LIMIT as int) && max@.within(
                WORLD_LIMIT as int,
            ),
            made is Some ==> made->Some_0@ == (Extent::Span { min: min@, max: max@ }),
    {
        if min.x <= max.x && min.y <= max.y && min.z <= max.z && in_limit(min) && in_limit(max) {
            Some(BoundingBox { span: Some((min, max)) })
        } else {
            None
        }
    }

    /// Whether the box holds no geometry.
    pub fn is_empty(&self) -> (e: bool)
        ensures
            e == (self@ is Empty),
    {
        self.span.is_none()
    }

    /// The corner with the smallest coordinates, if the box is not empty.
    pub fn min(&self) -> (corner: Option<Vec3>)
        ensures
            match corner {
                Some(c) => self@ is Span && c@ == self@->min,
                None => self@ is Empty,
            },
    {
        match self.span {
            Some((min, _)) => Some(min),
            None => None,
        }
    }

    /// The corner with the largest coordinates, if the box is not empty.
    pub fn max(&self) -> (corner: Option<Vec3>)
        ensures
            match corner {
                Some(c) => self@ is Span && c@ == self@->max,
                None => self@ is Empty,
            },
    {
        match self.span {
            Some((_, max)) => Some(max),
            None => None,
        }
    }

    /// The point halfway between the corners, if the box is not empty.
    pub fn center(&self) -> (c: Option<Vec3>)
        ensures
            match c {
                Some(v) => self@ is Span && v@ == self@.center(),
                None => self@ is Empty,
            },
    {
        proof {
            use_type_invariant(self);
        }
        match self.span {
            Some((min, max)) => Some(
                Vec3 {
                    x: midpoint_of(min.x, max.x),
                    y: midpoint_of(min.y, max.y),
                    z: midpoint_of(min.z, max.z),
                },
            ),
            None => None,
        }
    }

    /// The edge lengths, if the box is not empty.
    pub fn size(&self) -> (s: Option<Vec3>)
        ensures
            match s {
                Some(v) => self@ is Span && v@ == self@.size(),
                None => self@ is Empty,
            },
    {
        proof {
            use_type_invariant(self);
        }
        match self.span {
            Some((min, max)) => Some(
                Vec3 { x: max.x - min.x, y: max.y - min.y, z: max.z - min.z },
            ),
            None => None,
        }
    }

    /// The longest edge, if the box is not empty.
    pub fn max_dim(&self) -> (d: Option<i64>)
        ensures
            match d {
                Some(m) => self@ is Span && m == self@.max_dim(),
                None => self@ is Empty,
            },
    {
        match self.size() {
            Some(size) => {
                let mut longest: i64 = size.x;
                if size.y > longest {
                    longest = size.y;
                }
                if size.z > longest {
                    longest = size.z;
                }
                Some(longest)
            },
            None => None,
        }
    }

    /// Whether there is nothing to frame: the box is empty or a single point.
    pub fn is_degenerate(&self) -> (d: bool)
        ensures
            d == self@.is_degenerate(),
    {
        match self.max_dim() {
            Some(longest) => longest == 0,
            None => true,
        }
    }

    /// Grows the box, as little as possible, until it encloses `other` too.
    pub fn expand_with_aabb(&mut self, other: &BoundingBox)
        ensures
            final(self)@ == old(self)@.join(other@),
    {
        proof {
            use_type_invariant(&*self);
            use_type_invariant(other);
        }
        match (self.span, other.span) {
            (_, None) => {},
            (None, Some(_)) => {
                self.span = other.span;
            },
            (Some((a, b)), Some((c, d))) => {
                let min = Vec3 { x: smaller(a.x, c.x), y: smaller(a.y, c.y), z: smaller(a.z, c.z) };
                let max = Vec3 { x: larger(b.x, d.x), y: larger(b.y, d.y), z: larger(b.z, d.z) };
                self.span = Some((min, max));
            },
        }
    }

    /// The smallest box that encloses every one of `parts`; the empty box when
    /// there are none.
    pub fn enclosing(parts: &[BoundingBox]) -> (all: BoundingBox)
        ensures
            all@ == join_all(extents(parts@)),
    {
        let mut all = BoundingBox::empty();
        let mut i: usize = 0;
        while i < parts.len()
            invariant
                i <= parts.len(),
                all@ == join_all(extents(parts@.take(i as int))),
            decreases parts.len() - i,
        {
            proof {
                let before = extents(parts@.take(i as int));
                let after = extents(parts@.take(i as int + 1));
                assert(after.drop_last() =~= before);
                assert(after.last() == parts@[i as int]@);
            }
            all.expand_with_aabb(&parts[i]);
            i = i + 1;
        }
        proof {
            assert(parts@.take(i as int) =~= parts@);
        }
        all
    }
}

/// Whether every component of `v` lies inside `WORLD_LIMIT`.
fn in_limit(v: Vec3) -> (inside: bool)
    ensures
        inside == v@.within(WORLD_LIMIT as int),
{
    -WORLD_LIMIT <= v.x && v.x <= WORLD_LIMIT && -WORLD_LIMIT <= v.y && v.y <= WORLD_LIMIT
        && -WORLD_LIMIT <= v.z && v.z <= WORLD_LIMIT
}

/// The smaller of two coordinates.
fn smaller(a: i64, b: i64) -> (m: i64)
    ensures
        m == lower(a as int, b as int),
{
    if a <= b {
        a
    } else {
        b
    }
}

/// The larger of two coordinates.
fn larger(a: i64, b: i64) -> (m: i64)
    ensures
        m == upper(a as int, b as int),
{
    if a >= b {
        a
    } else {
        b
    }
}

} // verus!
