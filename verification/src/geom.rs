//! Two-dimensional integer vectors.
//!
//! Raw device events carry coordinates that fit in 32 bits; per-frame
//! aggregates carry sums of at most [`MAX_SAMPLES`] such coordinates, so every
//! sum fits comfortably in an `i64`.

use vstd::prelude::*;

verus! {

/// Largest number of accumulated samples (mouse deltas, wheel ticks, raw
/// events) a single frame may carry. Keeping this below `1 << 30` guarantees
/// that sums of 32-bit coordinates never overflow an `i64`.
pub const MAX_SAMPLES: usize = 0x4000_0000;

/// Magnitude bound for a single event coordinate (the 32-bit range).
pub const COORD_BOUND: i64 = 0x8000_0000;

/// Magnitude bound for a per-frame coordinate sum:
/// `MAX_SAMPLES * COORD_BOUND == 1 << 61`.
pub const SUM_BOUND: i64 = 0x2000_0000_0000_0000;

/// A planar vector with integer coordinates.
#[derive(Clone, Copy, Debug, PartialEq, Eq, Structural)]
pub struct Vec2 {
    pub x: i64,
    pub y: i64,
}

impl Vec2 {
    /// The origin; also the value buffers are reset to when drained.
    pub fn zero() -> (r: Vec2)
        ensures
            r == (Vec2 { x: 0, y: 0 }),
    {
        Vec2 { x: 0, y: 0 }
    }

    /// Both coordinates lie in the 32-bit range of a raw device event.
    pub open spec fn in_coord_range(self) -> bool {
        -COORD_BOUND <= self.x <= COORD_BOUND && -COORD_BOUND <= self.y <= COORD_BOUND
    }

    /// Both coordinates lie in the range of a per-frame sum.
    pub open spec fn in_sum_range(self) -> bool {
        -SUM_BOUND <= self.x <= SUM_BOUND && -SUM_BOUND <= self.y <= SUM_BOUND
    }

    /// Componentwise addition.
    pub fn add(self, other: Vec2) -> (r: Vec2)
        requires
            self.in_sum_range(),
            other.in_sum_range(),
        ensures
            r.x == self.x + other.x,
            r.y == self.y + other.y,
    {
        Vec2 { x: self.x + other.x, y: self.y + other.y }
    }
}

/// Sum of the `x` coordinates of a sequence of vectors.
pub open spec fn sum_x(s: Seq<Vec2>) -> int
    decreases s.len(),
{
    if s.len() == 0 {
        0
    } else {
        sum_x(s.drop_last()) + s.last().x
    }
}

/// Sum of the `y` coordinates of a sequence of vectors.
pub open spec fn sum_y(s: Seq<Vec2>) -> int
    decreases s.len(),
{
    if s.len() == 0 {
        0
    } else {
        sum_y(s.drop_last()) + s.last().y
    }
}

/// The componentwise sum of a sequence of vectors, as a vector.
pub open spec fn sum_vec(s: Seq<Vec2>) -> Vec2
    recommends
        -SUM_BOUND <= sum_x(s) <= SUM_BOUND,
        -SUM_BOUND <= sum_y(s) <= SUM_BOUND,
{
    Vec2 { x: sum_x(s) as i64, y: sum_y(s) as i64 }
}

/// A prefix one longer extends the sum by the next element.
proof fn lemma_sum_take_step(s: Seq<Vec2>, i: int)
    requires
        0 <= i < s.len(),
    ensures
        sum_x(s.take(i + 1)) == sum_x(s.take(i)) + s[i].x,
        sum_y(s.take(i + 1)) == sum_y(s.take(i)) + s[i].y,
{
    assert(s.take(i + 1).drop_last() =~= s.take(i));
    assert(s.take(i + 1).last() == s[i]);
}

/// `COORD_BOUND * i` stays within the sum range for any admissible count.
pub proof fn lemma_coord_scale(i: int)
    requires
        0 <= i <= MAX_SAMPLES as int,
    ensures
        0 <= COORD_BOUND * i <= SUM_BOUND,
{
    assert(0 <= COORD_BOUND * i <= COORD_BOUND * (MAX_SAMPLES as int)) by (nonlinear_arith)
        requires
            0 <= i <= MAX_SAMPLES as int,
    ;
    assert(COORD_BOUND * (MAX_SAMPLES as int) == SUM_BOUND) by (nonlinear_arith);
}

/// Add up a list of event-range vectors into one sum vector.
pub fn sum_samples(v: &Vec<Vec2>) -> (r: Vec2)
    requires
        v@.len() <= MAX_SAMPLES,
        forall|i: int| 0 <= i < v@.len() ==> (#[trigger] v@[i]).in_coord_range(),
    ensures
        r == sum_vec(v@),
        r.in_sum_range(),
{
    let mut total = Vec2 { x: 0, y: 0 };
    let n = v.len();
    let mut i: usize = 0;
    proof {
        assert(v@.take(0) =~= Seq::<Vec2>::empty());
    }
    while i < n
        invariant
            n == v@.len(),
            n <= MAX_SAMPLES,
            i <= n,
            forall|j: int| 0 <= j < v@.len() ==> (#[trigger] v@[j]).in_coord_range(),
            total.x == sum_x(v@.take(i as int)),
            total.y == sum_y(v@.take(i as int)),
            -(COORD_BOUND * (i as int)) <= total.x <= COORD_BOUND * (i as int),
            -(COORD_BOUND * (i as int)) <= total.y <= COORD_BOUND * (i as int),
        decreases n - i,
    {
        proof {
            lemma_sum_take_step(v@, i as int);
            lemma_coord_scale(i as int);
            lemma_coord_scale(i as int + 1);
            assert(COORD_BOUND * (i as int) + COORD_BOUND == COORD_BOUND * (i as int + 1))
                by (nonlinear_arith);
            assert(v@[i as int].in_coord_range());
        }
        total = Vec2 { x: total.x + v[i].x, y: total.y + v[i].y };
        i = i + 1;
    }
    proof {
        assert(v@.take(n as int) =~= v@);
        lemma_coord_scale(n as int);
    }
    total
}

} // verus!
