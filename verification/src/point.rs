//! An owned point, the sample type behind the opaque-handle protocol.
//!
//! The constructor hands out an owned, heap-allocated point; the destructor
//! accepts an absent handle as a no-op; the distance accessor keeps its
//! author's precondition exactly as written — both coordinates of the
//! receiver strictly negative — so violating it is a documented failure path,
//! contained by the barrier, not a corrected one.

use vstd::prelude::*;

use crate::error_slot::ErrorSlot;
use crate::fault::FaultPayload;
use crate::fault::contain_fault;
use crate::fault::spec_error_msg;

verus! {

/// An owned pair of coordinates, exposed across the boundary as an opaque
/// handle.
pub struct Point {
    x: i64,
    y: i64,
}

impl View for Point {
    type V = (int, int);

    closed spec fn view(&self) -> (int, int) {
        (self.x as int, self.y as int)
    }
}

/// Distance between two coordinates on one axis.
pub open spec fn spec_abs_diff(a: int, b: int) -> int {
    if a >= b {
        a - b
    } else {
        b - a
    }
}

/// The distance-like value the accessor computes: the sum of the per-axis
/// distances.
pub open spec fn spec_manhattan(p: (int, int), q: (int, int)) -> int {
    spec_abs_diff(p.0, q.0) + spec_abs_diff(p.1, q.1)
}

/// A sum in `[0, 2^64)` read back as a 64-bit two's-complement value, which
/// is how the boundary returns the unsigned distance through its signed slot.
pub open spec fn spec_wrap_to_i64(d: int) -> int {
    if d <= i64::MAX {
        d
    } else {
        d - 0x10000000000000000
    }
}

fn abs_diff_i64(a: i64, b: i64) -> (r: u64)
    ensures
        r == spec_abs_diff(a as int, b as int),
{
    if a >= b {
        ((a as i128) - (b as i128)) as u64
    } else {
        ((b as i128) - (a as i128)) as u64
    }
}

impl Point {
    /// Make a point from the two coordinates handed across the boundary.
    pub fn new(source: i64, target: i64) -> (p: Point)
        ensures
            p@ == (source as int, target as int),
    {
        Point { x: source, y: target }
    }

    /// The first coordinate, read by copy.
    pub fn x(&self) -> (r: i64)
        ensures
            r as int == self@.0,
    {
        self.x
    }

    /// The second coordinate, read by copy.
    pub fn y(&self) -> (r: i64)
        ensures
            r as int == self@.1,
    {
        self.y
    }

    /// Sum of per-axis distances to `other`. Its author's precondition —
    /// both coordinates of the receiver strictly negative — stands as
    /// written; calls that violate it are the barrier's business, not this
    /// function's.
    pub fn manhattan(&self, other: &Point) -> (r: u64)
        requires
            self@.0 < 0 && self@.1 < 0,
            spec_manhattan(self@, other@) <= u64::MAX,
        ensures
            r == spec_manhattan(self@, other@),
    {
        let dx = abs_diff_i64(self.x, other.x);
        let dy = abs_diff_i64(self.y, other.y);
        dx + dy
    }
}

/// The text of the fault raised when the accessor's precondition fails.
pub open spec fn spec_precondition_msg() -> Seq<char> {
    "assertion failed: self.x < 0 && self.y < 0"@
}

/// The text of the fault raised when the distance sum does not fit 64 bits.
pub open spec fn spec_overflow_msg() -> Seq<char> {
    "attempt to add with overflow"@
}

/// The accessor's body as the barrier sees it: the normal result where the
/// precondition holds and the sum fits, and the fault it would otherwise
/// terminate with.
fn manhattan_attempt(p1: &Point, p2: &Point) -> (res: Result<i64, FaultPayload>)
    ensures
        match res {
            Ok(v) => {
                &&& p1@.0 < 0 && p1@.1 < 0
                &&& spec_manhattan(p1@, p2@) <= u64::MAX
                &&& v == spec_wrap_to_i64(spec_manhattan(p1@, p2@))
            },
            Err(p) => {
                ||| (!(p1@.0 < 0 && p1@.1 < 0) && spec_error_msg(p) == spec_precondition_msg())
                ||| (p1@.0 < 0 && p1@.1 < 0 && spec_manhattan(p1@, p2@) > u64::MAX
                    && spec_error_msg(p) == spec_overflow_msg())
            },
        },
{
    if !(p1.x < 0 && p1.y < 0) {
        return Err(FaultPayload::Literal("assertion failed: self.x < 0 && self.y < 0"));
    }
    let dx = abs_diff_i64(p1.x, p2.x);
    let dy = abs_diff_i64(p1.y, p2.y);
    if dx > u64::MAX - dy {
        return Err(FaultPayload::Literal("attempt to add with overflow"));
    }
    let d = p1.manhattan(p2);
    if d <= i64::MAX as u64 {
        Ok(d as i64)
    } else {
        Ok(-((u64::MAX - d) as i64) - 1)
    }
}

/// Build a point on the heap and hand its ownership to the caller. The
/// matching destructor is [`Point_drop`], to be called exactly once.
#[allow(non_snake_case)]
pub fn Point_new(source: i64, target: i64) -> (b: Box<Point>)
    ensures
        b@ == (source as int, target as int),
{
    let rel = Point::new(source, target);
    Box::new(rel)
}

/// Destroy a point handle. An absent handle is a no-op; a present one is
/// deallocated and must not be used again.
#[allow(non_snake_case)]
pub fn Point_drop(_r: Option<Box<Point>>) {
}

/// The guarded distance accessor: its argument points are passed by copy, so
/// nothing the call does is visible in the caller's own values. Where the
/// precondition holds and the sum fits, the distance comes back through the
/// signed slot; any fault is contained, recorded in the slot, and answered
/// with the sentinel `-1`.
#[allow(non_snake_case)]
pub fn Point_manhattan(slot: &mut ErrorSlot, p1: Point, p2: Point) -> (r: i64)
    ensures
        (p1@.0 < 0 && p1@.1 < 0 && spec_manhattan(p1@, p2@) <= u64::MAX) ==> {
            &&& r == spec_wrap_to_i64(spec_manhattan(p1@, p2@))
            &&& final(slot)@ == old(slot)@
        },
        !(p1@.0 < 0 && p1@.1 < 0) ==> {
            &&& r == -1
            &&& final(slot)@ == Some(spec_precondition_msg())
        },
        (p1@.0 < 0 && p1@.1 < 0 && spec_manhattan(p1@, p2@) > u64::MAX) ==> {
            &&& r == -1
            &&& final(slot)@ == Some(spec_overflow_msg())
        },
{
    let outcome = manhattan_attempt(&p1, &p2);
    contain_fault(slot, outcome, -1)
}

/// Hand two fixed sample points to a host-supplied operation and return
/// whatever it computes; the operation's own contract is all that is known
/// of the result.
#[allow(non_snake_case)]
pub fn Point_operate<F: Fn(Point, Point) -> i64>(operation: F) -> (r: i64)
    requires
        forall|p1: Point, p2: Point|
            p1@ == (42int, 1337int) && p2@ == (1337int, 1338int)
                ==> #[trigger] call_requires(operation, (p1, p2)),
    ensures
        exists|p1: Point, p2: Point|
            p1@ == (42int, 1337int) && p2@ == (1337int, 1338int)
                && #[trigger] call_ensures(operation, (p1, p2), r),
{
    let p1 = Point { x: 42, y: 1337 };
    let p2 = Point { x: 1337, y: 1338 };
    let ghost g1 = p1;
    let ghost g2 = p2;
    let r = operation(p1, p2);
    proof {
        assert(g1@ == (42int, 1337int));
        assert(call_ensures(operation, (g1, g2), r));
    }
    r
}

} // verus!
