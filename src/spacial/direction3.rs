//! A 3D cardinal direction.

use vstd::prelude::*;
use vstd::std_specs::convert::FromSpecImpl;
use vstd::std_specs::ops::{AddSpecImpl, NegSpecImpl, SubSpecImpl};

use super::vector3i::{in_i32, Vector3i};

verus! {

/// A 3D cardinal direction.
#[derive(Debug, Clone, Copy, PartialEq, Eq, Structural)]
pub enum Direction3 {
    /// Positive x.
    East,
    /// Negative x.
    West,
    /// Positive y.
    North,
    /// Negative y.
    South,
    /// Positive z.
    Up,
    /// Negative z.
    Down,
}

impl Direction3 {
    /// The opposite direction on the same axis.
    pub open spec fn negated(self) -> Direction3 {
        match self {
            Direction3::East => Direction3::West,
            Direction3::West => Direction3::East,
            Direction3::North => Direction3::South,
            Direction3::South => Direction3::North,
            Direction3::Up => Direction3::Down,
            Direction3::Down => Direction3::Up,
        }
    }

    /// The unit vector that points this way.
    pub open spec fn to_vector(self) -> Vector3i {
        match self {
            Direction3::East => Vector3i { x: 1, y: 0, z: 0 },
            Direction3::West => Vector3i { x: -1i32, y: 0, z: 0 },
            Direction3::North => Vector3i { x: 0, y: 1, z: 0 },
            Direction3::South => Vector3i { x: 0, y: -1i32, z: 0 },
            Direction3::Up => Vector3i { x: 0, y: 0, z: 1 },
            Direction3::Down => Vector3i { x: 0, y: 0, z: -1i32 },
        }
    }

    /// The direction reversed.
    pub fn negate(self) -> (r: Direction3)
        ensures
            r == self.negated(),
    {
        match self {
            Direction3::East => Direction3::West,
            Direction3::West => Direction3::East,
            Direction3::North => Direction3::South,
            Direction3::South => Direction3::North,
            Direction3::Up => Direction3::Down,
            Direction3::Down => Direction3::Up,
        }
    }
}

/// `p` moved one step in direction `d`.
pub open spec fn step(p: (int, int, int), d: Direction3) -> (int, int, int) {
    let u = d.to_vector();
    (p.0 + u.x, p.1 + u.y, p.2 + u.z)
}

/// Whether every component of `p` can be held by an `i32`.
pub open spec fn fits(p: (int, int, int)) -> bool {
    in_i32(p.0) && in_i32(p.1) && in_i32(p.2)
}

/// Negation is an involution without fixed points: reversing twice gives the
/// direction back, and no direction is its own reverse.
pub proof fn lemma_negate_involution(d: Direction3)
    ensures
        d.negated().negated() == d,
        d.negated() != d,
{
}

/// Every direction is a unit vector along exactly one axis, and its reverse
/// is the opposite vector.
pub proof fn lemma_unit_vector(d: Direction3)
    ensures
        ({
            let v = d.to_vector();
            let n = d.negated().to_vector();
            &&& -1 <= v.x <= 1 && -1 <= v.y <= 1 && -1 <= v.z <= 1
            &&& v.x != 0 || v.y != 0 || v.z != 0
            &&& v.x != 0 ==> v.y == 0 && v.z == 0
            &&& v.y != 0 ==> v.x == 0 && v.z == 0
            &&& v.z != 0 ==> v.x == 0 && v.y == 0
            &&& n.x == -v.x && n.y == -v.y && n.z == -v.z
        }),
{
}

impl core::ops::Neg for Direction3 {
    type Output = Self;

    fn neg(self) -> (r: Self)
        ensures
            r == self.negated(),
    {
        self.negate()
    }
}

impl NegSpecImpl for Direction3 {
    open spec fn obeys_neg_spec() -> bool {
        true
    }

    open spec fn neg_req(self) -> bool {
        true
    }

    open spec fn neg_spec(self) -> Direction3 {
        self.negated()
    }
}

// Direction3 -> Vector3i is total; the way back would need a rule for
// vectors that are not a unit step along one axis, so there is none.
impl From<Direction3> for Vector3i {
    fn from(value: Direction3) -> (r: Vector3i)
        ensures
            r == value.to_vector(),
    {
        Vector3i {
            x: match value {
                Direction3::East => 1,
                Direction3::West => -1,
                _ => 0,
            },
            y: match value {
                Direction3::North => 1,
                Direction3::South => -1,
                _ => 0,
            },
            z: match value {
                Direction3::Up => 1,
                Direction3::Down => -1,
                _ => 0,
            },
        }
    }
}

impl FromSpecImpl<Direction3> for Vector3i {
    open spec fn obeys_from_spec() -> bool {
        true
    }

    open spec fn from_spec(v: Direction3) -> Vector3i {
        v.to_vector()
    }
}

impl core::ops::Add<Direction3> for Vector3i {
    type Output = Self;

    fn add(self, rhs: Direction3) -> (r: Self)
        ensures
            r.point() == step(self.point(), rhs),
    {
        self + Vector3i::from(rhs)
    }
}

impl AddSpecImpl<Direction3> for Vector3i {
    open spec fn obeys_add_spec() -> bool {
        true
    }

    open spec fn add_req(self, rhs: Direction3) -> bool {
        fits(step(self.point(), rhs))
    }

    open spec fn add_spec(self, rhs: Direction3) -> Self {
        let p = step(self.point(), rhs);
        Vector3i { x: p.0 as i32, y: p.1 as i32, z: p.2 as i32 }
    }
}

impl core::ops::Sub<Direction3> for Vector3i {
    type Output = Self;

    fn sub(self, rhs: Direction3) -> (r: Self)
        ensures
            r.point() == step(self.point(), rhs.negated()),
    {
        self + Vector3i::from(rhs.negate())
    }
}

impl SubSpecImpl<Direction3> for Vector3i {
    open spec fn obeys_sub_spec() -> bool {
        true
    }

    open spec fn sub_req(self, rhs: Direction3) -> bool {
        fits(step(self.point(), rhs.negated()))
    }

    open spec fn sub_spec(self, rhs: Direction3) -> Self {
        let p = step(self.point(), rhs.negated());
        Vector3i { x: p.0 as i32, y: p.1 as i32, z: p.2 as i32 }
    }
}

impl Vector3i {
    /// `self` moved one step in direction `d`, or `None` where that leaves the `i32` grid.
    pub fn checked_step(self, d: Direction3) -> (r: Option<Vector3i>)
        ensures
            r is Some <==> fits(step(self.point(), d)),
            r matches Some(v) ==> v.point() == step(self.point(), d),
    {
        let u = Vector3i::from(d);
        match (self.x.checked_add(u.x), self.y.checked_add(u.y), self.z.checked_add(u.z)) {
            (Some(x), Some(y), Some(z)) => Some(Vector3i { x, y, z }),
            _ => None,
        }
    }
}

} // verus!
