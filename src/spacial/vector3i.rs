//! 3D integer grid positions.

use vstd::prelude::*;
use vstd::std_specs::ops::{AddSpecImpl, DivSpecImpl, MulSpecImpl, NegSpecImpl, SubSpecImpl};

verus! {

/// Whether `v` can be held by an `i32`.
pub open spec fn in_i32(v: int) -> bool {
    i32::MIN <= v <= i32::MAX
}

/// Integer division rounding toward zero, as Rust's `/` does on signed integers.
pub open spec fn trunc_div(a: int, b: int) -> int {
    if a == 0 {
        0
    } else if a > 0 && b > 0 {
        a / b
    } else if a < 0 && b < 0 {
        (a * -1) / (b * -1)
    } else if a < 0 {
        ((a * -1) / b) * -1
    } else {
        (a / (b * -1)) * -1
    }
}

/// Whether `a / b` is defined on `i32`: no division by zero and no overflow.
pub open spec fn div_ok(a: i32, b: i32) -> bool {
    b != 0 && !(a == i32::MIN && b == -1)
}

/// A quotient of `i32` values that `div_ok` admits fits in an `i32`.
proof fn lemma_trunc_div_fits(a: i32, b: i32)
    requires
        div_ok(a, b),
    ensures
        in_i32(trunc_div(a as int, b as int)),
{
    let x = a as int;
    let d = b as int;
    if x > 0 && d > 0 {
        assert(0 <= x / d <= x) by (nonlinear_arith)
            requires
                x > 0,
                d > 0,
        ;
    } else if x < 0 && d < 0 {
        assert(0 <= (x * -1) / (d * -1) <= x * -1) by (nonlinear_arith)
            requires
                x < 0,
                d < 0,
        ;
        if d == -1 {
            assert((x * -1) / (d * -1) == x * -1);
        } else {
            assert((x * -1) / (d * -1) <= (x * -1) / 2) by (nonlinear_arith)
                requires
                    x < 0,
                    d < -1,
            ;
        }
    } else if x < 0 {
        assert(0 <= (x * -1) / d <= x * -1) by (nonlinear_arith)
            requires
                x < 0,
                d > 0,
        ;
    } else if x > 0 {
        assert(0 <= x / (d * -1) <= x) by (nonlinear_arith)
            requires
                x > 0,
                d < 0,
        ;
    }
}

/// `a / b`, rounding toward zero.
fn div_i32(a: i32, b: i32) -> (q: i32)
    requires
        div_ok(a, b),
    ensures
        q == trunc_div(a as int, b as int),
{
    proof {
        lemma_trunc_div_fits(a, b);
    }
    a.checked_div(b).unwrap()
}

/// 3D grid position.
#[derive(Debug, Clone, Copy, PartialEq, Eq, Structural)]
pub struct Vector3i {
    pub x: i32,
    pub y: i32,
    pub z: i32,
}

impl Vector3i {
    /// The components as mathematical integers.
    pub open spec fn point(self) -> (int, int, int) {
        (self.x as int, self.y as int, self.z as int)
    }

    pub fn new(x: i32, y: i32, z: i32) -> (r: Self)
        ensures
            r.x == x,
            r.y == y,
            r.z == z,
    {
        Self { x, y, z }
    }
}

impl core::ops::Neg for Vector3i {
    type Output = Self;

    fn neg(self) -> (r: Self)
        ensures
            r.x == -self.x,
            r.y == -self.y,
            r.z == -self.z,
    {
        Self { x: -self.x, y: -self.y, z: -self.z }
    }
}

impl NegSpecImpl for Vector3i {
    open spec fn obeys_neg_spec() -> bool {
        true
    }

    open spec fn neg_req(self) -> bool {
        &&& in_i32(-self.x)
        &&& in_i32(-self.y)
        &&& in_i32(-self.z)
    }

    open spec fn neg_spec(self) -> Self {
        Vector3i { x: (-self.x) as i32, y: (-self.y) as i32, z: (-self.z) as i32 }
    }
}

impl core::ops::Add for Vector3i {
    type Output = Self;

    fn add(self, rhs: Self) -> (r: Self)
        ensures
            r.x == self.x + rhs.x,
            r.y == self.y + rhs.y,
            r.z == self.z + rhs.z,
    {
        Self { x: self.x + rhs.x, y: self.y + rhs.y, z: self.z + rhs.z }
    }
}

impl AddSpecImpl for Vector3i {
    open spec fn obeys_add_spec() -> bool {
        true
    }

    open spec fn add_req(self, rhs: Self) -> bool {
        &&& in_i32(self.x + rhs.x)
        &&& in_i32(self.y + rhs.y)
        &&& in_i32(self.z + rhs.z)
    }

    open spec fn add_spec(self, rhs: Self) -> Self {
        Vector3i {
            x: (self.x + rhs.x) as i32,
            y: (self.y + rhs.y) as i32,
            z: (self.z + rhs.z) as i32,
        }
    }
}

impl core::ops::Sub for Vector3i {
    type Output = Self;

    fn sub(self, rhs: Self) -> (r: Self)
        ensures
            r.x == self.x - rhs.x,
            r.y == self.y - rhs.y,
            r.z == self.z - rhs.z,
    {
        Self { x: self.x - rhs.x, y: self.y - rhs.y, z: self.z - rhs.z }
    }
}

impl SubSpecImpl for Vector3i {
    open spec fn obeys_sub_spec() -> bool {
        true
    }

    open spec fn sub_req(self, rhs: Self) -> bool {
        &&& in_i32(self.x - rhs.x)
        &&& in_i32(self.y - rhs.y)
        &&& in_i32(self.z - rhs.z)
    }

    open spec fn sub_spec(self, rhs: Self) -> Self {
        Vector3i {
            x: (self.x - rhs.x) as i32,
            y: (self.y - rhs.y) as i32,
            z: (self.z - rhs.z) as i32,
        }
    }
}

impl core::ops::Mul for Vector3i {
    type Output = Self;

    fn mul(self, rhs: Self) -> (r: Self)
        ensures
            r.x == self.x * rhs.x,
            r.y == self.y * rhs.y,
            r.z == self.z * rhs.z,
    {
        Self { x: self.x * rhs.x, y: self.y * rhs.y, z: self.z * rhs.z }
    }
}

impl MulSpecImpl for Vector3i {
    open spec fn obeys_mul_spec() -> bool {
        true
    }

    open spec fn mul_req(self, rhs: Self) -> bool {
        &&& in_i32(self.x * rhs.x)
        &&& in_i32(self.y * rhs.y)
        &&& in_i32(self.z * rhs.z)
    }

    open spec fn mul_spec(self, rhs: Self) -> Self {
        Vector3i {
            x: (self.x * rhs.x) as i32,
            y: (self.y * rhs.y) as i32,
            z: (self.z * rhs.z) as i32,
        }
    }
}

impl core::ops::Div for Vector3i {
    type Output = Self;

    fn div(self, rhs: Self) -> (r: Self)
        ensures
            r.x == trunc_div(self.x as int, rhs.x as int),
            r.y == trunc_div(self.y as int, rhs.y as int),
            r.z == trunc_div(self.z as int, rhs.z as int),
    {
        Self { x: div_i32(self.x, rhs.x), y: div_i32(self.y, rhs.y), z: div_i32(self.z, rhs.z) }
    }
}

impl DivSpecImpl for Vector3i {
    open spec fn obeys_div_spec() -> bool {
        true
    }

    open spec fn div_req(self, rhs: Self) -> bool {
        &&& div_ok(self.x, rhs.x)
        &&& div_ok(self.y, rhs.y)
        &&& div_ok(self.z, rhs.z)
    }

    open spec fn div_spec(self, rhs: Self) -> Self {
        Vector3i {
            x: trunc_div(self.x as int, rhs.x as int) as i32,
            y: trunc_div(self.y as int, rhs.y as int) as i32,
            z: trunc_div(self.z as int, rhs.z as int) as i32,
        }
    }
}

impl core::ops::Add<i32> for Vector3i {
    type Output = Self;

    fn add(self, rhs: i32) -> (r: Self)
        ensures
            r.x == self.x + rhs,
            r.y == self.y + rhs,
            r.z == self.z + rhs,
    {
        Self { x: self.x + rhs, y: self.y + rhs, z: self.z + rhs }
    }
}

impl AddSpecImpl<i32> for Vector3i {
    open spec fn obeys_add_spec() -> bool {
        true
    }

    open spec fn add_req(self, rhs: i32) -> bool {
        &&& in_i32(self.x + rhs)
        &&& in_i32(self.y + rhs)
        &&& in_i32(self.z + rhs)
    }

    open spec fn add_spec(self, rhs: i32) -> Self {
        Vector3i { x: (self.x + rhs) as i32, y: (self.y + rhs) as i32, z: (self.z + rhs) as i32 }
    }
}

impl core::ops::Sub<i32> for Vector3i {
    type Output = Self;

    fn sub(self, rhs: i32) -> (r: Self)
        ensures
            r.x == self.x - rhs,
            r.y == self.y - rhs,
            r.z == self.z - rhs,
    {
        Self { x: self.x - rhs, y: self.y - rhs, z: self.z - rhs }
    }
}

impl SubSpecImpl<i32> for Vector3i {
    open spec fn obeys_sub_spec() -> bool {
        true
    }

    open spec fn sub_req(self, rhs: i32) -> bool {
        &&& in_i32(self.x - rhs)
        &&& in_i32(self.y - rhs)
        &&& in_i32(self.z - rhs)
    }

    open spec fn sub_spec(self, rhs: i32) -> Self {
        Vector3i { x: (self.x - rhs) as i32, y: (self.y - rhs) as i32, z: (self.z - rhs) as i32 }
    }
}

impl core::ops::Mul<i32> for Vector3i {
    type Output = Self;

    fn mul(self, rhs: i32) -> (r: Self)
        ensures
            r.x == self.x * rhs,
            r.y == self.y * rhs,
            r.z == self.z * rhs,
    {
        Self { x: self.x * rhs, y: self.y * rhs, z: self.z * rhs }
    }
}

impl MulSpecImpl<i32> for Vector3i {
    open spec fn obeys_mul_spec() -> bool {
        true
    }

    open spec fn mul_req(self, rhs: i32) -> bool {
        &&& in_i32(self.x * rhs)
        &&& in_i32(self.y * rhs)
        &&& in_i32(self.z * rhs)
    }

    open spec fn mul_spec(self, rhs: i32) -> Self {
        Vector3i { x: (self.x * rhs) as i32, y: (self.y * rhs) as i32, z: (self.z * rhs) as i32 }
    }
}

impl core::ops::Div<i32> for Vector3i {
    type Output = Self;

    fn div(self, rhs: i32) -> (r: Self)
        ensures
            r.x == trunc_div(self.x as int, rhs as int),
            r.y == trunc_div(self.y as int, rhs as int),
            r.z == trunc_div(self.z as int, rhs as int),
    {
        Self { x: div_i32(self.x, rhs), y: div_i32(self.y, rhs), z: div_i32(self.z, rhs) }
    }
}

impl DivSpecImpl<i32> for Vector3i {
    open spec fn obeys_div_spec() -> bool {
        true
    }

    open spec fn div_req(self, rhs: i32) -> bool {
        &&& div_ok(self.x, rhs)
        &&& div_ok(self.y, rhs)
        &&& div_ok(self.z, rhs)
    }

    open spec fn div_spec(self, rhs: i32) -> Self {
        Vector3i {
            x: trunc_div(self.x as int, rhs as int) as i32,
            y: trunc_div(self.y as int, rhs as int) as i32,
            z: trunc_div(self.z as int, rhs as int) as i32,
        }
    }
}

} // verus!
