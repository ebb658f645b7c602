//! Turning one tick of directional input into a crawl request.

use vstd::prelude::*;

use crate::spacial::direction3::Direction3;

verus! {

/// The crawl that one tick of left/right/up/down input asks for. Opposite
/// inputs cancel out, and horizontal input takes priority over vertical.
pub open spec fn requested_direction(left: bool, right: bool, up: bool, down: bool) -> Option<
    Direction3,
> {
    if right && !left {
        Some(Direction3::East)
    } else if left && !right {
        Some(Direction3::West)
    } else if up && !down {
        Some(Direction3::North)
    } else if down && !up {
        Some(Direction3::South)
    } else {
        None
    }
}

/// The crawl that one tick of left/right/up/down input asks for, if any.
pub fn crawl_direction(left: bool, right: bool, up: bool, down: bool) -> (r: Option<Direction3>)
    ensures
        r == requested_direction(left, right, up, down),
{
    let horizontal: i8 = (right as i8) - (left as i8);
    let vertical: i8 = (up as i8) - (down as i8);
    // horizontal takes priority
    if horizontal > 0 {
        Some(Direction3::East)
    } else if horizontal < 0 {
        Some(Direction3::West)
    } else if vertical > 0 {
        Some(Direction3::North)
    } else if vertical < 0 {
        Some(Direction3::South)
    } else {
        None
    }
}

} // verus!
