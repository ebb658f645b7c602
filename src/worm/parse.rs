//! Builds a worm from a compact text form: one character per segment.

use vstd::prelude::*;

use super::{MovementPolicy, Worm, WormView};
use crate::spacial::direction3::Direction3;
use crate::spacial::vector3i::Vector3i;

verus! {

/// The direction a character of the text form stands for, if any.
pub open spec fn direction_of_char(c: char) -> Option<Direction3> {
    if c == '>' {
        Some(Direction3::East)
    } else if c == '<' {
        Some(Direction3::West)
    } else if c == '^' {
        Some(Direction3::North)
    } else if c == 'v' {
        Some(Direction3::South)
    } else if c == 'x' {
        Some(Direction3::Up)
    } else if c == 'o' {
        Some(Direction3::Down)
    } else {
        None
    }
}

/// Whether every character of `text` stands for a direction.
pub open spec fn is_chain_text(text: Seq<char>) -> bool {
    forall|i: int| 0 <= i < text.len() ==> (#[trigger] direction_of_char(text[i])) is Some
}

/// The chain that `text` describes, where [`is_chain_text`] holds of it.
pub open spec fn chain_of_text(text: Seq<char>) -> Seq<Direction3> {
    text.map_values(|c: char| direction_of_char(c)->Some_0)
}

/// A character of the text form that stands for no direction.
#[derive(Debug, Clone, Copy, PartialEq, Eq, Structural)]
pub struct ParseWormError {
    /// The offending character.
    pub character: char,
    /// Its place in the text, counted in characters from 0.
    pub index: usize,
}

/// The direction `c` stands for, if any.
pub fn direction_from_char(c: char) -> (r: Option<Direction3>)
    ensures
        r == direction_of_char(c),
{
    match c {
        '>' => Some(Direction3::East),
        '<' => Some(Direction3::West),
        '^' => Some(Direction3::North),
        'v' => Some(Direction3::South),
        'x' => Some(Direction3::Up),
        'o' => Some(Direction3::Down),
        _ => None,
    }
}

impl Worm {
    /// Builds a worm with head `head_position` from `text`, one character per
    /// segment, nearest the head first: `>` East, `<` West, `^` North, `v` South,
    /// `x` Up, `o` Down. Any other character fails the whole parse, naming the
    /// first such character and its place.
    pub fn from_str(head_position: Vector3i, text: &str) -> (r: Result<Worm, ParseWormError>)
        ensures
            r is Ok <==> is_chain_text(text@),
            r matches Ok(w) ==> w@ == (WormView {
                head: head_position,
                chain: chain_of_text(text@),
                policy: MovementPolicy::AutoReverse,
            }),
            r matches Err(e) ==> {
                &&& e.index < text@.len()
                &&& text@[e.index as int] == e.character
                &&& direction_of_char(e.character) is None
                &&& is_chain_text(text@.take(e.index as int))
            },
    {
        let mut directions: Vec<Direction3> = Vec::new();
        for c in it: text.chars()
            invariant
                it.seq() == text@,
                directions@.len() == it.index(),
                forall|j: int|
                    0 <= j < it.index() ==> direction_of_char(text@[j]) == Some(
                        #[trigger] directions@[j],
                    ),
        {
            match direction_from_char(c) {
                Some(d) => directions.push(d),
                None => {
                    proof {
                        assert forall|j: int| 0 <= j < directions@.len() implies (#[trigger] direction_of_char(
                            text@.take(directions@.len() as int)[j],
                        )) is Some by {
                            assert(text@.take(directions@.len() as int)[j] == text@[j]);
                            assert(direction_of_char(text@[j]) == Some(directions@[j]));
                        }
                    }
                    return Err(ParseWormError { character: c, index: directions.len() });
                },
            }
        }
        proof {
            assert forall|i: int| 0 <= i < text@.len() implies (#[trigger] direction_of_char(
                text@[i],
            )) is Some by {
                assert(direction_of_char(text@[i]) == Some(directions@[i]));
            }
            assert(directions@ =~= chain_of_text(text@));
        }
        Ok(Worm::new(head_position, directions.as_slice()))
    }
}

} // verus!
