//! Container adapter for a worm's segments.
//! Code outside of this module should not care what container [`WormSegments`] uses.

use std::collections::VecDeque;
use vstd::prelude::*;
use vstd::std_specs::iter::IteratorSpec;

use crate::spacial::direction3::Direction3;

verus! {

/// A chain of segments cannot be built from no directions at all.
#[derive(Debug, Clone, Copy, PartialEq, Eq, Structural)]
pub struct EmptyChainError;

/// A non-empty collection of segments, nearest the head first.
///
/// Each entry is the direction, seen from the segment one step closer to the
/// head (or from the head itself, for the first entry), in which the segment lies.
#[derive(Debug)]
pub struct WormSegments(VecDeque<Direction3>);

/// What [`WormSegments::pop_head`] and [`WormSegments::pop_tail`] hand back.
#[derive(Debug)]
pub struct PopResult {
    /// The direction that was removed.
    pub old_direction: Direction3,
    /// What is left, or `None` where nothing is.
    pub updated_segments: Option<WormSegments>,
}

impl View for WormSegments {
    type V = Seq<Direction3>;

    closed spec fn view(&self) -> Seq<Direction3> {
        self.0@
    }
}

impl WormSegments {
    /// A chain always holds at least one segment; a worm without segments
    /// holds no chain at all.
    pub open spec fn well_formed(&self) -> bool {
        self@.len() >= 1
    }

    /// Builds a chain from directions given nearest the head first.
    /// Fails on an empty slice: a chain always holds at least one segment.
    pub fn from_directions(directions: &[Direction3]) -> (r: Result<WormSegments, EmptyChainError>)
        ensures
            directions@.len() == 0 <==> r is Err,
            r matches Ok(s) ==> s@ == directions@ && s.well_formed(),
    {
        if directions.len() == 0 {
            return Err(EmptyChainError);
        }
        let mut q: VecDeque<Direction3> = VecDeque::new();
        let mut i: usize = 0;
        while i < directions.len()
            invariant
                i <= directions@.len(),
                q@ == directions@.take(i as int),
            decreases directions@.len() - i,
        {
            q.push_back(directions[i]);
            i = i + 1;
        }
        assert(directions@.take(directions@.len() as int) == directions@);
        Ok(WormSegments(q))
    }

    /// A chain of one segment.
    pub fn from_direction(direction: Direction3) -> (r: WormSegments)
        ensures
            r@ == seq![direction],
            r.well_formed(),
    {
        let mut q: VecDeque<Direction3> = VecDeque::new();
        q.push_back(direction);
        WormSegments(q)
    }

    /// The total number of segments in the collection.
    pub fn len(&self) -> (r: usize)
        ensures
            r == self@.len(),
    {
        self.0.len()
    }

    /// The direction of the segment closest to the head.
    /// This direction is given from the head's perspective.
    /// i.e. The neck is the head's position offset 1 unit in this direction.
    pub fn head_direction(&self) -> (r: Direction3)
        requires
            self.well_formed(),
        ensures
            r == self@[0],
    {
        self.0[0]
    }

    /// The direction of the tail segment, from the segment before it.
    /// i.e. If the worm backs up, its rear will move in this direction.
    pub fn tail_direction(&self) -> (r: Direction3)
        requires
            self.well_formed(),
        ensures
            r == self@.last(),
    {
        self.0[self.0.len() - 1]
    }

    /// The direction of the segment at `index`, counted from the head.
    pub fn get(&self, index: usize) -> (r: Direction3)
        requires
            index < self@.len(),
        ensures
            r == self@[index as int],
    {
        self.0[index]
    }

    /// Adds a segment nearest the head.
    pub fn push_head(&mut self, direction: Direction3)
        ensures
            final(self)@ == seq![direction] + old(self)@,
    {
        self.0.push_front(direction);
    }

    /// Adds a segment nearest the tail.
    pub fn push_tail(&mut self, direction: Direction3)
        ensures
            final(self)@ == old(self)@.push(direction),
    {
        self.0.push_back(direction);
    }

    /// Removes the segment nearest the head; the chain is gone where that was the last one.
    pub fn pop_head(self) -> (r: PopResult)
        requires
            self.well_formed(),
        ensures
            r.old_direction == self@[0],
            r.updated_segments is None <==> self@.len() == 1,
            r.updated_segments matches Some(s) ==> s@ == self@.drop_first() && s.well_formed(),
    {
        let mut q = self.0;
        let old_direction = q.pop_front().unwrap();
        if q.len() == 0 {
            PopResult { old_direction, updated_segments: None }
        } else {
            PopResult { old_direction, updated_segments: Some(WormSegments(q)) }
        }
    }

    /// Removes the segment nearest the tail; the chain is gone where that was the last one.
    pub fn pop_tail(self) -> (r: PopResult)
        requires
            self.well_formed(),
        ensures
            r.old_direction == self@.last(),
            r.updated_segments is None <==> self@.len() == 1,
            r.updated_segments matches Some(s) ==> s@ == self@.drop_last() && s.well_formed(),
    {
        let mut q = self.0;
        let old_direction = q.pop_back().unwrap();
        if q.len() == 0 {
            PopResult { old_direction, updated_segments: None }
        } else {
            PopResult { old_direction, updated_segments: Some(WormSegments(q)) }
        }
    }

    /// The stored directions, nearest the head first.
    pub fn iter(&self) -> (r: std::collections::vec_deque::Iter<'_, Direction3>)
        ensures
            r.remaining() == self@.as_ref(),
    {
        self.0.iter()
    }
}

} // verus!
