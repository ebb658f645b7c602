//! A worm: a head cell followed by a chain of segments.

pub mod parse;
pub mod segments;

use vstd::prelude::*;

use crate::spacial::direction3::{fits, step, Direction3};
use crate::spacial::vector3i::Vector3i;
use segments::WormSegments;

verus! {

/// How a worm answers a request to crawl straight into its own neck.
#[derive(Debug, Clone, Copy, PartialEq, Eq, Structural)]
pub enum MovementPolicy {
    /// The worm backs up: the neck goes and the tail grows straight on.
    AutoReverse,
    /// The move is refused and nothing changes.
    RejectNeck,
}

/// What a worm is: where its head is, its chain of segment directions
/// (empty for a tailless worm), and how it answers a move into its neck.
pub struct WormView {
    pub head: Vector3i,
    pub chain: Seq<Direction3>,
    pub policy: MovementPolicy,
}

impl WormView {
    /// The number of cells: the head and one per segment.
    pub open spec fn num_segments(self) -> nat {
        self.chain.len() + 1
    }

    /// A worm without segments.
    pub open spec fn is_tailless(self) -> bool {
        self.chain.len() == 0
    }

    /// The worm after its head moved one step in direction `d`.
    pub open spec fn crawled(self, d: Direction3) -> WormView {
        let p = step(self.head.point(), d);
        WormView {
            head: Vector3i { x: p.0 as i32, y: p.1 as i32, z: p.2 as i32 },
            chain: crawled_chain(self.chain, d),
            policy: self.policy,
        }
    }

    /// The worm with its tail grown one segment straight on.
    pub open spec fn lengthened(self) -> WormView {
        WormView { chain: self.chain.push(self.chain.last()), ..self }
    }

    /// The worm with a new chain of one segment in direction `d`.
    pub open spec fn resolved(self, d: Direction3) -> WormView {
        WormView { chain: seq![d], ..self }
    }
}

/// The sum of the unit vectors of `chain`.
pub open spec fn displacement(chain: Seq<Direction3>) -> (int, int, int)
    decreases chain.len(),
{
    if chain.len() == 0 {
        (0, 0, 0)
    } else {
        step(displacement(chain.drop_last()), chain.last())
    }
}

/// The cell of segment `i` of a worm with head `head` and chain `chain`;
/// segment 0 is the head itself.
pub open spec fn segment_position(head: Vector3i, chain: Seq<Direction3>, i: int) -> (
    int,
    int,
    int,
) {
    let d = displacement(chain.take(i));
    (head.x + d.0, head.y + d.1, head.z + d.2)
}

/// Whether every cell of the worm lies within the `i32` grid.
pub open spec fn positions_fit(head: Vector3i, chain: Seq<Direction3>) -> bool {
    forall|i: int| 0 <= i <= chain.len() ==> fits(#[trigger] segment_position(head, chain, i))
}

/// Whether moving in direction `d` leads straight into the neck.
pub open spec fn into_neck(chain: Seq<Direction3>, d: Direction3) -> bool {
    chain.len() > 0 && chain[0] == d
}

/// The chain after the head moved one step in direction `d`.
///
/// The cell the head left becomes the neck, pointing back the way the head
/// came, and the tail follows. Moving into the neck instead backs the worm up:
/// the tail grows straight on and the neck goes.
pub open spec fn crawled_chain(chain: Seq<Direction3>, d: Direction3) -> Seq<Direction3> {
    if chain.len() == 0 {
        chain
    } else if !into_neck(chain, d) {
        seq![d.negated()] + chain.drop_last()
    } else {
        chain.drop_first().push(chain.last())
    }
}

/// A worm.
#[derive(Debug)]
pub struct Worm {
    head_position: Vector3i,
    segments: Option<WormSegments>,
    policy: MovementPolicy,
}

impl View for Worm {
    type V = WormView;

    closed spec fn view(&self) -> WormView {
        WormView {
            head: self.head_position,
            chain: match self.segments {
                Some(s) => s@,
                None => Seq::empty(),
            },
            policy: self.policy,
        }
    }
}

// Basics

impl Worm {
    #[verifier::type_invariant]
    spec fn chain_well_formed(&self) -> bool {
        self.segments matches Some(s) ==> s.well_formed()
    }

    /// Construct a worm from head and segments.
    /// Each segment directs where the tail will go; with no segments the
    /// worm is tailless.
    pub fn new(head_position: Vector3i, segments: &[Direction3]) -> (r: Self)
        ensures
            r@ == (WormView {
                head: head_position,
                chain: segments@,
                policy: MovementPolicy::AutoReverse,
            }),
    {
        let chain = match WormSegments::from_directions(segments) {
            Ok(s) => Some(s),
            Err(_) => {
                assert(segments@ =~= Seq::empty());
                None
            },
        };
        Self { head_position, segments: chain, policy: MovementPolicy::AutoReverse }
    }

    /// Constructs a worm from head with no segments.
    /// If this is the player worm, it will be only a ring.
    /// If this is an NPC worm, it will be an edible dot.
    pub fn new_tailless(head_position: Vector3i) -> (r: Self)
        ensures
            r@ == (WormView {
                head: head_position,
                chain: Seq::empty(),
                policy: MovementPolicy::AutoReverse,
            }),
    {
        Self { head_position, segments: None, policy: MovementPolicy::AutoReverse }
    }

    /// The same worm, answering moves into its neck by `policy`.
    pub fn with_policy(self, policy: MovementPolicy) -> (r: Self)
        ensures
            r@ == (WormView { policy, ..self@ }),
    {
        proof {
            use_type_invariant(&self);
        }
        Self { head_position: self.head_position, segments: self.segments, policy }
    }

    /// How the worm answers a move into its neck.
    pub fn policy(&self) -> (r: MovementPolicy)
        ensures
            r == self@.policy,
    {
        self.policy
    }

    /// The worm is just a head with no segments?
    pub fn is_tailless(&self) -> (r: bool)
        ensures
            r == self@.is_tailless(),
    {
        proof {
            use_type_invariant(self);
        }
        self.segments.is_none()
    }

    /// The grid position of the head.
    /// Any other position requires [`Self::segment_positions()`].
    pub fn head_position(&self) -> (r: Vector3i)
        ensures
            r == self@.head,
    {
        self.head_position
    }

    /// Number of elements returned by [`Self::segment_positions()`].
    pub fn num_segments(&self) -> (r: usize)
        requires
            self@.chain.len() < usize::MAX,
        ensures
            r == self@.num_segments(),
    {
        match &self.segments {
            Some(segments) => segments.len() + 1,
            None => 1,
        }
    }

    /// The chain of segments, or `None` for a tailless worm.
    pub fn segments(&self) -> (r: Option<&WormSegments>)
        ensures
            r is None <==> self@.chain.len() == 0,
            r matches Some(s) ==> s@ == self@.chain && s.well_formed(),
    {
        proof {
            use_type_invariant(self);
        }
        self.segments.as_ref()
    }
}

// Crawl

impl Worm {
    /// Whether the head can move one step in direction `d` without leaving the `i32` grid.
    pub fn can_crawl(&self, d: Direction3) -> (r: bool)
        ensures
            r == fits(step(self@.head.point(), d)),
    {
        self.head_position.checked_step(d).is_some()
    }

    /// Pulls the worm's head in the requested direction without changing the worm's length.
    /// Does not have awareness of the level geometry.
    pub fn crawl(&mut self, crawl_direction: Direction3)
        requires
            fits(step(old(self)@.head.point(), crawl_direction)),
        ensures
            final(self)@ == old(self)@.crawled(crawl_direction),
            final(self)@.head.point() == step(old(self)@.head.point(), crawl_direction),
            final(self)@.num_segments() == old(self)@.num_segments(),
    {
        proof {
            use_type_invariant(&*self);
        }
        self.head_position = self.head_position + crawl_direction;
        let mut taken: Option<WormSegments> = None;
        std::mem::swap(&mut taken, &mut self.segments);
        if let Some(mut segments) = taken {
            let ghost chain = segments@;
            let new_head_direction = crawl_direction.negate();
            let current_head_direction = segments.head_direction();
            let updated = if current_head_direction.negate() != new_head_direction {
                segments.push_head(new_head_direction);
                let updated = segments.pop_tail().updated_segments;
                proof {
                    assert((seq![new_head_direction] + chain).drop_last() =~= seq![
                        new_head_direction,
                    ] + chain.drop_last());
                }
                updated
            } else {
                // reversing
                let current_tail_direction = segments.tail_direction();
                segments.push_tail(current_tail_direction);
                let updated = segments.pop_head().updated_segments;
                proof {
                    assert(chain.push(current_tail_direction).drop_first()
                        =~= chain.drop_first().push(chain.last()));
                }
                updated
            };
            self.segments = updated;
        }
    }
}

/// A crawl never changes the number of segments, whether the worm advances
/// or backs up out of its neck; so a worm with a tail keeps it, and a tailless
/// worm stays tailless.
pub proof fn lemma_crawl_keeps_length(worm: WormView, d: Direction3)
    ensures
        worm.crawled(d).num_segments() == worm.num_segments(),
        worm.crawled(d).is_tailless() == worm.is_tailless(),
{
}

/// A crawl was refused: the requested direction leads straight into the neck.
#[derive(Debug, Clone, Copy, PartialEq, Eq, Structural)]
pub struct InvalidDirectionError {
    /// The direction that was refused.
    pub direction: Direction3,
}

impl Worm {
    /// Like [`Self::crawl()`], but refuses to move straight into the neck,
    /// leaving the worm unchanged.
    pub fn try_crawl(&mut self, crawl_direction: Direction3) -> (r: Result<(), InvalidDirectionError>)
        requires
            !into_neck(old(self)@.chain, crawl_direction) ==> fits(
                step(old(self)@.head.point(), crawl_direction),
            ),
        ensures
            r is Err <==> into_neck(old(self)@.chain, crawl_direction),
            r matches Err(e) ==> e.direction == crawl_direction && *final(self) == *old(self),
            r is Ok ==> final(self)@ == old(self)@.crawled(crawl_direction),
    {
        proof {
            use_type_invariant(&*self);
        }
        if let Some(segments) = &self.segments {
            if segments.head_direction() == crawl_direction {
                return Err(InvalidDirectionError { direction: crawl_direction });
            }
        }
        self.crawl(crawl_direction);
        Ok(())
    }

    /// One move in `crawl_direction`, answered as the worm's policy says:
    /// [`Self::crawl()`] under `AutoReverse`, [`Self::try_crawl()`] under `RejectNeck`.
    pub fn advance(&mut self, crawl_direction: Direction3) -> (r: Result<(), InvalidDirectionError>)
        requires
            old(self)@.policy == MovementPolicy::AutoReverse || !into_neck(
                old(self)@.chain,
                crawl_direction,
            ) ==> fits(step(old(self)@.head.point(), crawl_direction)),
        ensures
            r is Err <==> old(self)@.policy == MovementPolicy::RejectNeck && into_neck(
                old(self)@.chain,
                crawl_direction,
            ),
            r is Err ==> *final(self) == *old(self),
            r is Ok ==> final(self)@ == old(self)@.crawled(crawl_direction),
    {
        match self.policy {
            MovementPolicy::AutoReverse => {
                self.crawl(crawl_direction);
                Ok(())
            },
            MovementPolicy::RejectNeck => self.try_crawl(crawl_direction),
        }
    }
}

// Lengthen

/// Calling [`Worm::try_lengthen()`] requires the worm to be at least 1 segment long so the
/// tail can be extended in that direction. Otherwise, the direction must be specified.
///
/// This error can be handled by calling [`Self::resolve()`] on the worm that raised it.
#[derive(Debug, Clone, Copy, PartialEq, Eq, Structural)]
pub struct LengthenTaillessError;

impl LengthenTaillessError {
    /// Resolves and consumes the [`LengthenTaillessError`] by specifying the direction in which
    /// the tail of `worm` should grow.
    pub fn resolve(self, worm: &mut Worm, direction: Direction3)
        ensures
            final(worm)@ == old(worm)@.resolved(direction),
    {
        worm.segments = Some(WormSegments::from_direction(direction));
    }
}

/// Lengthening a worm with a tail adds exactly one segment; a tailless worm
/// cannot be lengthened, and resolving that with a direction gives it a
/// length of two.
pub proof fn lemma_lengthen_adds_one(worm: WormView, d: Direction3)
    ensures
        !worm.is_tailless() ==> worm.lengthened().num_segments() == worm.num_segments() + 1,
        worm.is_tailless() ==> worm.resolved(d).num_segments() == 2,
{
}

impl Worm {
    /// Increases the length of the worm in the direction of its tail.
    /// Does not have awareness of the level geometry.
    pub fn try_lengthen(&mut self) -> (r: Result<(), LengthenTaillessError>)
        ensures
            r is Ok <==> !old(self)@.is_tailless(),
            r is Ok ==> final(self)@ == old(self)@.lengthened(),
            r is Ok ==> final(self)@.num_segments() == old(self)@.num_segments() + 1,
            r is Err ==> *final(self) == *old(self),
    {
        proof {
            use_type_invariant(&*self);
        }
        let mut taken: Option<WormSegments> = None;
        std::mem::swap(&mut taken, &mut self.segments);
        match taken {
            Some(mut segments) => {
                let tail_direction = segments.tail_direction();
                segments.push_tail(tail_direction);
                self.segments = Some(segments);
                Ok(())
            },
            None => Err(LengthenTaillessError),
        }
    }
}

// Segment Positions

/// The first position of every worm is its head.
pub proof fn lemma_first_position_is_head(head: Vector3i, chain: Seq<Direction3>)
    ensures
        segment_position(head, chain, 0) == head.point(),
{
    assert(chain.take(0) =~= Seq::<Direction3>::empty());
}

/// Each position after the head is the one before it moved one step in the
/// direction of that segment: the positions are the running sums of the chain,
/// starting at the head.
pub proof fn lemma_position_step(head: Vector3i, chain: Seq<Direction3>, i: int)
    requires
        0 <= i < chain.len(),
    ensures
        segment_position(head, chain, i + 1) == step(segment_position(head, chain, i), chain[i]),
{
    let prefix = chain.take(i + 1);
    assert(prefix.drop_last() =~= chain.take(i));
    assert(prefix.last() == chain[i]);
}

impl Worm {
    /// Whether every cell of the worm lies within the `i32` grid, so that
    /// [`Self::segment_positions()`] can list them.
    pub fn positions_in_grid(&self) -> (r: bool)
        ensures
            r == positions_fit(self@.head, self@.chain),
    {
        let ghost head = self@.head;
        let ghost chain = self@.chain;
        proof {
            lemma_first_position_is_head(head, chain);
        }
        if let Some(segments) = &self.segments {
            let mut current = self.head_position;
            let mut i: usize = 0;
            while i < segments.len()
                invariant
                    chain == segments@,
                    chain == self@.chain,
                    head == self@.head,
                    i <= chain.len(),
                    current.point() == segment_position(head, chain, i as int),
                    forall|j: int| 0 <= j <= i ==> fits(#[trigger] segment_position(head, chain, j)),
                decreases chain.len() - i,
            {
                let d = segments.get(i);
                proof {
                    lemma_position_step(head, chain, i as int);
                }
                match current.checked_step(d) {
                    Some(next) => current = next,
                    None => {
                        assert(!fits(segment_position(head, chain, i + 1)));
                        return false;
                    },
                }
                i = i + 1;
            }
        } else {
            assert(chain.len() == 0);
        }
        true
    }

    /// The worm's cells in order, from the head to the tail.
    /// The first element is always the head position itself.
    pub fn segment_positions(&self) -> (r: Vec<Vector3i>)
        requires
            positions_fit(self@.head, self@.chain),
        ensures
            r@.len() == self@.chain.len() + 1,
            r@[0] == self@.head,
            forall|i: int|
                0 <= i < r@.len() ==> (#[trigger] r@[i]).point() == segment_position(
                    self@.head,
                    self@.chain,
                    i,
                ),
    {
        let ghost head = self@.head;
        let ghost chain = self@.chain;
        let mut positions: Vec<Vector3i> = Vec::new();
        let mut headward_segment_position = self.head_position;
        positions.push(headward_segment_position);
        proof {
            lemma_first_position_is_head(head, chain);
        }
        if let Some(segments) = &self.segments {
            let mut i: usize = 0;
            while i < segments.len()
                invariant
                    chain == segments@,
                    head == self@.head,
                    positions_fit(head, chain),
                    positions@[0] == head,
                    i <= chain.len(),
                    positions@.len() == i + 1,
                    headward_segment_position == positions@[i as int],
                    forall|j: int|
                        0 <= j <= i ==> (#[trigger] positions@[j]).point() == segment_position(
                            head,
                            chain,
                            j,
                        ),
                decreases chain.len() - i,
            {
                let segment_direction = segments.get(i);
                proof {
                    lemma_position_step(head, chain, i as int);
                    assert(fits(segment_position(head, chain, i + 1)));
                }
                headward_segment_position = headward_segment_position + segment_direction;
                positions.push(headward_segment_position);
                i = i + 1;
            }
        }
        positions
    }
}

} // verus!
