use worm_puzzle::input::crawl_direction;
use worm_puzzle::rules::noun::Noun;
use worm_puzzle::rules::operator::Operator;
use worm_puzzle::rules::property::Property;
use worm_puzzle::rules::statement::Statement;
use worm_puzzle::rules::word::Word;
use worm_puzzle::spacial::direction3::Direction3;
use worm_puzzle::spacial::direction3::Direction3::{Down, East, North, South, Up, West};
use worm_puzzle::spacial::vector3i::Vector3i;
use worm_puzzle::worm::parse::{direction_from_char, ParseWormError};
use worm_puzzle::worm::segments::{EmptyChainError, WormSegments};
use worm_puzzle::worm::{InvalidDirectionError, MovementPolicy, Worm};

const ALL: [Direction3; 6] = [East, West, North, South, Up, Down];

fn chain_of(worm: &Worm) -> Vec<Direction3> {
    match worm.segments() {
        Some(s) => s.iter().copied().collect(),
        None => Vec::new(),
    }
}

#[test]
fn empty_chain_is_refused() {
    assert_eq!(WormSegments::from_directions(&[]).unwrap_err(), EmptyChainError);
}

#[test]
fn built_chain_keeps_its_directions() {
    let s = WormSegments::from_directions(&[North, East, Up]).unwrap();
    assert_eq!(s.len(), 3);
    assert_eq!(s.head_direction(), North);
    assert_eq!(s.tail_direction(), Up);
    assert_eq!(s.get(1), East);
    assert_eq!(s.iter().copied().collect::<Vec<_>>(), vec![North, East, Up]);
}

#[test]
fn chain_ends_push_and_pop() {
    let mut s = WormSegments::from_direction(North);
    s.push_head(East);
    s.push_tail(Down);
    assert_eq!(s.iter().copied().collect::<Vec<_>>(), vec![East, North, Down]);
    let popped = s.pop_head();
    assert_eq!(popped.old_direction, East);
    let s = popped.updated_segments.unwrap();
    let popped = s.pop_tail();
    assert_eq!(popped.old_direction, Down);
    let s = popped.updated_segments.unwrap();
    assert_eq!(s.len(), 1);
    let popped = s.pop_tail();
    assert_eq!(popped.old_direction, North);
    assert!(popped.updated_segments.is_none());
}

#[test]
fn negation_is_an_involution_without_fixed_points() {
    for d in ALL {
        assert_eq!(d.negate().negate(), d);
        assert_ne!(d.negate(), d);
        assert_eq!(-d, d.negate());
    }
    assert_eq!(East.negate(), West);
    assert_eq!(North.negate(), South);
    assert_eq!(Up.negate(), Down);
}

#[test]
fn directions_are_unit_vectors() {
    assert_eq!(Vector3i::from(East), Vector3i::new(1, 0, 0));
    assert_eq!(Vector3i::from(West), Vector3i::new(-1, 0, 0));
    assert_eq!(Vector3i::from(North), Vector3i::new(0, 1, 0));
    assert_eq!(Vector3i::from(South), Vector3i::new(0, -1, 0));
    assert_eq!(Vector3i::from(Up), Vector3i::new(0, 0, 1));
    assert_eq!(Vector3i::from(Down), Vector3i::new(0, 0, -1));
    for d in ALL {
        let v = Vector3i::from(d);
        assert_eq!(v.x.abs() + v.y.abs() + v.z.abs(), 1);
        assert_eq!(Vector3i::from(-d), -v);
    }
}

#[test]
fn vector_arithmetic() {
    let a = Vector3i::new(7, -7, 9);
    let b = Vector3i::new(2, 2, -4);
    assert_eq!(a + b, Vector3i::new(9, -5, 5));
    assert_eq!(a - b, Vector3i::new(5, -9, 13));
    assert_eq!(a * b, Vector3i::new(14, -14, -36));
    assert_eq!(a / b, Vector3i::new(3, -3, -2));
    assert_eq!(-a, Vector3i::new(-7, 7, -9));
    assert_eq!(a + 1, Vector3i::new(8, -6, 10));
    assert_eq!(a - 1, Vector3i::new(6, -8, 8));
    assert_eq!(a * 3, Vector3i::new(21, -21, 27));
    assert_eq!(a / -2, Vector3i::new(-3, 3, -4));
    assert_eq!(a + North, Vector3i::new(7, -6, 9));
    assert_eq!(a - North, Vector3i::new(7, -8, 9));
    assert_eq!(a - Up, Vector3i::new(7, -7, 8));
}

#[test]
fn normal_crawl_keeps_length() {
    let mut worm = Worm::new(Vector3i::new(0, 0, 0), &[North, East]);
    assert_eq!(worm.num_segments(), 3);
    worm.crawl(East);
    assert_eq!(worm.num_segments(), 3);
    assert_eq!(worm.head_position(), Vector3i::new(1, 0, 0));
    assert_eq!(chain_of(&worm), vec![West, North]);
    assert_eq!(
        worm.segment_positions(),
        vec![Vector3i::new(1, 0, 0), Vector3i::new(0, 0, 0), Vector3i::new(0, 1, 0)]
    );
}

#[test]
fn tailless_crawl_only_moves_the_head() {
    let mut worm = Worm::new_tailless(Vector3i::new(4, 4, 4));
    worm.crawl(Down);
    assert!(worm.is_tailless());
    assert_eq!(worm.num_segments(), 1);
    assert_eq!(worm.head_position(), Vector3i::new(4, 4, 3));
    assert_eq!(worm.segment_positions(), vec![Vector3i::new(4, 4, 3)]);
}

#[test]
fn one_segment_worm_keeps_its_segment_when_crawling() {
    let mut worm = Worm::new(Vector3i::new(0, 0, 0), &[West]);
    worm.crawl(North);
    assert!(!worm.is_tailless());
    assert_eq!(worm.num_segments(), 2);
    assert_eq!(chain_of(&worm), vec![South]);
}

#[test]
fn reversal_into_neck_keeps_length() {
    // The neck lies south of the head: the worm heads north and is told to go south.
    let mut worm = Worm::new(Vector3i::new(0, 0, 0), &[South, West]);
    worm.crawl(South);
    assert_eq!(worm.num_segments(), 3);
    assert_eq!(worm.head_position(), Vector3i::new(0, -1, 0));
    assert_eq!(chain_of(&worm), vec![West, West]);
}

#[test]
fn strict_crawl_refuses_the_neck_and_changes_nothing() {
    let mut worm = Worm::new(Vector3i::new(0, 0, 0), &[South, West]);
    let result = worm.try_crawl(South);
    assert_eq!(result, Err(InvalidDirectionError { direction: South }));
    assert_eq!(worm.head_position(), Vector3i::new(0, 0, 0));
    assert_eq!(chain_of(&worm), vec![South, West]);

    assert_eq!(worm.try_crawl(North), Ok(()));
    assert_eq!(worm.head_position(), Vector3i::new(0, 1, 0));
    assert_eq!(chain_of(&worm), vec![South, South]);
}

#[test]
fn policy_decides_what_a_move_into_the_neck_does() {
    let worm = Worm::new(Vector3i::new(0, 0, 0), &[East]);
    assert_eq!(worm.policy(), MovementPolicy::AutoReverse);
    let mut strict = worm.with_policy(MovementPolicy::RejectNeck);
    assert_eq!(strict.policy(), MovementPolicy::RejectNeck);
    assert!(strict.advance(East).is_err());
    assert_eq!(strict.head_position(), Vector3i::new(0, 0, 0));

    let mut relaxed = Worm::new(Vector3i::new(0, 0, 0), &[East]);
    assert!(relaxed.advance(East).is_ok());
    assert_eq!(relaxed.head_position(), Vector3i::new(1, 0, 0));
    assert_eq!(chain_of(&relaxed), vec![East]);
}

#[test]
fn lengthen_grows_by_one() {
    let mut worm = Worm::new(Vector3i::new(0, 0, 0), &[North, East]);
    assert_eq!(worm.num_segments(), 3);
    assert!(worm.try_lengthen().is_ok());
    assert_eq!(worm.num_segments(), 4);
    assert_eq!(chain_of(&worm), vec![North, East, East]);
    assert_eq!(worm.head_position(), Vector3i::new(0, 0, 0));
}

#[test]
fn lengthen_tailless_fails_then_resolves_to_two() {
    let mut worm = Worm::new_tailless(Vector3i::new(1, 2, 3));
    let err = worm.try_lengthen().unwrap_err();
    assert!(worm.is_tailless());
    assert_eq!(worm.num_segments(), 1);
    err.resolve(&mut worm, Up);
    assert_eq!(worm.num_segments(), 2);
    assert_eq!(worm.head_position(), Vector3i::new(1, 2, 3));
    assert_eq!(chain_of(&worm), vec![Up]);
}

#[test]
fn first_position_is_the_head() {
    let tailed = Worm::new(Vector3i::new(-3, 0, 2), &[Up, Up, West]);
    assert_eq!(tailed.segment_positions()[0], tailed.head_position());
    assert_eq!(
        tailed.segment_positions(),
        vec![
            Vector3i::new(-3, 0, 2),
            Vector3i::new(-3, 0, 3),
            Vector3i::new(-3, 0, 4),
            Vector3i::new(-4, 0, 4),
        ]
    );
    let tailless = Worm::new_tailless(Vector3i::new(-3, 0, 2));
    assert_eq!(tailless.segment_positions()[0], tailless.head_position());
}

#[test]
fn parser_maps_each_character() {
    assert_eq!(direction_from_char('>'), Some(East));
    assert_eq!(direction_from_char('<'), Some(West));
    assert_eq!(direction_from_char('^'), Some(North));
    assert_eq!(direction_from_char('v'), Some(South));
    assert_eq!(direction_from_char('x'), Some(Up));
    assert_eq!(direction_from_char('o'), Some(Down));
    assert_eq!(direction_from_char('?'), None);
    let worm = Worm::from_str(Vector3i::new(5, 3, 8), ">>>^>v>o<<xv<").unwrap();
    assert_eq!(
        chain_of(&worm),
        vec![East, East, East, North, East, South, East, Down, West, West, Up, South, West]
    );
    assert!(Worm::from_str(Vector3i::new(0, 0, 0), "").unwrap().is_tailless());
}

#[test]
fn parser_names_the_first_bad_character() {
    let err = Worm::from_str(Vector3i::new(0, 0, 0), ">>a<b").unwrap_err();
    assert_eq!(err, ParseWormError { character: 'a', index: 2 });
}

#[test]
fn statement_keeps_its_words() {
    let words = vec![Word::Noun(Noun::WORM), Word::Operator(Operator::IS), Word::Property(Property::YOU)];
    let statement = Statement::from_words(words.clone());
    assert_eq!(statement.words(), words.as_slice());
}

#[test]
fn horizontal_input_wins() {
    assert_eq!(crawl_direction(false, false, false, false), None);
    assert_eq!(crawl_direction(false, true, true, false), Some(East));
    assert_eq!(crawl_direction(true, false, false, true), Some(West));
    assert_eq!(crawl_direction(true, true, true, false), Some(North));
    assert_eq!(crawl_direction(false, false, false, true), Some(South));
    assert_eq!(crawl_direction(true, true, true, true), None);
}

#[test]
fn steps_that_leave_the_grid_are_caught() {
    let edge = Vector3i::new(i32::MAX, 0, i32::MIN);
    assert_eq!(edge.checked_step(East), None);
    assert_eq!(edge.checked_step(Down), None);
    assert_eq!(edge.checked_step(West), Some(Vector3i::new(i32::MAX - 1, 0, i32::MIN)));
    let worm = Worm::new(edge, &[West]);
    assert!(!worm.can_crawl(East));
    assert!(worm.can_crawl(North));
    assert!(worm.positions_in_grid());
    let outside = Worm::new(edge, &[West, East, East]);
    assert!(!outside.positions_in_grid());
}
