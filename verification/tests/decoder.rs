use superhat::direction::{get_relative_directions, Direction};
use superhat::mfd::{locate_osb, osb_number_at, MfdState, OsbLocation};
use superhat::osb::{calculate_osb_number, calculate_side_button, could_lead_to_valid_osb};

const ALL: [Direction; 4] = [Direction::Up, Direction::Right, Direction::Down, Direction::Left];

fn opposite(d: Direction) -> Direction {
    match d {
        Direction::Up => Direction::Down,
        Direction::Right => Direction::Left,
        Direction::Down => Direction::Up,
        Direction::Left => Direction::Right,
    }
}

#[test]
fn relative_directions_follow_the_cycle() {
    assert_eq!(get_relative_directions(Direction::Up), (Direction::Left, Direction::Right));
    assert_eq!(get_relative_directions(Direction::Right), (Direction::Up, Direction::Down));
    assert_eq!(get_relative_directions(Direction::Down), (Direction::Right, Direction::Left));
    assert_eq!(get_relative_directions(Direction::Left), (Direction::Down, Direction::Up));
}

#[test]
fn relative_directions_are_never_self_or_opposite() {
    for d in ALL {
        let (l, r) = get_relative_directions(d);
        assert_ne!(l, d);
        assert_ne!(r, d);
        assert_ne!(l, opposite(d));
        assert_ne!(r, opposite(d));
        assert_eq!(l, opposite(r));
        assert_eq!(get_relative_directions(l).1, d);
        assert_eq!(get_relative_directions(r).0, d);
    }
}

#[test]
fn single_tap_on_own_side_is_middle() {
    for s in ALL {
        assert_eq!(calculate_side_button(s, &[s]), Some(2));
    }
}

#[test]
fn five_sequences_give_five_positions() {
    for s in ALL {
        let (l, r) = get_relative_directions(s);
        assert_eq!(calculate_side_button(s, &[l, l]), Some(0));
        assert_eq!(calculate_side_button(s, &[l, s]), Some(1));
        assert_eq!(calculate_side_button(s, &[s]), Some(2));
        assert_eq!(calculate_side_button(s, &[r, s]), Some(3));
        assert_eq!(calculate_side_button(s, &[r, r]), Some(4));
    }
}

#[test]
fn other_sequences_give_no_position() {
    let s = Direction::Up;
    assert_eq!(calculate_side_button(s, &[]), None);
    assert_eq!(calculate_side_button(s, &[Direction::Left]), None);
    assert_eq!(calculate_side_button(s, &[Direction::Right]), None);
    assert_eq!(calculate_side_button(s, &[Direction::Down]), None);
    assert_eq!(calculate_side_button(s, &[Direction::Up, Direction::Up]), None);
    assert_eq!(calculate_side_button(s, &[Direction::Left, Direction::Right]), None);
    assert_eq!(calculate_side_button(s, &[Direction::Left, Direction::Down]), None);
    assert_eq!(calculate_side_button(s, &[Direction::Down, Direction::Up]), None);
    assert_eq!(
        calculate_side_button(s, &[Direction::Left, Direction::Left, Direction::Left]),
        None
    );
    assert_eq!(
        calculate_side_button(s, &[Direction::Left, Direction::Up, Direction::Up]),
        None
    );
}

#[test]
fn could_lead_accepts_prefixes_only() {
    let s = Direction::Right;
    let (l, r) = get_relative_directions(s);
    assert!(could_lead_to_valid_osb(s, &[]));
    assert!(could_lead_to_valid_osb(s, &[s]));
    assert!(could_lead_to_valid_osb(s, &[l]));
    assert!(could_lead_to_valid_osb(s, &[r]));
    assert!(could_lead_to_valid_osb(s, &[l, l]));
    assert!(could_lead_to_valid_osb(s, &[l, s]));
    assert!(could_lead_to_valid_osb(s, &[r, s]));
    assert!(could_lead_to_valid_osb(s, &[r, r]));
    assert!(!could_lead_to_valid_osb(s, &[opposite(s)]));
    assert!(!could_lead_to_valid_osb(s, &[s, s]));
    assert!(!could_lead_to_valid_osb(s, &[l, r]));
    assert!(!could_lead_to_valid_osb(s, &[r, l]));
    assert!(!could_lead_to_valid_osb(s, &[l, opposite(s)]));
    assert!(!could_lead_to_valid_osb(s, &[l, l, l]));
    assert!(!could_lead_to_valid_osb(s, &[r, s, s]));
}

#[test]
fn dead_end_is_never_revived_by_one_more_tap() {
    for s in ALL {
        let mut buffers: Vec<Vec<Direction>> = vec![vec![]];
        for a in ALL {
            buffers.push(vec![a]);
            for b in ALL {
                buffers.push(vec![a, b]);
                for c in ALL {
                    buffers.push(vec![a, b, c]);
                }
            }
        }
        for buffer in buffers {
            if calculate_side_button(s, &buffer).is_none() && !could_lead_to_valid_osb(s, &buffer) {
                for tap in ALL {
                    let mut longer = buffer.clone();
                    longer.push(tap);
                    assert_eq!(calculate_side_button(s, &longer), None);
                    assert_eq!(calculate_osb_number(MfdState::LeftMfd, s, &longer), None);
                }
            }
        }
    }
}

#[test]
fn osb_numbers_are_exact() {
    let l = MfdState::LeftMfd;
    let r = MfdState::RightMfd;
    assert_eq!(calculate_osb_number(l, Direction::Up, &[Direction::Left, Direction::Left]), Some(1));
    assert_eq!(calculate_osb_number(l, Direction::Up, &[Direction::Left, Direction::Up]), Some(2));
    assert_eq!(calculate_osb_number(l, Direction::Up, &[Direction::Up]), Some(3));
    assert_eq!(calculate_osb_number(l, Direction::Up, &[Direction::Right, Direction::Up]), Some(4));
    assert_eq!(calculate_osb_number(l, Direction::Up, &[Direction::Right, Direction::Right]), Some(5));
    assert_eq!(calculate_osb_number(l, Direction::Right, &[Direction::Up, Direction::Up]), Some(6));
    assert_eq!(calculate_osb_number(l, Direction::Right, &[Direction::Down, Direction::Down]), Some(10));
    assert_eq!(calculate_osb_number(l, Direction::Down, &[Direction::Right, Direction::Right]), Some(11));
    assert_eq!(calculate_osb_number(l, Direction::Down, &[Direction::Down]), Some(13));
    assert_eq!(calculate_osb_number(l, Direction::Left, &[Direction::Down, Direction::Down]), Some(16));
    assert_eq!(calculate_osb_number(l, Direction::Left, &[Direction::Up, Direction::Up]), Some(20));
    assert_eq!(calculate_osb_number(r, Direction::Up, &[Direction::Left, Direction::Left]), Some(21));
    assert_eq!(calculate_osb_number(r, Direction::Left, &[Direction::Down, Direction::Down]), Some(36));
    assert_eq!(calculate_osb_number(r, Direction::Left, &[Direction::Up, Direction::Up]), Some(40));
    assert_eq!(calculate_osb_number(l, Direction::Up, &[]), None);
    assert_eq!(calculate_osb_number(r, Direction::Up, &[Direction::Down]), None);
}

#[test]
fn left_side_down_down_is_first_of_left_side() {
    let taps = [Direction::Down, Direction::Down];
    assert_eq!(calculate_side_button(Direction::Left, &taps), Some(0));
    assert_eq!(calculate_osb_number(MfdState::LeftMfd, Direction::Left, &taps), Some(15 + 0 + 0 + 1));
    assert_eq!(calculate_osb_number(MfdState::RightMfd, Direction::Left, &taps), Some(15 + 0 + 20 + 1));
}

#[test]
fn numbers_round_trip_through_locations() {
    let mut seen = [false; 41];
    for mfd in [MfdState::LeftMfd, MfdState::RightMfd] {
        for side in ALL {
            for position in 0u8..5 {
                let number = osb_number_at(mfd, side, position);
                assert!((1..=40).contains(&number));
                assert!(!seen[number as usize]);
                seen[number as usize] = true;
                assert_eq!(locate_osb(number), Some(OsbLocation { mfd, side, position }));
            }
        }
    }
    assert!(seen[1..].iter().all(|s| *s));
}

#[test]
fn locations_are_exact_and_bounded() {
    assert_eq!(locate_osb(0), None);
    assert_eq!(locate_osb(41), None);
    assert_eq!(locate_osb(255), None);
    assert_eq!(
        locate_osb(1),
        Some(OsbLocation { mfd: MfdState::LeftMfd, side: Direction::Up, position: 0 })
    );
    assert_eq!(
        locate_osb(20),
        Some(OsbLocation { mfd: MfdState::LeftMfd, side: Direction::Left, position: 4 })
    );
    assert_eq!(
        locate_osb(28),
        Some(OsbLocation { mfd: MfdState::RightMfd, side: Direction::Right, position: 2 })
    );
    assert_eq!(
        locate_osb(40),
        Some(OsbLocation { mfd: MfdState::RightMfd, side: Direction::Left, position: 4 })
    );
    assert_eq!(osb_number_at(MfdState::RightMfd, Direction::Down, 3), 34);
}
