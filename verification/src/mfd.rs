//! The two panels and the numbering of their switches.

use vstd::prelude::*;
use crate::direction::Direction;

verus! {

/// One of the two panels of twenty switches.
#[derive(Debug, Copy, Clone, PartialEq, Eq, Structural)]
pub enum MfdState {
    LeftMfd,
    RightMfd,
}

/// Number of switches on one side of a panel.
pub const SIDE_BUTTONS: u8 = 5;

/// Number of switches on one panel.
pub const MFD_BUTTONS: u8 = 20;

/// Number of switches on both panels together.
pub const TOTAL_BUTTONS: u8 = 40;

/// What a side adds to the number of a switch: the count of switches on the
/// sides that come before it, going clockwise from the top.
pub open spec fn side_base(side: Direction) -> int {
    5 * side.index()
}

/// What a panel adds to the number of a switch.
pub open spec fn mfd_offset(mfd: MfdState) -> int {
    match mfd {
        MfdState::LeftMfd => 0,
        MfdState::RightMfd => 20,
    }
}

/// The number, from 1 to 40, of the switch at `position` on `side` of `mfd`.
pub open spec fn global_number(mfd: MfdState, side: Direction, position: int) -> int {
    side_base(side) + position + mfd_offset(mfd) + 1
}

/// Where a switch sits: its panel, its side and its position on that side.
#[derive(Debug, Copy, Clone, PartialEq, Eq, Structural)]
pub struct OsbLocation {
    pub mfd: MfdState,
    pub side: Direction,
    pub position: u8,
}

impl OsbLocation {
    /// A location is valid when its position is one of the five on a side.
    pub open spec fn valid(self) -> bool {
        self.position < 5
    }

    /// The number of the switch at this location.
    pub open spec fn number(self) -> int {
        global_number(self.mfd, self.side, self.position as int)
    }
}

/// Returns the number of the switch at `position` on `side` of `mfd`.
pub fn osb_number_at(mfd: MfdState, side: Direction, position: u8) -> (number: u8)
    requires
        position < 5,
    ensures
        number == global_number(mfd, side, position as int),
        1 <= number <= 40,
{
    let base_number: u8 = match side {
        Direction::Up => 0,
        Direction::Right => 5,
        Direction::Down => 10,
        Direction::Left => 15,
    };
    let offset: u8 = match mfd {
        MfdState::LeftMfd => 0,
        MfdState::RightMfd => 20,
    };
    base_number + position + offset + 1
}

/// Recovers panel, side and position from the number of a switch, or nothing
/// where the number is not one of 1 to 40.
pub fn locate_osb(number: u8) -> (location: Option<OsbLocation>)
    ensures
        location is Some <==> 1 <= number <= 40,
        location matches Some(l) ==> l.valid() && l.number() == number,
{
    if number < 1 || number > TOTAL_BUTTONS {
        return None;
    }
    let zero_based: u8 = number - 1;
    let (mfd, within): (MfdState, u8) = if zero_based < MFD_BUTTONS {
        (MfdState::LeftMfd, zero_based)
    } else {
        (MfdState::RightMfd, zero_based - MFD_BUTTONS)
    };
    let side = if within < 5 {
        Direction::Up
    } else if within < 10 {
        Direction::Right
    } else if within < 15 {
        Direction::Down
    } else {
        Direction::Left
    };
    let position: u8 = within % SIDE_BUTTONS;
    Some(OsbLocation { mfd, side, position })
}

/// Every valid location has a number from 1 to 40.
pub proof fn lemma_number_in_range(l: OsbLocation)
    requires
        l.valid(),
    ensures
        1 <= l.number() <= 40,
{
}

/// Two valid locations with the same number are the same location: panel,
/// side and position are recovered from the number in one way only.
pub proof fn lemma_number_unique(a: OsbLocation, b: OsbLocation)
    requires
        a.valid(),
        b.valid(),
        a.number() == b.number(),
    ensures
        a == b,
{
}

/// Every number from 1 to 40 belongs to exactly one valid location.
pub proof fn lemma_number_invertible(number: int)
    requires
        1 <= number <= 40,
    ensures
        exists|l: OsbLocation| l.valid() && #[trigger] l.number() == number,
        forall|a: OsbLocation, b: OsbLocation|
            a.valid() && b.valid() && #[trigger] a.number() == number && #[trigger] b.number()
                == number ==> a == b,
{
    let zero_based = number - 1;
    let mfd = if zero_based < 20 {
        MfdState::LeftMfd
    } else {
        MfdState::RightMfd
    };
    let within = zero_based - mfd_offset(mfd);
    let side = if within < 5 {
        Direction::Up
    } else if within < 10 {
        Direction::Right
    } else if within < 15 {
        Direction::Down
    } else {
        Direction::Left
    };
    let l = OsbLocation { mfd, side, position: (within - side_base(side)) as u8 };
    assert(l.valid() && l.number() == number);
    assert forall|a: OsbLocation, b: OsbLocation|
        a.valid() && b.valid() && #[trigger] a.number() == number && #[trigger] b.number()
            == number implies a == b by {
        lemma_number_unique(a, b);
    }
}

} // verus!
