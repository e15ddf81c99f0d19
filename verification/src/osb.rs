//! Decoding a sequence of taps into a position on a side.

use vstd::prelude::*;
use crate::direction::{Direction, get_relative_directions, relative_directions};
use crate::mfd::{MfdState, global_number, osb_number_at};

verus! {

/// The taps that select `position` on `side`: twice left for the outer left
/// switch, left then the side's own direction for the inner left one, the
/// side's own direction alone for the middle, and the mirror image on the
/// right. Positions other than 0 to 4 have no taps.
pub open spec fn button_sequence(side: Direction, position: int) -> Seq<Direction> {
    let (left, right) = relative_directions(side);
    if position == 0 {
        seq![left, left]
    } else if position == 1 {
        seq![left, side]
    } else if position == 2 {
        seq![side]
    } else if position == 3 {
        seq![right, side]
    } else if position == 4 {
        seq![right, right]
    } else {
        Seq::empty()
    }
}

/// The position that `inputs` selects on `side`, if it selects one.
pub open spec fn side_button(side: Direction, inputs: Seq<Direction>) -> Option<u8> {
    let (left, right) = relative_directions(side);
    if inputs.len() == 1 && inputs[0] == side {
        Some(2u8)
    } else if inputs.len() == 2 && inputs[0] == left && inputs[1] == left {
        Some(0u8)
    } else if inputs.len() == 2 && inputs[0] == left && inputs[1] == side {
        Some(1u8)
    } else if inputs.len() == 2 && inputs[0] == right && inputs[1] == side {
        Some(3u8)
    } else if inputs.len() == 2 && inputs[0] == right && inputs[1] == right {
        Some(4u8)
    } else {
        None
    }
}

/// The number of the switch that `inputs` selects on `side` of `mfd`, if it
/// selects one.
pub open spec fn osb_number(mfd: MfdState, side: Direction, inputs: Seq<Direction>) -> Option<u8> {
    match side_button(side, inputs) {
        Some(position) => Some(global_number(mfd, side, position as int) as u8),
        None => None,
    }
}

/// Whether `inputs` selects a position on `side` or may still come to select
/// one: it is empty, a first tap that a selection starts with, or a
/// selection.
pub open spec fn leads_to_valid_osb(side: Direction, inputs: Seq<Direction>) -> bool {
    let (left, right) = relative_directions(side);
    ||| inputs.len() == 0
    ||| inputs.len() == 1 && (inputs[0] == side || inputs[0] == left || inputs[0] == right)
    ||| side_button(side, inputs) is Some
}

/// Returns the position, 0 to 4, that `inputs` selects on `side`; nothing for
/// any other sequence of taps.
pub fn calculate_side_button(side: Direction, inputs: &[Direction]) -> (position: Option<u8>)
    ensures
        position == side_button(side, inputs@),
        position matches Some(p) ==> p <= 4,
        forall|p: int|
            0 <= p <= 4 ==> (position == Some(p as u8) <==> inputs@ == #[trigger] button_sequence(
                side,
                p,
            )),
{
    proof {
        lemma_side_button_sequences(side, inputs@);
    }
    let (left_dir, right_dir) = get_relative_directions(side);
    if inputs.len() == 1 {
        if inputs[0] == side {
            Some(2)
        } else {
            None
        }
    } else if inputs.len() == 2 {
        let first = inputs[0];
        let second = inputs[1];
        if first == left_dir && second == left_dir {
            Some(0)
        } else if first == left_dir && second == side {
            Some(1)
        } else if first == right_dir && second == side {
            Some(3)
        } else if first == right_dir && second == right_dir {
            Some(4)
        } else {
            None
        }
    } else {
        None
    }
}

/// Returns the number, 1 to 40, of the switch that `inputs` selects on `side`
/// of `mfd`; nothing where the taps select no position.
pub fn calculate_osb_number(mfd: MfdState, side: Direction, inputs: &[Direction]) -> (number:
    Option<u8>)
    ensures
        number == osb_number(mfd, side, inputs@),
        number is Some <==> side_button(side, inputs@) is Some,
        number matches Some(n) ==> 1 <= n <= 40 && n == global_number(
            mfd,
            side,
            side_button(side, inputs@).unwrap() as int,
        ),
{
    match calculate_side_button(side, inputs) {
        Some(position) => Some(osb_number_at(mfd, side, position)),
        None => None,
    }
}

/// Says whether `inputs` selects a position on `side` or can still be
/// extended to one. Where it says no, the taps are to be discarded.
pub fn could_lead_to_valid_osb(side: Direction, inputs: &[Direction]) -> (possible: bool)
    ensures
        possible == leads_to_valid_osb(side, inputs@),
        possible <==> exists|p: int|
            0 <= p <= 4 && inputs@.is_prefix_of(#[trigger] button_sequence(side, p)),
{
    proof {
        lemma_leads_to_valid_osb_prefix(side, inputs@);
    }
    if inputs.len() == 0 {
        return true;
    }
    let (left_dir, right_dir) = get_relative_directions(side);
    if inputs.len() == 1 {
        let first = inputs[0];
        first == side || first == left_dir || first == right_dir
    } else if inputs.len() == 2 {
        let first = inputs[0];
        let second = inputs[1];
        (first == left_dir && (second == left_dir || second == side)) || (first == right_dir && (
        second == right_dir || second == side))
    } else {
        false
    }
}

/// A sequence of taps selects position `p` exactly when it is the sequence
/// listed for `p`.
pub proof fn lemma_side_button_sequences(side: Direction, inputs: Seq<Direction>)
    ensures
        forall|p: int|
            0 <= p <= 4 ==> (side_button(side, inputs) == Some(p as u8) <==> inputs
                == #[trigger] button_sequence(side, p)),
        side_button(side, inputs) matches Some(p) ==> p <= 4,
{
    assert forall|p: int| 0 <= p <= 4 implies (side_button(side, inputs) == Some(p as u8)
        <==> inputs == #[trigger] button_sequence(side, p)) by {
        let b = button_sequence(side, p);
        if side_button(side, inputs) == Some(p as u8) {
            assert(inputs =~= b);
        }
        if inputs == b {
            assert(b.len() == if p == 2 { 1nat } else { 2nat });
        }
    }
}

/// A single tap in the side's own direction selects the middle position.
pub proof fn lemma_single_tap_is_middle(side: Direction)
    ensures
        side_button(side, seq![side]) == Some(2u8),
{
}

/// The five listed sequences of a side differ from each other, so no two of
/// them select the same position and each position has one sequence.
pub proof fn lemma_button_sequences_distinct(side: Direction, p: int, q: int)
    requires
        0 <= p <= 4,
        0 <= q <= 4,
    ensures
        button_sequence(side, p) == button_sequence(side, q) <==> p == q,
        side_button(side, button_sequence(side, p)) == Some(p as u8),
{
    lemma_side_button_sequences(side, button_sequence(side, p));
    lemma_side_button_sequences(side, button_sequence(side, q));
}

/// Two sequences of taps that select the same position on a side are the
/// same sequence.
pub proof fn lemma_side_button_injective(side: Direction, a: Seq<Direction>, b: Seq<Direction>)
    requires
        side_button(side, a) is Some,
        side_button(side, a) == side_button(side, b),
    ensures
        a == b,
{
    assert(a =~= b);
}

/// Taps can still come to select a position exactly when they are the start
/// of one of the five listed sequences.
pub proof fn lemma_leads_to_valid_osb_prefix(side: Direction, inputs: Seq<Direction>)
    ensures
        leads_to_valid_osb(side, inputs) <==> exists|p: int|
            0 <= p <= 4 && inputs.is_prefix_of(#[trigger] button_sequence(side, p)),
{
    let (left, right) = relative_directions(side);
    if leads_to_valid_osb(side, inputs) {
        let p: int = if inputs.len() == 0 {
            2
        } else if inputs.len() == 1 {
            if inputs[0] == side {
                2
            } else if inputs[0] == left {
                0
            } else {
                4
            }
        } else {
            side_button(side, inputs).unwrap() as int
        };
        assert(inputs.is_prefix_of(button_sequence(side, p)));
    }
    if exists|p: int| 0 <= p <= 4 && inputs.is_prefix_of(#[trigger] button_sequence(side, p)) {
        let p = choose|p: int|
            0 <= p <= 4 && inputs.is_prefix_of(#[trigger] button_sequence(side, p));
        let b = button_sequence(side, p);
        assert(inputs.len() <= b.len());
        assert(forall|i: int| 0 <= i < inputs.len() ==> inputs[i] == b[i]);
        assert(b.len() == if p == 2 { 1nat } else { 2nat });
    }
}

/// Once taps select nothing and cannot be extended, no further tap makes
/// them select a position.
pub proof fn lemma_dead_end_stays_dead(side: Direction, inputs: Seq<Direction>, tap: Direction)
    requires
        side_button(side, inputs) is None,
        !leads_to_valid_osb(side, inputs),
    ensures
        side_button(side, inputs.push(tap)) is None,
        forall|mfd: MfdState| osb_number(mfd, side, inputs.push(tap)) is None,
{
}

} // verus!
