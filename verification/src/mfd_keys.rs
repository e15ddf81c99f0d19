//! The key combination that stands for each switch.

use vstd::prelude::*;

verus! {

/// A key of the keyboard: a modifier, a digit of the top row, or a digit of
/// the number pad.
#[derive(Debug, Copy, Clone, PartialEq, Eq, Structural)]
pub enum Key {
    Control,
    Shift,
    Alt,
    /// The digit key of the top row with this digit, 0 to 9.
    Num(u8),
    /// The key of the number pad with this digit, 0 to 9.
    Numpad(u8),
}

/// The modifier that tells the panels apart: Control for the switches 1 to
/// 20 of the left panel, Shift for the switches 21 to 40 of the right one.
pub open spec fn panel_modifier(osb_number: int) -> Key {
    if osb_number <= 20 {
        Key::Control
    } else {
        Key::Shift
    }
}

/// The digit key of a switch. On either panel the first ten switches take
/// the top row and the last ten the number pad, each run in the order 1, 2,
/// and so on to 9, then 0.
pub open spec fn digit_key(osb_number: int) -> Key {
    if (osb_number - 1) % 20 < 10 {
        Key::Num((osb_number % 10) as u8)
    } else {
        Key::Numpad((osb_number % 10) as u8)
    }
}

/// The keys of the combination for a switch, in the order in which they go
/// down: the panel's modifier, Alt, the digit key.
pub open spec fn key_combo(osb_number: int) -> Seq<Key> {
    seq![panel_modifier(osb_number), Key::Alt, digit_key(osb_number)]
}

/// Returns the keys to press for the switch `osb_number`, in the order in
/// which to press them.
pub fn press_osb(osb_number: u8) -> (keys: Vec<Key>)
    requires
        1 <= osb_number <= 40,
    ensures
        keys@ == key_combo(osb_number as int),
{
    let modifier = if osb_number <= 20 {
        Key::Control
    } else {
        Key::Shift
    };
    let digit: u8 = osb_number % 10;
    let key = if (osb_number - 1) % 20 < 10 {
        Key::Num(digit)
    } else {
        Key::Numpad(digit)
    };
    let mut keys: Vec<Key> = Vec::new();
    keys.push(modifier);
    keys.push(Key::Alt);
    keys.push(key);
    assert(keys@ =~= key_combo(osb_number as int));
    keys
}

/// Returns the keys to let go for the switch `osb_number`, in the order in
/// which to let them go: the reverse of the order in which they went down.
pub fn release_osb(osb_number: u8) -> (keys: Vec<Key>)
    requires
        1 <= osb_number <= 40,
    ensures
        keys@ == key_combo(osb_number as int).reverse(),
{
    let pressed = press_osb(osb_number);
    let mut keys: Vec<Key> = Vec::new();
    keys.push(pressed[2]);
    keys.push(pressed[1]);
    keys.push(pressed[0]);
    assert(keys@ =~= key_combo(osb_number as int).reverse());
    keys
}

/// No two switches share a key combination.
pub proof fn lemma_key_combos_distinct(a: int, b: int)
    requires
        1 <= a <= 40,
        1 <= b <= 40,
        key_combo(a) == key_combo(b),
    ensures
        a == b,
{
    assert(key_combo(a)[0] == key_combo(b)[0]);
    assert(key_combo(a)[2] == key_combo(b)[2]);
}

} // verus!
