//! The settings that the recogniser works with: which raw button stands for
//! which direction, the panel last selected, and whether clicks are audible.

use vstd::prelude::*;
use crate::direction::Direction;
use crate::mfd::MfdState;

verus! {

/// The raw button, as (device id, button code), bound to each direction.
/// The pair (0, 0) marks a direction that has no button yet.
#[derive(Debug, Copy, Clone, PartialEq, Eq)]
pub struct ButtonBindings {
    pub up: (u32, u32),
    pub right: (u32, u32),
    pub down: (u32, u32),
    pub left: (u32, u32),
}

/// Whether a raw button is a real one, not the mark of a missing binding.
pub open spec fn is_bound(button: (u32, u32)) -> bool {
    button != (0u32, 0u32)
}

impl ButtonBindings {
    /// The raw button bound to `direction`.
    pub open spec fn binding(self, direction: Direction) -> (u32, u32) {
        match direction {
            Direction::Up => self.up,
            Direction::Right => self.right,
            Direction::Down => self.down,
            Direction::Left => self.left,
        }
    }

    /// A table is complete when every direction has a button and no two
    /// directions share one.
    pub open spec fn complete(self) -> bool {
        &&& forall|d: Direction| is_bound(#[trigger] self.binding(d))
        &&& forall|d: Direction, e: Direction|
            d != e ==> #[trigger] self.binding(d) != #[trigger] self.binding(e)
    }

    /// The direction that a raw button stands for: the first of Up, Right,
    /// Down, Left whose binding is that button. A missing binding stands for
    /// no button, so the pair (0, 0) has no direction.
    pub open spec fn classify(self, device_id: u32, button_id: u32) -> Option<Direction> {
        let button = (device_id, button_id);
        if !is_bound(button) {
            None
        } else if button == self.up {
            Some(Direction::Up)
        } else if button == self.right {
            Some(Direction::Right)
        } else if button == self.down {
            Some(Direction::Down)
        } else if button == self.left {
            Some(Direction::Left)
        } else {
            None
        }
    }

    /// The table after `direction` was bound to a raw button.
    pub open spec fn with_binding(self, direction: Direction, button: (u32, u32)) -> ButtonBindings {
        match direction {
            Direction::Up => ButtonBindings { up: button, ..self },
            Direction::Right => ButtonBindings { right: button, ..self },
            Direction::Down => ButtonBindings { down: button, ..self },
            Direction::Left => ButtonBindings { left: button, ..self },
        }
    }

    /// A table in which no direction has a button.
    pub fn unbound() -> (bindings: ButtonBindings)
        ensures
            forall|d: Direction| #[trigger] bindings.binding(d) == (0u32, 0u32),
            !bindings.complete(),
    {
        let bindings = ButtonBindings { up: (0, 0), right: (0, 0), down: (0, 0), left: (0, 0) };
        assert(!is_bound(bindings.binding(Direction::Up)));
        bindings
    }

    /// Returns the raw button bound to `direction`.
    pub fn get(&self, direction: Direction) -> (button: (u32, u32))
        ensures
            button == self.binding(direction),
    {
        match direction {
            Direction::Up => self.up,
            Direction::Right => self.right,
            Direction::Down => self.down,
            Direction::Left => self.left,
        }
    }

    /// Binds `direction` to the raw button (`device_id`, `button_id`) and
    /// leaves the other three bindings as they are.
    pub fn set(&mut self, direction: Direction, device_id: u32, button_id: u32)
        ensures
            *final(self) == old(self).with_binding(direction, (device_id, button_id)),
            final(self).binding(direction) == (device_id, button_id),
            forall|d: Direction| d != direction ==> final(self).binding(d) == old(self).binding(d),
    {
        match direction {
            Direction::Up => {
                self.up = (device_id, button_id);
            },
            Direction::Right => {
                self.right = (device_id, button_id);
            },
            Direction::Down => {
                self.down = (device_id, button_id);
            },
            Direction::Left => {
                self.left = (device_id, button_id);
            },
        }
    }

    /// Says whether the table is complete.
    pub fn is_complete(&self) -> (complete: bool)
        ensures
            complete == self.complete(),
    {
        let bound = !same_button(self.up, (0, 0)) && !same_button(self.right, (0, 0))
            && !same_button(self.down, (0, 0)) && !same_button(self.left, (0, 0));
        let distinct = !same_button(self.up, self.right) && !same_button(self.up, self.down)
            && !same_button(self.up, self.left) && !same_button(self.right, self.down)
            && !same_button(self.right, self.left) && !same_button(self.down, self.left);
        proof {
            if bound && distinct {
                assert forall|d: Direction| is_bound(#[trigger] self.binding(d)) by {}
                assert forall|d: Direction, e: Direction| d != e implies #[trigger] self.binding(d)
                    != #[trigger] self.binding(e) by {}
            } else if !bound {
                assert(!is_bound(self.binding(Direction::Up)) || !is_bound(
                    self.binding(Direction::Right),
                ) || !is_bound(self.binding(Direction::Down)) || !is_bound(
                    self.binding(Direction::Left),
                ));
            } else {
                assert(self.binding(Direction::Up) == self.up);
                assert(self.binding(Direction::Right) == self.right);
                assert(self.binding(Direction::Down) == self.down);
                assert(self.binding(Direction::Left) == self.left);
            }
        }
        bound && distinct
    }
}

/// Says whether two raw buttons are the same button of the same device.
pub fn same_button(a: (u32, u32), b: (u32, u32)) -> (same: bool)
    ensures
        same == (a == b),
{
    a.0 == b.0 && a.1 == b.1
}

/// Maps a raw button to the direction it is bound to, or to nothing
/// where no direction is bound to it.
pub fn map_button_to_direction(bindings: &ButtonBindings, device_id: u32, button_id: u32) -> (direction:
    Option<Direction>)
    ensures
        direction == bindings.classify(device_id, button_id),
        direction matches Some(d) ==> bindings.binding(d) == (device_id, button_id) && is_bound(
            (device_id, button_id),
        ),
        direction is None <==> !is_bound((device_id, button_id)) || forall|d: Direction| #[trigger]
            bindings.binding(d) != (device_id, button_id),
{
    let button = (device_id, button_id);
    proof {
        lemma_classify_matches(*bindings, device_id, button_id);
    }
    if same_button(button, (0, 0)) {
        None
    } else if same_button(button, bindings.up) {
        Some(Direction::Up)
    } else if same_button(button, bindings.right) {
        Some(Direction::Right)
    } else if same_button(button, bindings.down) {
        Some(Direction::Down)
    } else if same_button(button, bindings.left) {
        Some(Direction::Left)
    } else {
        None
    }
}

/// A raw button is classified as a direction only if that direction is bound
/// to it, and as nothing exactly when it is the mark of a missing binding or
/// no direction is bound to it.
pub proof fn lemma_classify_matches(bindings: ButtonBindings, device_id: u32, button_id: u32)
    ensures
        bindings.classify(device_id, button_id) matches Some(d) ==> bindings.binding(d) == (
            device_id,
            button_id,
        ) && is_bound((device_id, button_id)),
        bindings.classify(device_id, button_id) is None <==> !is_bound((device_id, button_id))
            || forall|d: Direction| #[trigger] bindings.binding(d) != (device_id, button_id),
{
    let button = (device_id, button_id);
    if bindings.classify(device_id, button_id) is None && is_bound(button) {
        assert forall|d: Direction| #[trigger] bindings.binding(d) != button by {}
    }
    if is_bound(button) && forall|d: Direction| #[trigger] bindings.binding(d) != button {
        assert(bindings.binding(Direction::Up) != button);
        assert(bindings.binding(Direction::Right) != button);
        assert(bindings.binding(Direction::Down) != button);
        assert(bindings.binding(Direction::Left) != button);
    }
}

/// In a complete table every direction is found again from its own button.
pub proof fn lemma_complete_classifies_each(bindings: ButtonBindings, d: Direction)
    requires
        bindings.complete(),
    ensures
        bindings.classify(bindings.binding(d).0, bindings.binding(d).1) == Some(d),
{
    let button = bindings.binding(d);
    assert(is_bound(button));
    assert(d != Direction::Up ==> bindings.binding(Direction::Up) != button);
    assert(d != Direction::Right ==> bindings.binding(Direction::Right) != button);
    assert(d != Direction::Down ==> bindings.binding(Direction::Down) != button);
    assert(d != Direction::Left ==> bindings.binding(Direction::Left) != button);
}

/// The settings kept from one run to the next.
#[derive(Debug, Copy, Clone, PartialEq, Eq)]
pub struct Config {
    pub button_bindings: ButtonBindings,
    pub selected_mfd: MfdState,
    pub sound_enabled: bool,
}

impl Default for Config {
    /// No button bound, the left panel selected, sound on.
    fn default() -> (config: Config)
        ensures
            config.button_bindings == (ButtonBindings {
                up: (0u32, 0u32),
                right: (0u32, 0u32),
                down: (0u32, 0u32),
                left: (0u32, 0u32),
            }),
            config.selected_mfd == MfdState::LeftMfd,
            config.sound_enabled,
    {
        Config {
            button_bindings: ButtonBindings { up: (0, 0), right: (0, 0), down: (0, 0), left: (0, 0) },
            selected_mfd: MfdState::LeftMfd,
            sound_enabled: true,
        }
    }
}

/// Records `mfd` as the selected panel. The bindings and the sound setting
/// stay as they are.
pub fn save_mfd_state(config: &mut Config, mfd: MfdState)
    ensures
        final(config).selected_mfd == mfd,
        final(config).button_bindings == old(config).button_bindings,
        final(config).sound_enabled == old(config).sound_enabled,
{
    config.selected_mfd = mfd;
}

/// Turns sound on where it was off and off where it was on, and returns the
/// new setting.
pub fn toggle_sound(config: &mut Config) -> (enabled: bool)
    ensures
        enabled == !old(config).sound_enabled,
        final(config).sound_enabled == enabled,
        final(config).button_bindings == old(config).button_bindings,
        final(config).selected_mfd == old(config).selected_mfd,
{
    config.sound_enabled = !config.sound_enabled;
    config.sound_enabled
}

} // verus!
