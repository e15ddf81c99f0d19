//! Which click, if any, answers an action.

use vstd::prelude::*;
use crate::mfd::MfdState;
use crate::state::Action;

verus! {

/// The two clicks: one for each panel.
#[derive(Debug, Copy, Clone, PartialEq, Eq, Structural)]
pub enum ClickSound {
    Left,
    Right,
}

/// The click that answers `action` where sound is on or off as
/// `sound_enabled` says: the click of the panel for a selection of that
/// panel while sound is on, and none otherwise.
pub open spec fn click_for(action: Action, sound_enabled: bool) -> Option<ClickSound> {
    match action {
        Action::PanelSelected(MfdState::LeftMfd) if sound_enabled => Some(ClickSound::Left),
        Action::PanelSelected(MfdState::RightMfd) if sound_enabled => Some(ClickSound::Right),
        _ => None,
    }
}

/// Returns the click to play after `action`, if one is to be played.
pub fn click_for_action(action: Action, sound_enabled: bool) -> (click: Option<ClickSound>)
    ensures
        click == click_for(action, sound_enabled),
{
    if !sound_enabled {
        return None;
    }
    match action {
        Action::PanelSelected(MfdState::LeftMfd) => Some(ClickSound::Left),
        Action::PanelSelected(MfdState::RightMfd) => Some(ClickSound::Right),
        _ => None,
    }
}

} // verus!
