//! The input state machine: what each button event does to the current mode
//! and which action it asks of the outside world.

use vstd::prelude::*;
use crate::config::{ButtonBindings, Config, map_button_to_direction};
use crate::direction::Direction;
use crate::mfd::{MfdState, mfd_offset};
use crate::osb::{
    calculate_osb_number,
    could_lead_to_valid_osb,
    leads_to_valid_osb,
    osb_number,
    side_button,
};

verus! {

/// Milliseconds without a tap after which a started selection is dropped.
pub const TIMEOUT_MS: u64 = 1500;

/// Milliseconds a button must be held to count as a long press.
pub const LONGPRESS_MS: u64 = 500;

/// What happened to a button.
#[derive(Debug, Copy, Clone, PartialEq, Eq, Structural)]
pub enum InputEventType {
    /// The button went down.
    ButtonDown,
    /// The button came up.
    ButtonUp,
    /// The button has been held for the long-press time.
    LongPress,
}

/// The mode the recogniser is in.
#[derive(Debug, Clone, PartialEq, Eq)]
pub enum AppState {
    /// A panel is selected; the next short tap picks a side.
    WaitingForSide { mfd: MfdState },
    /// A side is picked; `inputs` holds the taps made since, and
    /// `last_input_time` the time of the latest of them, in milliseconds.
    SelectingOSB { mfd: MfdState, side: Direction, inputs: Vec<Direction>, last_input_time: u64 },
    /// A switch is held down until the next release.
    OSBPressed { mfd: MfdState, osb_number: u8 },
    /// The taps made could select nothing; waits for the next release.
    InvalidSequence { mfd: MfdState },
    /// The next button that goes down becomes the binding of `waiting_for`.
    BindingMode { waiting_for: Direction },
}

/// The mode as a mathematical value, with the taps as a sequence.
pub ghost enum Mode {
    WaitingForSide { mfd: MfdState },
    SelectingOSB { mfd: MfdState, side: Direction, inputs: Seq<Direction>, last_input_time: u64 },
    OSBPressed { mfd: MfdState, osb_number: u8 },
    InvalidSequence { mfd: MfdState },
    BindingMode { waiting_for: Direction },
}

impl View for AppState {
    type V = Mode;

    open spec fn view(&self) -> Mode {
        match *self {
            AppState::WaitingForSide { mfd } => Mode::WaitingForSide { mfd },
            AppState::SelectingOSB { mfd, side, inputs, last_input_time } => Mode::SelectingOSB {
                mfd,
                side,
                inputs: inputs@,
                last_input_time,
            },
            AppState::OSBPressed { mfd, osb_number } => Mode::OSBPressed { mfd, osb_number },
            AppState::InvalidSequence { mfd } => Mode::InvalidSequence { mfd },
            AppState::BindingMode { waiting_for } => Mode::BindingMode { waiting_for },
        }
    }
}

/// What the recogniser asks of the outside world after an event.
#[derive(Debug, Copy, Clone, PartialEq, Eq, Structural)]
pub enum Action {
    /// Nothing is to be done.
    Nothing,
    /// The panel was selected by a long press.
    PanelSelected(MfdState),
    /// The switch with this number is to be pressed.
    SwitchActivated(u8),
    /// The switch with this number is to be let go.
    SwitchReleased(u8),
    /// The taps made could select nothing and were dropped.
    SequenceInvalid,
    /// No tap came in time and the started selection was dropped.
    SequenceTimedOut,
    /// All four directions have a new binding; the table is to be stored.
    BindingsCompleted,
}

impl Mode {
    /// The modes that the recogniser reaches by its own steps. While a side
    /// waits for taps, the taps so far are none or one tap to the left or to
    /// the right of the side; a held switch has a number of its panel.
    pub open spec fn wf(self) -> bool {
        match self {
            Mode::SelectingOSB { side, inputs, .. } => {
                &&& inputs.len() <= 1
                &&& leads_to_valid_osb(side, inputs)
                &&& side_button(side, inputs) is None
            },
            Mode::OSBPressed { mfd, osb_number } => mfd_offset(mfd) < osb_number <= mfd_offset(mfd)
                + 20,
            _ => true,
        }
    }

    /// The switch that is held down in this mode, if one is.
    pub open spec fn held_switch(self) -> Option<u8> {
        match self {
            Mode::OSBPressed { osb_number, .. } => Some(osb_number),
            _ => None,
        }
    }
}

/// The mode to start in: rebinding from Up where the table is not complete,
/// else waiting for a side on the panel recorded in the settings.
pub open spec fn initial_mode(config: Config) -> Mode {
    if config.button_bindings.complete() {
        Mode::WaitingForSide { mfd: config.selected_mfd }
    } else {
        Mode::BindingMode { waiting_for: Direction::Up }
    }
}

/// A short press of `direction` at time `now`. While waiting for a side it
/// picks the side. While a side waits for taps it adds a tap: where the taps
/// then select a switch the switch is pressed, where they can select nothing
/// any more they are dropped, else the recogniser waits for the next tap.
/// In the other modes nothing happens.
pub open spec fn short_press_step(direction: Direction, mode: Mode, now: u64) -> (Mode, Action) {
    match mode {
        Mode::WaitingForSide { mfd } => (
            Mode::SelectingOSB { mfd, side: direction, inputs: Seq::empty(), last_input_time: now },
            Action::Nothing,
        ),
        Mode::SelectingOSB { mfd, side, inputs, last_input_time } => {
            let taps = inputs.push(direction);
            match osb_number(mfd, side, taps) {
                Some(n) => (Mode::OSBPressed { mfd, osb_number: n }, Action::SwitchActivated(n)),
                None => if leads_to_valid_osb(side, taps) {
                    (
                        Mode::SelectingOSB { mfd, side, inputs: taps, last_input_time: now },
                        Action::Nothing,
                    )
                } else {
                    (Mode::InvalidSequence { mfd }, Action::SequenceInvalid)
                },
            }
        },
        _ => (mode, Action::Nothing),
    }
}

/// A release. It lets a held switch go and clears dropped taps; either way
/// the recogniser waits for a side again. In the other modes nothing
/// happens.
pub open spec fn release_step(mode: Mode) -> (Mode, Action) {
    match mode {
        Mode::OSBPressed { mfd, osb_number } => (
            Mode::WaitingForSide { mfd },
            Action::SwitchReleased(osb_number),
        ),
        Mode::InvalidSequence { mfd } => (Mode::WaitingForSide { mfd }, Action::Nothing),
        _ => (mode, Action::Nothing),
    }
}

/// The panel that a long press of `direction` selects, if it selects one.
pub open spec fn long_press_panel(direction: Direction) -> Option<MfdState> {
    match direction {
        Direction::Left => Some(MfdState::LeftMfd),
        Direction::Right => Some(MfdState::RightMfd),
        _ => None,
    }
}

/// One event of a button that stands for `direction`.
///
/// While waiting for a side: a long press to the left or right selects that
/// panel; a release picks the side unless the press was a long one; a button
/// going down does nothing. In every other mode a long press does nothing, a
/// button going down is a short press, and a release is a release.
pub open spec fn input_step(
    event_type: InputEventType,
    direction: Direction,
    mode: Mode,
    long_press_detected: bool,
    now: u64,
) -> (Mode, Action) {
    match (event_type, mode) {
        (InputEventType::LongPress, Mode::WaitingForSide { mfd }) => match long_press_panel(
            direction,
        ) {
            Some(selected) => (
                Mode::WaitingForSide { mfd: selected },
                Action::PanelSelected(selected),
            ),
            None => (mode, Action::Nothing),
        },
        (InputEventType::LongPress, _) => (mode, Action::Nothing),
        (InputEventType::ButtonUp, Mode::WaitingForSide { mfd }) => if long_press_detected {
            (mode, Action::Nothing)
        } else {
            short_press_step(direction, mode, now)
        },
        (InputEventType::ButtonUp, _) => release_step(mode),
        (InputEventType::ButtonDown, Mode::WaitingForSide { mfd }) => (mode, Action::Nothing),
        (InputEventType::ButtonDown, _) => short_press_step(direction, mode, now),
    }
}

/// One event of a raw button: the event of the direction that the button is
/// bound to, or nothing where it is bound to none.
pub open spec fn raw_input_step(
    event_type: InputEventType,
    button_id: u32,
    device_id: u32,
    mode: Mode,
    long_press_detected: bool,
    bindings: ButtonBindings,
    now: u64,
) -> (Mode, Action) {
    match bindings.classify(device_id, button_id) {
        Some(direction) => input_step(event_type, direction, mode, long_press_detected, now),
        None => (mode, Action::Nothing),
    }
}

/// The passing of time. A side that has waited for a tap for more than
/// `TIMEOUT_MS` since the last one is given up; no other mode times out.
pub open spec fn timeout_step(mode: Mode, now: u64) -> (Mode, Action) {
    match mode {
        Mode::SelectingOSB { mfd, last_input_time, .. } => if now - last_input_time > TIMEOUT_MS {
            (Mode::WaitingForSide { mfd }, Action::SequenceTimedOut)
        } else {
            (mode, Action::Nothing)
        },
        _ => (mode, Action::Nothing),
    }
}

/// The request to rebind. From any mode but rebinding itself the recogniser
/// starts to capture Up; a switch that is held is let go first. During
/// rebinding the request changes nothing.
pub open spec fn enter_binding_step(mode: Mode) -> (Mode, Action) {
    match mode {
        Mode::BindingMode { .. } => (mode, Action::Nothing),
        Mode::OSBPressed { osb_number, .. } => (
            Mode::BindingMode { waiting_for: Direction::Up },
            Action::SwitchReleased(osb_number),
        ),
        _ => (Mode::BindingMode { waiting_for: Direction::Up }, Action::Nothing),
    }
}

/// The bind button: it starts rebinding, or abandons a rebinding that is
/// under way and waits for a side on the left panel.
pub open spec fn toggle_binding_step(mode: Mode) -> (Mode, Action) {
    match mode {
        Mode::BindingMode { .. } => (
            Mode::WaitingForSide { mfd: MfdState::LeftMfd },
            Action::Nothing,
        ),
        _ => enter_binding_step(mode),
    }
}

/// A button going down during rebinding: it becomes the binding of the
/// direction waited for, and the next of Up, Right, Down, Left is waited
/// for. After Left the table is to be stored and the recogniser waits for a
/// side on the left panel. Outside rebinding nothing happens.
pub open spec fn binding_step(mode: Mode, bindings: ButtonBindings, device_id: u32, button_id: u32) -> (
    Mode,
    ButtonBindings,
    Action,
) {
    match mode {
        Mode::BindingMode { waiting_for } => {
            let bound = bindings.with_binding(waiting_for, (device_id, button_id));
            match waiting_for {
                Direction::Up => (
                    Mode::BindingMode { waiting_for: Direction::Right },
                    bound,
                    Action::Nothing,
                ),
                Direction::Right => (
                    Mode::BindingMode { waiting_for: Direction::Down },
                    bound,
                    Action::Nothing,
                ),
                Direction::Down => (
                    Mode::BindingMode { waiting_for: Direction::Left },
                    bound,
                    Action::Nothing,
                ),
                Direction::Left => (
                    Mode::WaitingForSide { mfd: MfdState::LeftMfd },
                    bound,
                    Action::BindingsCompleted,
                ),
            }
        },
        _ => (mode, bindings, Action::Nothing),
    }
}

/// Returns the mode to start in for the given settings.
pub fn initial_state(config: &Config) -> (app_state: AppState)
    ensures
        app_state@ == initial_mode(*config),
        app_state@.wf(),
{
    if config.button_bindings.is_complete() {
        AppState::WaitingForSide { mfd: config.selected_mfd }
    } else {
        AppState::BindingMode { waiting_for: Direction::Up }
    }
}

/// Handles a short press of `direction` at time `now`.
pub fn handle_short_press(direction: Direction, app_state: &mut AppState, now: u64) -> (action:
    Action)
    ensures
        (final(app_state)@, action) == short_press_step(direction, old(app_state)@, now),
        old(app_state)@.wf() ==> final(app_state)@.wf(),
{
    match app_state {
        AppState::WaitingForSide { mfd } => {
            let mfd = *mfd;
            *app_state =
            AppState::SelectingOSB { mfd, side: direction, inputs: Vec::new(), last_input_time: now };
            Action::Nothing
        },
        AppState::SelectingOSB { mfd, side, inputs, last_input_time } => {
            let mfd = *mfd;
            let side = *side;
            *last_input_time = now;
            inputs.push(direction);
            match calculate_osb_number(mfd, side, inputs.as_slice()) {
                Some(osb_num) => {
                    *app_state = AppState::OSBPressed { mfd, osb_number: osb_num };
                    Action::SwitchActivated(osb_num)
                },
                None => {
                    if !could_lead_to_valid_osb(side, inputs.as_slice()) {
                        *app_state = AppState::InvalidSequence { mfd };
                        Action::SequenceInvalid
                    } else {
                        Action::Nothing
                    }
                },
            }
        },
        AppState::OSBPressed { .. } | AppState::InvalidSequence { .. } => Action::Nothing,
        AppState::BindingMode { .. } => Action::Nothing,
    }
}

/// Handles a release.
pub fn handle_release(app_state: &mut AppState) -> (action: Action)
    ensures
        (final(app_state)@, action) == release_step(old(app_state)@),
        old(app_state)@.wf() ==> final(app_state)@.wf(),
{
    match app_state {
        AppState::OSBPressed { mfd, osb_number } => {
            let mfd = *mfd;
            let released = *osb_number;
            *app_state = AppState::WaitingForSide { mfd };
            Action::SwitchReleased(released)
        },
        AppState::InvalidSequence { mfd } => {
            let mfd = *mfd;
            *app_state = AppState::WaitingForSide { mfd };
            Action::Nothing
        },
        _ => Action::Nothing,
    }
}

/// Handles one event of the raw button (`device_id`, `button_id`) at time
/// `now`. `long_press_detected` says, for a release, whether the press that
/// it ends was a long one. A button that is bound to no direction changes
/// nothing.
pub fn handle_input_event(
    event_type: InputEventType,
    button_id: u32,
    device_id: u32,
    app_state: &mut AppState,
    long_press_detected: bool,
    bindings: &ButtonBindings,
    now: u64,
) -> (action: Action)
    ensures
        (final(app_state)@, action) == raw_input_step(
            event_type,
            button_id,
            device_id,
            old(app_state)@,
            long_press_detected,
            *bindings,
            now,
        ),
        bindings.classify(device_id, button_id) is None ==> final(app_state)@ == old(app_state)@
            && action == Action::Nothing,
        old(app_state)@.wf() ==> final(app_state)@.wf(),
{
    let direction = match map_button_to_direction(bindings, device_id, button_id) {
        Some(dir) => dir,
        None => {
            return Action::Nothing;
        },
    };
    let waiting = match app_state {
        AppState::WaitingForSide { .. } => true,
        _ => false,
    };
    match event_type {
        InputEventType::LongPress => {
            if waiting {
                match direction {
                    Direction::Left => {
                        *app_state = AppState::WaitingForSide { mfd: MfdState::LeftMfd };
                        Action::PanelSelected(MfdState::LeftMfd)
                    },
                    Direction::Right => {
                        *app_state = AppState::WaitingForSide { mfd: MfdState::RightMfd };
                        Action::PanelSelected(MfdState::RightMfd)
                    },
                    _ => Action::Nothing,
                }
            } else {
                Action::Nothing
            }
        },
        InputEventType::ButtonUp => {
            if waiting {
                if !long_press_detected {
                    handle_short_press(direction, app_state, now)
                } else {
                    Action::Nothing
                }
            } else {
                handle_release(app_state)
            }
        },
        InputEventType::ButtonDown => {
            if waiting {
                Action::Nothing
            } else {
                handle_short_press(direction, app_state, now)
            }
        },
    }
}

/// Gives up a side that has waited for a tap for more than `TIMEOUT_MS`
/// milliseconds at time `now`.
pub fn check_for_timeouts(app_state: &mut AppState, now: u64) -> (action: Action)
    ensures
        (final(app_state)@, action) == timeout_step(old(app_state)@, now),
        action == Action::SequenceTimedOut || action == Action::Nothing,
        old(app_state)@.wf() ==> final(app_state)@.wf(),
{
    match app_state {
        AppState::SelectingOSB { mfd, last_input_time, .. } => {
            let mfd = *mfd;
            let last = *last_input_time;
            if now > last && now - last > TIMEOUT_MS {
                *app_state = AppState::WaitingForSide { mfd };
                Action::SequenceTimedOut
            } else {
                Action::Nothing
            }
        },
        _ => Action::Nothing,
    }
}

/// Starts rebinding with Up, unless rebinding is under way already.
pub fn enter_binding_mode(app_state: &mut AppState) -> (action: Action)
    ensures
        (final(app_state)@, action) == enter_binding_step(old(app_state)@),
        final(app_state)@ is BindingMode,
        old(app_state)@.wf() ==> final(app_state)@.wf(),
{
    match app_state {
        AppState::BindingMode { .. } => Action::Nothing,
        AppState::OSBPressed { osb_number, .. } => {
            let released = *osb_number;
            *app_state = AppState::BindingMode { waiting_for: Direction::Up };
            Action::SwitchReleased(released)
        },
        _ => {
            *app_state = AppState::BindingMode { waiting_for: Direction::Up };
            Action::Nothing
        },
    }
}

/// Handles the bind button: starts rebinding, or abandons it where it is
/// under way.
pub fn toggle_binding_mode(app_state: &mut AppState) -> (action: Action)
    ensures
        (final(app_state)@, action) == toggle_binding_step(old(app_state)@),
        old(app_state)@.wf() ==> final(app_state)@.wf(),
{
    let rebinding = match app_state {
        AppState::BindingMode { .. } => true,
        _ => false,
    };
    if rebinding {
        *app_state = AppState::WaitingForSide { mfd: MfdState::LeftMfd };
        Action::Nothing
    } else {
        enter_binding_mode(app_state)
    }
}

/// Takes the raw button (`device_id`, `button_id`) as the binding of the
/// direction that rebinding waits for, and moves on to the next direction or,
/// after Left, out of rebinding.
pub fn handle_binding(
    button_id: u32,
    device_id: u32,
    app_state: &mut AppState,
    bindings: &mut ButtonBindings,
) -> (action: Action)
    ensures
        (final(app_state)@, *final(bindings), action) == binding_step(
            old(app_state)@,
            *old(bindings),
            device_id,
            button_id,
        ),
        action == Action::BindingsCompleted <==> old(app_state)@ == (Mode::BindingMode {
            waiting_for: Direction::Left,
        }),
        old(app_state)@.wf() ==> final(app_state)@.wf(),
{
    let waiting_for = match app_state {
        AppState::BindingMode { waiting_for } => *waiting_for,
        _ => {
            return Action::Nothing;
        },
    };
    bindings.set(waiting_for, device_id, button_id);
    match waiting_for {
        Direction::Up => {
            *app_state = AppState::BindingMode { waiting_for: Direction::Right };
            Action::Nothing
        },
        Direction::Right => {
            *app_state = AppState::BindingMode { waiting_for: Direction::Down };
            Action::Nothing
        },
        Direction::Down => {
            *app_state = AppState::BindingMode { waiting_for: Direction::Left };
            Action::Nothing
        },
        Direction::Left => {
            *app_state = AppState::WaitingForSide { mfd: MfdState::LeftMfd };
            Action::BindingsCompleted
        },
    }
}

/// A switch is pressed exactly when the recogniser begins to hold it, and let
/// go exactly when it stops holding it: an event of a button asks to press a
/// switch only where none is held, and to let go only the one that is held.
pub proof fn lemma_input_step_pairs_press_and_release(
    event_type: InputEventType,
    direction: Direction,
    mode: Mode,
    long_press_detected: bool,
    now: u64,
)
    ensures
        ({
            let (next, action) = input_step(event_type, direction, mode, long_press_detected, now);
            &&& action matches Action::SwitchActivated(n) ==> mode.held_switch() is None
                && next.held_switch() == Some(n)
            &&& action matches Action::SwitchReleased(n) ==> mode.held_switch() == Some(n)
                && next.held_switch() is None
            &&& !(action is SwitchActivated) && !(action is SwitchReleased) ==> next.held_switch()
                == mode.held_switch()
        }),
{
}

/// Timeouts and rebinding never press a switch, and let go the held one
/// exactly when they leave the mode that holds it.
pub proof fn lemma_other_steps_pair_press_and_release(
    mode: Mode,
    bindings: ButtonBindings,
    device_id: u32,
    button_id: u32,
    now: u64,
)
    ensures
        timeout_step(mode, now).0.held_switch() == mode.held_switch(),
        !(timeout_step(mode, now).1 is SwitchActivated),
        !(timeout_step(mode, now).1 is SwitchReleased),
        binding_step(mode, bindings, device_id, button_id).0.held_switch() == mode.held_switch(),
        !(binding_step(mode, bindings, device_id, button_id).2 is SwitchActivated),
        !(binding_step(mode, bindings, device_id, button_id).2 is SwitchReleased),
        enter_binding_step(mode).0.held_switch() is None,
        enter_binding_step(mode).1 matches Action::SwitchReleased(n) ==> mode.held_switch()
            == Some(n),
        mode.held_switch() matches Some(n) ==> enter_binding_step(mode).1
            == Action::SwitchReleased(n),
        toggle_binding_step(mode).0.held_switch() is None,
        mode.held_switch() matches Some(n) ==> toggle_binding_step(mode).1
            == Action::SwitchReleased(n),
{
}

/// A long press changes nothing but the selected panel, and that only while
/// the recogniser waits for a side: a started selection, a held switch,
/// dropped taps and rebinding are left alone.
pub proof fn lemma_long_press_only_selects_panel(
    direction: Direction,
    mode: Mode,
    long_press_detected: bool,
    now: u64,
)
    ensures
        ({
            let (next, action) = input_step(
                InputEventType::LongPress,
                direction,
                mode,
                long_press_detected,
                now,
            );
            &&& !(mode is WaitingForSide) ==> next == mode && action == Action::Nothing
            &&& mode is WaitingForSide ==> next is WaitingForSide
            &&& action matches Action::PanelSelected(p) ==> next == (Mode::WaitingForSide { mfd: p })
                && input_step(InputEventType::LongPress, direction, next, long_press_detected, now)
                == (next, action)
            &&& action == Action::Nothing || action is PanelSelected
        }),
{
}

/// After the release that ends a long press, the recogniser still waits for
/// a side: the release does not pick one.
pub proof fn lemma_release_after_long_press_is_suppressed(
    direction: Direction,
    mfd: MfdState,
    now: u64,
)
    ensures
        input_step(
            InputEventType::ButtonUp,
            direction,
            Mode::WaitingForSide { mfd },
            true,
            now,
        ) == (Mode::WaitingForSide { mfd }, Action::Nothing),
{
}

/// Every step keeps the recogniser within the modes it can reach by its own
/// steps.
pub proof fn lemma_steps_preserve_wf(
    event_type: InputEventType,
    direction: Direction,
    mode: Mode,
    long_press_detected: bool,
    bindings: ButtonBindings,
    device_id: u32,
    button_id: u32,
    now: u64,
)
    requires
        mode.wf(),
    ensures
        input_step(event_type, direction, mode, long_press_detected, now).0.wf(),
        timeout_step(mode, now).0.wf(),
        enter_binding_step(mode).0.wf(),
        toggle_binding_step(mode).0.wf(),
        binding_step(mode, bindings, device_id, button_id).0.wf(),
{
}

/// Four captures in a row, begun at Up, bind Up, Right, Down and Left to the
/// four buttons in that order and end rebinding on the left panel; only the
/// fourth asks to store the table.
pub proof fn lemma_four_captures_complete_rebinding(
    bindings: ButtonBindings,
    up: (u32, u32),
    right: (u32, u32),
    down: (u32, u32),
    left: (u32, u32),
)
    ensures
        ({
            let s0 = Mode::BindingMode { waiting_for: Direction::Up };
            let (s1, b1, a1) = binding_step(s0, bindings, up.0, up.1);
            let (s2, b2, a2) = binding_step(s1, b1, right.0, right.1);
            let (s3, b3, a3) = binding_step(s2, b2, down.0, down.1);
            let (s4, b4, a4) = binding_step(s3, b3, left.0, left.1);
            &&& s1 == Mode::BindingMode { waiting_for: Direction::Right }
            &&& s2 == Mode::BindingMode { waiting_for: Direction::Down }
            &&& s3 == Mode::BindingMode { waiting_for: Direction::Left }
            &&& s4 == Mode::WaitingForSide { mfd: MfdState::LeftMfd }
            &&& a1 == Action::Nothing && a2 == Action::Nothing && a3 == Action::Nothing
            &&& a4 == Action::BindingsCompleted
            &&& b4 == ButtonBindings { up, right, down, left }
        }),
{
}

} // verus!
