//! The buttons that are held down, and the telling apart of taps and holds.
//!
//! A button held for `LONGPRESS_MS` fires one long press. From then on no
//! further long press fires, and releases do not count as taps, until every
//! tracked button has been let go.

use vstd::prelude::*;
use crate::config::{ButtonBindings, map_button_to_direction};
use crate::state::{
    Action,
    AppState,
    InputEventType,
    LONGPRESS_MS,
    Mode,
    binding_step,
    handle_binding,
    handle_input_event,
    raw_input_step,
};

verus! {

/// A raw button that is down, with the time, in milliseconds, at which it
/// went down.
#[derive(Debug, Copy, Clone, PartialEq, Eq, Structural)]
pub struct HeldButton {
    pub device_id: u32,
    pub button_id: u32,
    pub press_time: u64,
}

impl HeldButton {
    /// Whether this is the raw button (`device_id`, `button_id`).
    pub open spec fn is_button(self, device_id: u32, button_id: u32) -> bool {
        self.device_id == device_id && self.button_id == button_id
    }

    /// Whether at time `now` this button has been down for the long-press
    /// time and stands for a direction.
    pub open spec fn is_due(self, bindings: ButtonBindings, now: u64) -> bool {
        now - self.press_time >= LONGPRESS_MS && bindings.classify(self.device_id, self.button_id)
            is Some
    }
}

/// The tracked buttons in the order in which they went down, and whether a
/// long press has fired since the last time none was down.
pub ghost struct TrackerView {
    pub held: Seq<HeldButton>,
    pub long_press_detected: bool,
}

/// Whether `i` is the place of the raw button (`device_id`, `button_id`)
/// among `held`.
pub open spec fn holds_at(held: Seq<HeldButton>, device_id: u32, button_id: u32, i: int) -> bool {
    0 <= i < held.len() && held[i].is_button(device_id, button_id)
}

/// The place of a raw button among `held`, if it is there.
pub open spec fn index_of(held: Seq<HeldButton>, device_id: u32, button_id: u32) -> Option<int> {
    if exists|i: int| holds_at(held, device_id, button_id, i) {
        Some(choose|i: int| holds_at(held, device_id, button_id, i))
    } else {
        None
    }
}

/// `held` without the raw button (`device_id`, `button_id`).
pub open spec fn without(held: Seq<HeldButton>, device_id: u32, button_id: u32) -> Seq<HeldButton> {
    match index_of(held, device_id, button_id) {
        Some(i) => held.remove(i),
        None => held,
    }
}

/// Whether `i` is the place of the first button among `held` that is due at
/// time `now`.
pub open spec fn is_first_due(held: Seq<HeldButton>, bindings: ButtonBindings, now: u64, i: int) -> bool {
    &&& 0 <= i < held.len()
    &&& held[i].is_due(bindings, now)
    &&& forall|j: int| 0 <= j < i ==> !(#[trigger] held[j]).is_due(bindings, now)
}

/// The place of the first button among `held` that is due at time `now`, if
/// one is.
pub open spec fn first_due(held: Seq<HeldButton>, bindings: ButtonBindings, now: u64) -> Option<int> {
    if exists|i: int| is_first_due(held, bindings, now, i) {
        Some(choose|i: int| is_first_due(held, bindings, now, i))
    } else {
        None
    }
}

impl TrackerView {
    /// No raw button is tracked twice, and a long press counts as fired only
    /// while a button is tracked.
    pub open spec fn wf(self) -> bool {
        &&& forall|i: int, j: int|
            0 <= i < j < self.held.len() ==> !(#[trigger] self.held[i]).is_button(
                (#[trigger] self.held[j]).device_id,
                self.held[j].button_id,
            )
        &&& self.held.len() == 0 ==> !self.long_press_detected
    }
}

/// A raw button going down at time `now`. During rebinding it is a capture
/// and is not tracked. Otherwise, where it stands for a direction, it is
/// tracked from `now` on and handled as a button going down; where it stands
/// for none, nothing happens.
pub open spec fn press_step(
    tracker: TrackerView,
    mode: Mode,
    bindings: ButtonBindings,
    device_id: u32,
    button_id: u32,
    now: u64,
) -> (TrackerView, Mode, ButtonBindings, Action) {
    if mode is BindingMode {
        let (next, bound, action) = binding_step(mode, bindings, device_id, button_id);
        (tracker, next, bound, action)
    } else if bindings.classify(device_id, button_id) is Some {
        let held = without(tracker.held, device_id, button_id).push(
            HeldButton { device_id, button_id, press_time: now },
        );
        let (next, action) = raw_input_step(
            InputEventType::ButtonDown,
            button_id,
            device_id,
            mode,
            false,
            bindings,
            now,
        );
        (TrackerView { held, long_press_detected: tracker.long_press_detected }, next, bindings, action)
    } else {
        (tracker, mode, bindings, Action::Nothing)
    }
}

/// A raw button coming up at time `now`. It is tracked no longer, and with
/// the last tracked button gone a long press can fire again. Outside
/// rebinding, where the button stands for a direction, the release is handled
/// unless a long press has fired; the release that lets a held switch go is
/// handled even then.
pub open spec fn lift_step(
    tracker: TrackerView,
    mode: Mode,
    bindings: ButtonBindings,
    device_id: u32,
    button_id: u32,
    now: u64,
) -> (TrackerView, Mode, Action) {
    let held = without(tracker.held, device_id, button_id);
    let was_long_press = tracker.long_press_detected;
    let after = TrackerView { held, long_press_detected: was_long_press && held.len() > 0 };
    if !(mode is BindingMode) && (!was_long_press || mode is OSBPressed) {
        let (next, action) = raw_input_step(
            InputEventType::ButtonUp,
            button_id,
            device_id,
            mode,
            was_long_press,
            bindings,
            now,
        );
        (after, next, action)
    } else {
        (after, mode, Action::Nothing)
    }
}

/// A look at the tracked buttons at time `now`. Where no long press has
/// fired yet and a button is due, a long press fires for the first such
/// button; else nothing happens.
pub open spec fn poll_step(tracker: TrackerView, mode: Mode, bindings: ButtonBindings, now: u64) -> (
    TrackerView,
    Mode,
    Action,
) {
    match first_due(tracker.held, bindings, now) {
        Some(i) if !tracker.long_press_detected => {
            let (next, action) = raw_input_step(
                InputEventType::LongPress,
                tracker.held[i].button_id,
                tracker.held[i].device_id,
                mode,
                true,
                bindings,
                now,
            );
            (TrackerView { held: tracker.held, long_press_detected: true }, next, action)
        },
        _ => (tracker, mode, Action::Nothing),
    }
}

/// The buttons that are held down and the long-press flag.
#[derive(Debug)]
pub struct InputTracker {
    held: Vec<HeldButton>,
    long_press_detected: bool,
}

impl View for InputTracker {
    type V = TrackerView;

    closed spec fn view(&self) -> TrackerView {
        TrackerView { held: self.held@, long_press_detected: self.long_press_detected }
    }
}

impl InputTracker {
    /// A tracker with no button down.
    pub fn new() -> (tracker: InputTracker)
        ensures
            tracker@.held.len() == 0,
            !tracker@.long_press_detected,
            tracker@.wf(),
    {
        InputTracker { held: Vec::new(), long_press_detected: false }
    }

    /// Says whether a long press has fired since the last time no button was
    /// down.
    pub fn long_press_detected(&self) -> (fired: bool)
        ensures
            fired == self@.long_press_detected,
    {
        self.long_press_detected
    }

    /// Returns the number of buttons that are tracked as down.
    pub fn held_count(&self) -> (count: usize)
        ensures
            count == self@.held.len(),
    {
        self.held.len()
    }

    /// Says whether the raw button (`device_id`, `button_id`) is tracked as
    /// down.
    pub fn is_held(&self, device_id: u32, button_id: u32) -> (held: bool)
        requires
            self@.wf(),
        ensures
            held == index_of(self@.held, device_id, button_id) is Some,
    {
        self.find(device_id, button_id).is_some()
    }

    fn find(&self, device_id: u32, button_id: u32) -> (found: Option<usize>)
        requires
            self@.wf(),
        ensures
            match found {
                Some(i) => index_of(self@.held, device_id, button_id) == Some(i as int),
                None => index_of(self@.held, device_id, button_id) is None,
            },
    {
        let mut i: usize = 0;
        while i < self.held.len()
            invariant
                i <= self.held.len(),
                self@.wf(),
                forall|j: int| 0 <= j < i ==> !(#[trigger] self.held@[j]).is_button(device_id, button_id),
            decreases self.held.len() - i,
        {
            if self.held[i].device_id == device_id && self.held[i].button_id == button_id {
                proof {
                    assert(holds_at(self@.held, device_id, button_id, i as int));
                    let k = choose|k: int| holds_at(self@.held, device_id, button_id, k);
                    assert(holds_at(self@.held, device_id, button_id, k));
                    assert(k == i);
                }
                return Some(i);
            }
            i += 1;
        }
        None
    }

    fn forget(&mut self, device_id: u32, button_id: u32)
        requires
            old(self)@.wf(),
        ensures
            final(self)@.held == without(old(self)@.held, device_id, button_id),
            final(self)@.long_press_detected == old(self)@.long_press_detected,
            forall|i: int|
                0 <= i < final(self)@.held.len() ==> !(#[trigger] final(self)@.held[i]).is_button(
                    device_id,
                    button_id,
                ),
            forall|i: int, j: int|
                0 <= i < j < final(self)@.held.len() ==> !(#[trigger] final(self)@.held[i]).is_button(
                    (#[trigger] final(self)@.held[j]).device_id,
                    final(self)@.held[j].button_id,
                ),
    {
        proof {
            lemma_without_keeps_distinct(self@.held, device_id, button_id);
        }
        match self.find(device_id, button_id) {
            Some(i) => {
                self.held.remove(i);
            },
            None => {},
        }
    }

    /// Handles the raw button (`device_id`, `button_id`) going down at time
    /// `now`.
    pub fn button_pressed(
        &mut self,
        app_state: &mut AppState,
        bindings: &mut ButtonBindings,
        device_id: u32,
        button_id: u32,
        now: u64,
    ) -> (action: Action)
        requires
            old(self)@.wf(),
        ensures
            (final(self)@, final(app_state)@, *final(bindings), action) == press_step(
                old(self)@,
                old(app_state)@,
                *old(bindings),
                device_id,
                button_id,
                now,
            ),
            final(self)@.wf(),
            old(app_state)@.wf() ==> final(app_state)@.wf(),
    {
        let rebinding = match app_state {
            AppState::BindingMode { .. } => true,
            _ => false,
        };
        if rebinding {
            return handle_binding(button_id, device_id, app_state, bindings);
        }
        if map_button_to_direction(bindings, device_id, button_id).is_some() {
            self.forget(device_id, button_id);
            let ghost rest = self@.held;
            self.held.push(HeldButton { device_id, button_id, press_time: now });
            proof {
                let held = self@.held;
                assert forall|i: int, j: int| 0 <= i < j < held.len() implies !(#[trigger] held[i]).is_button(
                    (#[trigger] held[j]).device_id,
                    held[j].button_id,
                ) by {
                    assert(held[i] == rest[i]);
                    if j < rest.len() {
                        assert(held[j] == rest[j]);
                    }
                }
            }
            handle_input_event(
                InputEventType::ButtonDown,
                button_id,
                device_id,
                app_state,
                false,
                bindings,
                now,
            )
        } else {
            Action::Nothing
        }
    }

    /// Handles the raw button (`device_id`, `button_id`) coming up at time
    /// `now`.
    pub fn button_released(
        &mut self,
        app_state: &mut AppState,
        bindings: &ButtonBindings,
        device_id: u32,
        button_id: u32,
        now: u64,
    ) -> (action: Action)
        requires
            old(self)@.wf(),
        ensures
            (final(self)@, final(app_state)@, action) == lift_step(
                old(self)@,
                old(app_state)@,
                *bindings,
                device_id,
                button_id,
                now,
            ),
            final(self)@.wf(),
            old(app_state)@.wf() ==> final(app_state)@.wf(),
    {
        let was_long_press = self.long_press_detected;
        self.forget(device_id, button_id);
        if self.held.len() == 0 {
            self.long_press_detected = false;
        }
        let (rebinding, pressed) = match app_state {
            AppState::BindingMode { .. } => (true, false),
            AppState::OSBPressed { .. } => (false, true),
            _ => (false, false),
        };
        if !rebinding && (!was_long_press || pressed) {
            handle_input_event(
                InputEventType::ButtonUp,
                button_id,
                device_id,
                app_state,
                was_long_press,
                bindings,
                now,
            )
        } else {
            Action::Nothing
        }
    }

    /// Looks at the tracked buttons at time `now` and fires a long press
    /// where one is due.
    pub fn poll_long_press(&mut self, app_state: &mut AppState, bindings: &ButtonBindings, now: u64) -> (action:
        Action)
        requires
            old(self)@.wf(),
        ensures
            (final(self)@, final(app_state)@, action) == poll_step(
                old(self)@,
                old(app_state)@,
                *bindings,
                now,
            ),
            final(self)@.wf(),
            old(app_state)@.wf() ==> final(app_state)@.wf(),
    {
        if self.long_press_detected {
            return Action::Nothing;
        }
        let mut i: usize = 0;
        while i < self.held.len()
            invariant
                i <= self.held.len(),
                self@ == old(self)@,
                self@.wf(),
                !self.long_press_detected,
                *app_state == *old(app_state),
                forall|j: int| 0 <= j < i ==> !(#[trigger] self.held@[j]).is_due(*bindings, now),
            decreases self.held.len() - i,
        {
            let button = self.held[i];
            if now >= button.press_time && now - button.press_time >= LONGPRESS_MS {
                if map_button_to_direction(bindings, button.device_id, button.button_id).is_some() {
                    proof {
                        assert(is_first_due(self@.held, *bindings, now, i as int));
                        let k = choose|k: int| is_first_due(self@.held, *bindings, now, k);
                        assert(is_first_due(self@.held, *bindings, now, k));
                        assert(k == i);
                    }
                    self.long_press_detected = true;
                    return handle_input_event(
                        InputEventType::LongPress,
                        button.button_id,
                        button.device_id,
                        app_state,
                        true,
                        bindings,
                        now,
                    );
                }
            }
            i += 1;
        }
        proof {
            assert forall|k: int| !is_first_due(self@.held, *bindings, now, k) by {}
        }
        Action::Nothing
    }
}

/// Taking one raw button out of buttons that are tracked once each leaves
/// buttons that are tracked once each, and that button not among them.
pub proof fn lemma_without_keeps_distinct(held: Seq<HeldButton>, device_id: u32, button_id: u32)
    requires
        forall|i: int, j: int|
            0 <= i < j < held.len() ==> !(#[trigger] held[i]).is_button(
                (#[trigger] held[j]).device_id,
                held[j].button_id,
            ),
    ensures
        ({
            let rest = without(held, device_id, button_id);
            &&& forall|i: int, j: int|
                0 <= i < j < rest.len() ==> !(#[trigger] rest[i]).is_button(
                    (#[trigger] rest[j]).device_id,
                    rest[j].button_id,
                )
            &&& forall|i: int| 0 <= i < rest.len() ==> !(#[trigger] rest[i]).is_button(device_id, button_id)
            &&& index_of(rest, device_id, button_id) is None
        }),
{
    let rest = without(held, device_id, button_id);
    match index_of(held, device_id, button_id) {
        Some(k) => {
            assert(holds_at(held, device_id, button_id, k));
            assert forall|i: int| 0 <= i < rest.len() implies !(#[trigger] rest[i]).is_button(
                device_id,
                button_id,
            ) by {
                if i < k {
                    assert(rest[i] == held[i]);
                } else {
                    assert(rest[i] == held[i + 1]);
                }
            }
            assert forall|i: int, j: int| 0 <= i < j < rest.len() implies !(#[trigger] rest[i]).is_button(
                (#[trigger] rest[j]).device_id,
                rest[j].button_id,
            ) by {
                let a = if i < k { i } else { i + 1 };
                let b = if j < k { j } else { j + 1 };
                assert(rest[i] == held[a]);
                assert(rest[j] == held[b]);
            }
        },
        None => {
            assert forall|i: int| 0 <= i < rest.len() implies !(#[trigger] rest[i]).is_button(
                device_id,
                button_id,
            ) by {
                assert(!holds_at(held, device_id, button_id, i));
            }
        },
    }
    assert forall|i: int| !holds_at(rest, device_id, button_id, i) by {}
}

/// Once a long press has fired, looking again fires nothing and changes
/// nothing, however often and at whatever times: a button that stays down
/// selects a panel at most once.
pub proof fn lemma_long_press_fires_once(
    tracker: TrackerView,
    mode: Mode,
    bindings: ButtonBindings,
    first: u64,
    second: u64,
)
    ensures
        ({
            let (t1, m1, a1) = poll_step(tracker, mode, bindings, first);
            let (t2, m2, a2) = poll_step(t1, m1, bindings, second);
            &&& a1 != Action::Nothing ==> t1.long_press_detected
            &&& t1.long_press_detected ==> t2 == t1 && m2 == m1 && a2 == Action::Nothing
            &&& !(a1 is PanelSelected && a2 is PanelSelected)
            &&& tracker.long_press_detected ==> t1 == tracker && m1 == mode && a1 == Action::Nothing
        }),
{
}

/// A long press that has fired stays fired while a tracked button is down:
/// a further button going down keeps it, and so does a button coming up
/// unless it was the last one.
pub proof fn lemma_long_press_flag_lasts(
    tracker: TrackerView,
    mode: Mode,
    bindings: ButtonBindings,
    device_id: u32,
    button_id: u32,
    now: u64,
)
    requires
        tracker.long_press_detected,
    ensures
        press_step(tracker, mode, bindings, device_id, button_id, now).0.long_press_detected,
        ({
            let after = lift_step(tracker, mode, bindings, device_id, button_id, now).0;
            after.long_press_detected <==> after.held.len() > 0
        }),
{
}

/// The release that ends a long press picks no side: while the recogniser
/// waits for a side and a long press has fired, a button coming up leaves
/// the mode as it is.
pub proof fn lemma_release_after_long_press_keeps_mode(
    tracker: TrackerView,
    mode: Mode,
    bindings: ButtonBindings,
    device_id: u32,
    button_id: u32,
    now: u64,
)
    requires
        tracker.long_press_detected,
        mode is WaitingForSide,
    ensures
        lift_step(tracker, mode, bindings, device_id, button_id, now).1 == mode,
        lift_step(tracker, mode, bindings, device_id, button_id, now).2 == Action::Nothing,
{
}

} // verus!
