//! What the screen shows for a mode: the two panels with their twenty
//! buttons each, and where the bind button sits.

use vstd::prelude::*;
use vstd::string::{StrSliceExecFns, StringExecFns};
use crate::direction::{Direction, get_relative_directions, relative_directions};
use crate::mfd::{MfdState, global_number};
use crate::state::{AppState, Mode};

verus! {

/// Width of the console in columns.
pub const CONSOLE_WIDTH: u16 = 96;

/// Height of the console in rows.
pub const CONSOLE_HEIGHT: u16 = 26;

/// Column at which the bind button starts.
pub const BIND_TEXT_X: u16 = CONSOLE_WIDTH - 5;

/// Row of the bind button.
pub const BIND_TEXT_Y: u16 = 1;

/// Width of the bind button in columns.
pub const BIND_TEXT_LEN: u16 = 4;

/// Row of the status line.
pub const STATUS_LINE_Y: u16 = CONSOLE_HEIGHT - 2;

/// Column at which the left panel starts.
pub const LEFT_MFD_X: u16 = 3;

/// Column at which the right panel starts.
pub const RIGHT_MFD_X: u16 = 51;

/// Row at which both panels start.
pub const MFD_Y: u16 = 1;

/// What a key of the keyboard asks for.
#[derive(Debug, Copy, Clone, PartialEq, Eq, Structural)]
pub enum KeyCommand {
    /// Start rebinding.
    Bind,
    /// Leave the program.
    Quit,
    /// Nothing: the key has no meaning.
    Ignore,
}

/// A place on the screen, as column and row.
#[derive(Debug, Copy, Clone, PartialEq, Eq, Structural)]
pub struct ButtonPosition {
    pub x: u16,
    pub y: u16,
}

/// The button of a side that the taps so far point at.
#[derive(Debug, Copy, Clone, PartialEq, Eq, Structural)]
pub struct HighlightedButton {
    pub position: u8,
    pub side: Direction,
}

/// What one panel shows.
#[derive(Debug, Copy, Clone, PartialEq, Eq)]
pub struct MfdDisplay {
    /// The side in use, where this is the panel in use.
    pub active_side: Option<Direction>,
    /// The button that the taps so far point at.
    pub highlighted_button: Option<HighlightedButton>,
    /// The number of the switch that is held down.
    pub pressed_osb: Option<u8>,
}

/// A colour of the terminal.
#[derive(Debug, Copy, Clone, PartialEq, Eq, Structural)]
pub enum Color {
    Red,
    White,
    Black,
    Yellow,
}

/// One button of a panel as it is to be drawn.
#[derive(Debug, Copy, Clone, PartialEq, Eq, Structural)]
pub struct DrawnButton {
    pub number: u8,
    pub pos: ButtonPosition,
    pub highlighted: bool,
    pub active: bool,
    pub pressed: bool,
}

/// A panel that shows nothing.
pub open spec fn blank_display() -> MfdDisplay {
    MfdDisplay { active_side: None, highlighted_button: None, pressed_osb: None }
}

/// The two panels, left and right, with `display` on panel `mfd` and
/// nothing on the other.
pub open spec fn on_panel(mfd: MfdState, display: MfdDisplay) -> (MfdDisplay, MfdDisplay) {
    match mfd {
        MfdState::LeftMfd => (display, blank_display()),
        MfdState::RightMfd => (blank_display(), display),
    }
}

/// The position to highlight on `side` after the taps `inputs`: the middle
/// before any tap, then the button next to the middle on the side of the
/// latest tap, or the middle where that tap is to neither side.
pub open spec fn highlight_position(side: Direction, inputs: Seq<Direction>) -> u8 {
    let (left, right) = relative_directions(side);
    if inputs.len() == 0 {
        2
    } else if inputs.last() == left {
        1
    } else if inputs.last() == right {
        3
    } else {
        2
    }
}

/// What the two panels show in a mode. The panel in use shows its side in
/// use (the top while no side is picked), the highlighted button while a
/// side waits for taps, and the held switch. After dropped taps and during
/// rebinding both panels show nothing.
pub open spec fn displays(mode: Mode) -> (MfdDisplay, MfdDisplay) {
    match mode {
        Mode::WaitingForSide { mfd } => on_panel(
            mfd,
            MfdDisplay {
                active_side: Some(Direction::Up),
                highlighted_button: None,
                pressed_osb: None,
            },
        ),
        Mode::SelectingOSB { mfd, side, inputs, .. } => on_panel(
            mfd,
            MfdDisplay {
                active_side: Some(side),
                highlighted_button: Some(
                    HighlightedButton { position: highlight_position(side, inputs), side },
                ),
                pressed_osb: None,
            },
        ),
        Mode::OSBPressed { mfd, osb_number } => on_panel(
            mfd,
            MfdDisplay {
                active_side: Some(Direction::Up),
                highlighted_button: None,
                pressed_osb: Some(osb_number),
            },
        ),
        _ => (blank_display(), blank_display()),
    }
}

/// Where the twenty buttons of a panel sit, as column and row from the
/// panel's corner: the top row from left to right, the right side from top
/// to bottom, the bottom row from right to left, the left side from bottom
/// to top.
pub open spec fn button_positions() -> Seq<(int, int)> {
    seq![
        (6, 0),
        (12, 0),
        (18, 0),
        (24, 0),
        (30, 0),
        (36, 3),
        (36, 6),
        (36, 9),
        (36, 12),
        (36, 15),
        (30, 18),
        (24, 18),
        (18, 18),
        (12, 18),
        (6, 18),
        (0, 15),
        (0, 12),
        (0, 9),
        (0, 6),
        (0, 3),
    ]
}

/// The side on which the button with the given index, 0 to 19, sits.
pub open spec fn button_side(index: int) -> Direction {
    if index < 5 {
        Direction::Up
    } else if index < 10 {
        Direction::Right
    } else if index < 15 {
        Direction::Down
    } else {
        Direction::Left
    }
}

/// The button with the given index, 0 to 19, of a panel that starts at
/// (`start_x`, `start_y`), as it is to be drawn for `display`.
pub open spec fn drawn_button(
    index: int,
    start_x: u16,
    start_y: u16,
    display: MfdDisplay,
    is_right_mfd: bool,
) -> DrawnButton {
    let number = (index + 1 + if is_right_mfd { 20int } else { 0int }) as u8;
    DrawnButton {
        number,
        pos: ButtonPosition {
            x: (start_x + button_positions()[index].0) as u16,
            y: (start_y + button_positions()[index].1) as u16,
        },
        highlighted: display.highlighted_button matches Some(hb) && hb.side == button_side(index)
            && hb.position == index % 5,
        active: display.active_side is Some,
        pressed: display.pressed_osb == Some(number),
    }
}

/// The colours of a button, foreground and background: a held button is red
/// on white, else a highlighted one black on white, else one of the panel in
/// use yellow, else white; the last two on the terminal's own background.
pub open spec fn button_colors(pressed: bool, highlighted: bool, active: bool) -> (Color, Option<Color>) {
    if pressed {
        (Color::Red, Some(Color::White))
    } else if highlighted {
        (Color::Black, Some(Color::White))
    } else if active {
        (Color::Yellow, None)
    } else {
        (Color::White, None)
    }
}

/// The character for the decimal digit `d`.
pub open spec fn digit_char(d: int) -> char {
    (48 + d) as char
}

/// The character at column `dx`, 0 to 5, and row `dy`, 0 to 2, of the box
/// drawn for the button with the given number: a frame of line characters
/// around the number in two digits.
pub open spec fn button_char(dx: int, dy: int, number: int) -> char {
    if dx == 0 && dy == 0 {
        '\u{250c}'
    } else if dx == 5 && dy == 0 {
        '\u{2510}'
    } else if dx == 0 && dy == 2 {
        '\u{2514}'
    } else if dx == 5 && dy == 2 {
        '\u{2518}'
    } else if dy == 0 || dy == 2 {
        '\u{2500}'
    } else if dx == 0 || dx == 5 {
        '\u{2502}'
    } else if dx == 2 && dy == 1 {
        digit_char(number / 10)
    } else if dx == 3 && dy == 1 {
        digit_char(number % 10)
    } else {
        ' '
    }
}

/// The name of a panel as the status line shows it.
pub open spec fn panel_name(mfd: MfdState) -> Seq<char> {
    match mfd {
        MfdState::LeftMfd => "LEFT"@,
        MfdState::RightMfd => "RIGHT"@,
    }
}

/// The name of a direction.
pub open spec fn direction_name(direction: Direction) -> Seq<char> {
    match direction {
        Direction::Up => "Up"@,
        Direction::Right => "Right"@,
        Direction::Down => "Down"@,
        Direction::Left => "Left"@,
    }
}

/// The name of a direction in capital letters.
pub open spec fn direction_name_upper(direction: Direction) -> Seq<char> {
    match direction {
        Direction::Up => "UP"@,
        Direction::Right => "RIGHT"@,
        Direction::Down => "DOWN"@,
        Direction::Left => "LEFT"@,
    }
}

/// The digits of a number in base ten, without leading zeros.
pub open spec fn decimal(n: nat) -> Seq<char>
    decreases n,
{
    if n < 10 {
        seq![digit_char(n as int)]
    } else {
        decimal(n / 10).push(digit_char((n % 10) as int))
    }
}

/// The text of the status line in a mode.
pub open spec fn status_line(mode: Mode) -> Seq<char> {
    match mode {
        Mode::WaitingForSide { mfd } => panel_name(mfd) + " MFD SELECTED"@,
        Mode::SelectingOSB { mfd, side, .. } => "Selecting OSB on "@ + panel_name(mfd) + " MFD, "@
            + direction_name_upper(side) + " side"@,
        Mode::OSBPressed { mfd, osb_number } => "OSB "@ + decimal(osb_number as nat)
            + " pressed on "@ + panel_name(mfd) + " MFD"@,
        Mode::InvalidSequence { .. } => "Invalid sequence"@,
        Mode::BindingMode { waiting_for } => "Binding mode: Press button for "@ + direction_name(
            waiting_for,
        ),
    }
}

/// Returns what the key with the character `c` asks for: `b` starts
/// rebinding and `q` leaves the program, in either case of the letter; every
/// other key asks for nothing.
pub fn key_command(c: char) -> (command: KeyCommand)
    ensures
        command == KeyCommand::Bind <==> c == 'b' || c == 'B',
        command == KeyCommand::Quit <==> c == 'q' || c == 'Q',
{
    if c == 'b' || c == 'B' {
        KeyCommand::Bind
    } else if c == 'q' || c == 'Q' {
        KeyCommand::Quit
    } else {
        KeyCommand::Ignore
    }
}

/// Returns where the button with the given index sits within its panel.
pub fn button_offset(index: u8) -> (offset: (u16, u16))
    requires
        index < 20,
    ensures
        (offset.0 as int, offset.1 as int) == button_positions()[index as int],
{
    let step: u16 = (index % 5) as u16;
    if index < 5 {
        (6 + 6 * step, 0)
    } else if index < 10 {
        (36, 3 + 3 * step)
    } else if index < 15 {
        (30 - 6 * step, 18)
    } else {
        (0, 15 - 3 * step)
    }
}

/// Returns the foreground and the background colour of a button.
pub fn get_colors(pressed: bool, highlighted: bool, active: bool) -> (colors: (Color, Option<Color>))
    ensures
        colors == button_colors(pressed, highlighted, active),
{
    if pressed {
        (Color::Red, Some(Color::White))
    } else if highlighted {
        (Color::Black, Some(Color::White))
    } else if active {
        (Color::Yellow, None)
    } else {
        (Color::White, None)
    }
}

/// Returns the character at column `dx` and row `dy` of the box drawn for
/// the button with the given number.
pub fn get_char(dx: u16, dy: u16, number: u8) -> (c: char)
    requires
        number < 100,
    ensures
        c == button_char(dx as int, dy as int, number as int),
{
    if dx == 0 && dy == 0 {
        '\u{250c}'
    } else if dx == 5 && dy == 0 {
        '\u{2510}'
    } else if dx == 0 && dy == 2 {
        '\u{2514}'
    } else if dx == 5 && dy == 2 {
        '\u{2518}'
    } else if dy == 0 || dy == 2 {
        '\u{2500}'
    } else if dx == 0 || dx == 5 {
        '\u{2502}'
    } else if dx == 2 && dy == 1 {
        (48u8 + number / 10) as char
    } else if dx == 3 && dy == 1 {
        (48u8 + number % 10) as char
    } else {
        ' '
    }
}

/// Returns the column at which a status text of `len` characters starts so
/// that it stands in the middle of the status line.
pub fn status_column(len: usize) -> (column: u16)
    requires
        len <= CONSOLE_WIDTH,
    ensures
        column == (CONSOLE_WIDTH - len) / 2,
{
    (CONSOLE_WIDTH - len as u16) / 2
}

fn panel_text(mfd: MfdState) -> (name: &'static str)
    ensures
        name@ == panel_name(mfd),
        name@.len() <= 5,
{
    proof {
        reveal_strlit("LEFT");
        reveal_strlit("RIGHT");
    }
    match mfd {
        MfdState::LeftMfd => "LEFT",
        MfdState::RightMfd => "RIGHT",
    }
}

fn direction_text(direction: Direction) -> (name: &'static str)
    ensures
        name@ == direction_name(direction),
        name@.len() <= 5,
{
    proof {
        reveal_strlit("Up");
        reveal_strlit("Right");
        reveal_strlit("Down");
        reveal_strlit("Left");
    }
    match direction {
        Direction::Up => "Up",
        Direction::Right => "Right",
        Direction::Down => "Down",
        Direction::Left => "Left",
    }
}

fn direction_text_upper(direction: Direction) -> (name: &'static str)
    ensures
        name@ == direction_name_upper(direction),
        name@.len() <= 5,
{
    proof {
        reveal_strlit("UP");
        reveal_strlit("RIGHT");
        reveal_strlit("DOWN");
        reveal_strlit("LEFT");
    }
    match direction {
        Direction::Up => "UP",
        Direction::Right => "RIGHT",
        Direction::Down => "DOWN",
        Direction::Left => "LEFT",
    }
}

fn digit_text(d: u8) -> (text: &'static str)
    requires
        d < 10,
    ensures
        text@ == seq![digit_char(d as int)],
{
    proof {
        reveal_strlit("0");
        reveal_strlit("1");
        reveal_strlit("2");
        reveal_strlit("3");
        reveal_strlit("4");
        reveal_strlit("5");
        reveal_strlit("6");
        reveal_strlit("7");
        reveal_strlit("8");
        reveal_strlit("9");
    }
    let text = match d {
        0 => "0",
        1 => "1",
        2 => "2",
        3 => "3",
        4 => "4",
        5 => "5",
        6 => "6",
        7 => "7",
        8 => "8",
        _ => "9",
    };
    assert(text@ =~= seq![digit_char(d as int)]);
    text
}

fn append_decimal(text: &mut String, n: u8)
    ensures
        final(text)@ == old(text)@ + decimal(n as nat),
        decimal(n as nat).len() <= 3,
{
    proof {
        reveal_with_fuel(decimal, 3);
    }
    if n >= 100 {
        text.append(digit_text(n / 100));
    }
    if n >= 10 {
        text.append(digit_text((n / 10) % 10));
    }
    text.append(digit_text(n % 10));
    assert(text@ =~= old(text)@ + decimal(n as nat));
}

/// Returns the text of the status line for the mode `app_state` and the
/// column at which it starts so that it stands in the middle of the line.
pub fn render_status_line(app_state: &AppState) -> (line: (String, u16))
    ensures
        line.0@ == status_line(app_state@),
        line.0@.len() <= CONSOLE_WIDTH,
        line.1 == (CONSOLE_WIDTH - line.0@.len()) / 2,
{
    proof {
        reveal_strlit(" MFD SELECTED");
        reveal_strlit("Selecting OSB on ");
        reveal_strlit(" MFD, ");
        reveal_strlit(" side");
        reveal_strlit("OSB ");
        reveal_strlit(" pressed on ");
        reveal_strlit(" MFD");
        reveal_strlit("Invalid sequence");
        reveal_strlit("Binding mode: Press button for ");
    }
    let text = match app_state {
        AppState::WaitingForSide { mfd } => {
            let mut text = String::from_str(panel_text(*mfd));
            text.append(" MFD SELECTED");
            text
        },
        AppState::SelectingOSB { mfd, side, .. } => {
            let mut text = String::from_str("Selecting OSB on ");
            text.append(panel_text(*mfd));
            text.append(" MFD, ");
            text.append(direction_text_upper(*side));
            text.append(" side");
            text
        },
        AppState::OSBPressed { mfd, osb_number } => {
            let mut text = String::from_str("OSB ");
            append_decimal(&mut text, *osb_number);
            text.append(" pressed on ");
            text.append(panel_text(*mfd));
            text.append(" MFD");
            text
        },
        AppState::InvalidSequence { .. } => String::from_str("Invalid sequence"),
        AppState::BindingMode { waiting_for } => {
            let mut text = String::from_str("Binding mode: Press button for ");
            text.append(direction_text(*waiting_for));
            text
        },
    };
    let len = text.as_str().unicode_len();
    let column = status_column(len);
    (text, column)
}

/// The picture of the two panels that the screen is to show.
#[derive(Debug, Copy, Clone, PartialEq, Eq)]
pub struct Ui {
    pub left_mfd: MfdDisplay,
    pub right_mfd: MfdDisplay,
}

impl Ui {
    /// A picture with nothing on either panel.
    pub fn new() -> (ui: Ui)
        ensures
            ui.left_mfd == blank_display(),
            ui.right_mfd == blank_display(),
    {
        Ui {
            left_mfd: MfdDisplay { active_side: None, highlighted_button: None, pressed_osb: None },
            right_mfd: MfdDisplay { active_side: None, highlighted_button: None, pressed_osb: None },
        }
    }

    /// Wipes both panels.
    pub fn clear(&mut self)
        ensures
            final(self).left_mfd == blank_display(),
            final(self).right_mfd == blank_display(),
    {
        self.left_mfd = MfdDisplay { active_side: None, highlighted_button: None, pressed_osb: None };
        self.right_mfd = MfdDisplay { active_side: None, highlighted_button: None, pressed_osb: None };
    }

    /// Makes the picture show the mode `app_state`.
    pub fn update(&mut self, app_state: &AppState)
        ensures
            (final(self).left_mfd, final(self).right_mfd) == displays(app_state@),
    {
        let blank = MfdDisplay { active_side: None, highlighted_button: None, pressed_osb: None };
        let (mfd, display) = match app_state {
            AppState::WaitingForSide { mfd } => (
                *mfd,
                MfdDisplay {
                    active_side: Some(Direction::Up),
                    highlighted_button: None,
                    pressed_osb: None,
                },
            ),
            AppState::SelectingOSB { mfd, side, inputs, .. } => {
                let (left_dir, right_dir) = get_relative_directions(*side);
                let position: u8 = if inputs.len() == 0 {
                    2
                } else {
                    let last_input = inputs[inputs.len() - 1];
                    if last_input == left_dir {
                        1
                    } else if last_input == right_dir {
                        3
                    } else {
                        2
                    }
                };
                (
                    *mfd,
                    MfdDisplay {
                        active_side: Some(*side),
                        highlighted_button: Some(HighlightedButton { position, side: *side }),
                        pressed_osb: None,
                    },
                )
            },
            AppState::OSBPressed { mfd, osb_number } => (
                *mfd,
                MfdDisplay {
                    active_side: Some(Direction::Up),
                    highlighted_button: None,
                    pressed_osb: Some(*osb_number),
                },
            ),
            _ => {
                self.left_mfd = blank;
                self.right_mfd = blank;
                return ;
            },
        };
        match mfd {
            MfdState::LeftMfd => {
                self.left_mfd = display;
                self.right_mfd = blank;
            },
            MfdState::RightMfd => {
                self.left_mfd = blank;
                self.right_mfd = display;
            },
        }
    }

    /// Returns the twenty buttons of a panel that starts at (`start_x`,
    /// `start_y`), in the order of their numbers, as they are to be drawn
    /// for `display`.
    pub fn render_mfd(start_x: u16, start_y: u16, display: &MfdDisplay, is_right_mfd: bool) -> (buttons:
        Vec<DrawnButton>)
        requires
            start_x + 36 <= u16::MAX,
            start_y + 18 <= u16::MAX,
        ensures
            buttons@.len() == 20,
            forall|i: int|
                0 <= i < 20 ==> #[trigger] buttons@[i] == drawn_button(
                    i,
                    start_x,
                    start_y,
                    *display,
                    is_right_mfd,
                ),
    {
        let base_number: u8 = if is_right_mfd {
            20
        } else {
            0
        };
        let mut buttons: Vec<DrawnButton> = Vec::new();
        let mut i: u8 = 0;
        while i < 20
            invariant
                i <= 20,
                buttons@.len() == i,
                base_number == if is_right_mfd { 20int } else { 0int },
                start_x + 36 <= u16::MAX,
                start_y + 18 <= u16::MAX,
                forall|k: int|
                    0 <= k < i ==> #[trigger] buttons@[k] == drawn_button(
                        k,
                        start_x,
                        start_y,
                        *display,
                        is_right_mfd,
                    ),
            decreases 20 - i,
        {
            let number: u8 = i + 1 + base_number;
            let (rel_x, rel_y) = button_offset(i);
            let side = if i < 5 {
                Direction::Up
            } else if i < 10 {
                Direction::Right
            } else if i < 15 {
                Direction::Down
            } else {
                Direction::Left
            };
            let highlighted = match display.highlighted_button {
                Some(hb) => hb.side == side && hb.position == i % 5,
                None => false,
            };
            let pressed = match display.pressed_osb {
                Some(osb) => osb == number,
                None => false,
            };
            let active = display.active_side.is_some();
            buttons.push(
                DrawnButton {
                    number,
                    pos: ButtonPosition { x: start_x + rel_x, y: start_y + rel_y },
                    highlighted,
                    active,
                    pressed,
                },
            );
            i += 1;
        }
        buttons
    }

    /// Handles a change of the console's size to `width` by `height`: makes
    /// the picture show the mode `app_state` afresh, and says whether the
    /// console has to be set back to its fixed size.
    pub fn handle_resize(&mut self, width: u16, height: u16, app_state: &AppState) -> (restore: bool)
        ensures
            restore == !(width == CONSOLE_WIDTH && height == CONSOLE_HEIGHT),
            (final(self).left_mfd, final(self).right_mfd) == displays(app_state@),
    {
        let restore = !(width == CONSOLE_WIDTH && height == CONSOLE_HEIGHT);
        self.clear();
        self.update(app_state);
        restore
    }

    /// Says whether a click at column `x` and row `y` hits the bind button.
    pub fn is_bind_button_click(&self, x: u16, y: u16) -> (hit: bool)
        ensures
            hit == (BIND_TEXT_X <= x < BIND_TEXT_X + BIND_TEXT_LEN && y == BIND_TEXT_Y),
    {
        x >= BIND_TEXT_X && x < BIND_TEXT_X + BIND_TEXT_LEN && y == BIND_TEXT_Y
    }
}

/// The button with index `index` on a panel is the switch at position
/// `index % 5` of the side it sits on, so the number drawn on it is the
/// number that the taps for that position select.
pub proof fn lemma_drawn_number_matches_location(
    index: int,
    start_x: u16,
    start_y: u16,
    display: MfdDisplay,
    mfd: MfdState,
)
    requires
        0 <= index < 20,
    ensures
        drawn_button(index, start_x, start_y, display, mfd == MfdState::RightMfd).number
            == global_number(mfd, button_side(index), index % 5),
{
}

} // verus!
