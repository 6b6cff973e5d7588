//! The display state machine: owns the accumulated keystroke text, the
//! current line count and computed pixel width, and the window drag/move
//! state; consumes unified events and emits window resize/move directives.

use vstd::prelude::*;

use crate::keys::GlobalKey;
use crate::keys::LocalKey;
use crate::keys::global_label;
use crate::keys::local_label;
use crate::keys::rdev_to_key;
use crate::keys::iced_to_key;

verus! {

/// Height of one displayed text line, in pixels.
pub const LINE_HEIGHT: u32 = 30;

/// A mouse button, as far as the state machine cares: only the right
/// button drives window dragging.
#[derive(Debug, Clone, Copy, PartialEq, Eq, Structural)]
pub enum MouseButton {
    Left,
    Right,
    Middle,
    Other,
}

/// A unified event, merged from the OS-level global key hook and the
/// windowing toolkit's own input stream.
#[derive(Debug, Clone)]
pub enum Message {
    /// The global hook reported that it is installed and listening.
    GlobalReady,
    /// A key press seen by the OS-level global hook.
    GlobalKeyPress(GlobalKey),
    /// Any other event from the global hook (releases, mouse): ignored.
    GlobalOther,
    /// A key press seen by the windowing toolkit while focused.
    LocalKeyPress(LocalKey),
    /// A mouse button was pressed inside the window.
    MouseButtonPressed(MouseButton),
    /// A mouse button was released inside the window.
    MouseButtonReleased(MouseButton),
    /// The cursor moved to this window-local position.
    CursorMoved(i32, i32),
    /// The host reports the window now sits at this absolute position.
    WindowMoved(i32, i32),
    /// The displayed text was replaced wholesale.
    InputChanged(String),
    /// Any other toolkit event: ignored.
    Other,
}

/// A command for the window host.
#[derive(Debug, Clone, Copy, PartialEq, Eq, Structural)]
pub enum Directive {
    /// Resize the window to this size, in pixels.
    Resize { width: u32, height: u32 },
    /// Move the window to this absolute screen position.
    MoveTo { x: i32, y: i32 },
}

/// The mathematical model of the display state.
#[verifier::ext_equal]
pub struct StateModel {
    pub keys: Seq<char>,
    pub max_width: int,
    pub width: int,
    pub line: int,
    pub is_grabbing: bool,
    pub grab_location: (int, int),
    pub window_position: (int, int),
}

/// Well-formedness of the model: the line number stays between 1 and 3,
/// and the configured width cap is positive.
pub open spec fn model_wf(s: StateModel) -> bool {
    &&& 1 <= s.line <= 3
    &&& 1 <= s.max_width
}

/// The coarse width estimate: half the character count times the line
/// height, plus a margin, minus the cap already consumed by earlier lines.
pub open spec fn raw_width(len: int, line: int, max_width: int) -> int {
    len / 2 * (LINE_HEIGHT as int) + 50 - max_width * (line - 1)
}

/// Clamps a mathematical width into the `u32` range.
pub open spec fn clamped_u32(v: int) -> int {
    if v < 0 {
        0
    } else if v > u32::MAX as int {
        u32::MAX as int
    } else {
        v
    }
}

/// Clamps a mathematical coordinate into the `i32` range.
pub open spec fn clamped_i32(v: int) -> int {
    if v < i32::MIN as int {
        i32::MIN as int
    } else if v > i32::MAX as int {
        i32::MAX as int
    } else {
        v
    }
}

/// The width the recompute phase stores, as held in a `u32` field.
pub open spec fn computed_width(s: StateModel) -> int {
    clamped_u32(raw_width(s.keys.len() as int, s.line, s.max_width))
}

/// The line number after the wrap check, before the overflow reset.
pub open spec fn bumped_line(s: StateModel) -> int {
    if computed_width(s) >= s.max_width {
        s.line + 1
    } else {
        s.line
    }
}

/// The recompute phase that precedes every event dispatch: refresh the
/// width estimate, wrap to the next line when the cap is reached, and
/// reset line and text together once the line count would exceed 3.
pub open spec fn recomputed(s: StateModel) -> StateModel {
    if bumped_line(s) > 3 {
        StateModel { keys: Seq::empty(), width: computed_width(s), line: 1, ..s }
    } else {
        StateModel { width: computed_width(s), line: bumped_line(s), ..s }
    }
}

/// The display label an event appends, if it is a key press.
pub open spec fn label_of(m: Message) -> Seq<char> {
    match m {
        Message::GlobalKeyPress(k) => global_label(k),
        Message::LocalKeyPress(k) => local_label(k),
        _ => Seq::empty(),
    }
}

/// The state after one full update cycle: the recompute phase, then the
/// event dispatch.
pub open spec fn stepped(s: StateModel, m: Message) -> StateModel {
    let r = recomputed(s);
    match m {
        Message::GlobalKeyPress(k) => StateModel {
            keys: r.keys + " "@ + global_label(k),
            ..r
        },
        Message::LocalKeyPress(k) => StateModel { keys: r.keys + " "@ + local_label(k), ..r },
        Message::MouseButtonPressed(b) => if b == MouseButton::Right {
            StateModel { is_grabbing: true, grab_location: (0int, 0int), ..r }
        } else {
            r
        },
        Message::MouseButtonReleased(b) => if b == MouseButton::Right {
            StateModel { is_grabbing: false, ..r }
        } else {
            r
        },
        Message::CursorMoved(px, py) => if r.grab_location == (0int, 0int) {
            StateModel { grab_location: (px as int, py as int), ..r }
        } else {
            r
        },
        Message::WindowMoved(x, y) => StateModel { window_position: (x as int, y as int), ..r },
        Message::InputChanged(t) => StateModel { keys: t@, ..r },
        _ => r,
    }
}

/// The directive one full update cycle emits: a resize after a key press,
/// a move while dragging with a captured anchor, nothing otherwise.
pub open spec fn directive_of(s: StateModel, m: Message) -> Option<Directive> {
    let r = recomputed(s);
    match m {
        Message::GlobalKeyPress(_) | Message::LocalKeyPress(_) => Some(
            Directive::Resize {
                width: if r.line > 1 {
                    r.max_width as u32
                } else {
                    r.width as u32
                },
                height: ((LINE_HEIGHT as int) * r.line) as u32,
            },
        ),
        Message::CursorMoved(px, py) => if r.grab_location == (0int, 0int) {
            None
        } else if r.is_grabbing {
            Some(
                Directive::MoveTo {
                    x: clamped_i32(px as int + r.window_position.0 - r.grab_location.0) as i32,
                    y: clamped_i32(py as int + r.window_position.1 - r.grab_location.1) as i32,
                },
            )
        } else {
            None
        },
        _ => None,
    }
}

/// Computes the stored width: the clamped value of the coarse estimate.
fn compute_width(len: usize, line: u32, max_width: u32) -> (w: u32)
    requires
        1 <= line <= 3,
    ensures
        w as int == clamped_u32(raw_width(len as int, line as int, max_width as int)),
{
    let base: u128 = (len as u128) / 2 * (LINE_HEIGHT as u128) + 50;
    let factor: u128 = (line - 1) as u128;
    proof {
        assert((max_width as u128) * factor <= 2 * (u32::MAX as u128)) by (nonlinear_arith)
            requires
                max_width <= u32::MAX,
                factor <= 2,
        ;
    }
    let sub: u128 = (max_width as u128) * factor;
    let diff: u128 = if base >= sub {
        base - sub
    } else {
        0
    };
    if diff > u32::MAX as u128 {
        u32::MAX
    } else {
        diff as u32
    }
}

/// Computes the clamped absolute move target `p + base - anchor`.
fn move_target(p: i32, base: i32, anchor: i32) -> (r: i32)
    ensures
        r as int == clamped_i32(p as int + base as int - anchor as int),
{
    let v: i64 = p as i64 + base as i64 - anchor as i64;
    if v > i32::MAX as i64 {
        i32::MAX
    } else if v < i32::MIN as i64 {
        i32::MIN
    } else {
        v as i32
    }
}

/// The keystroke display state.
pub struct ScreenKey {
    /// Accumulated space-separated key labels; append-only until reset.
    pub keys: String,
    /// Fixed configured pixel cap per line.
    pub max_width: u32,
    /// Pixel width computed from `keys` and `line` on the last update.
    pub width: u32,
    /// Current line number, between 1 and 3.
    pub line: u32,
    /// True while the right mouse button is held down for window-move.
    pub is_grabbing: bool,
    /// Cursor position at drag start; `(0, 0)` means "not yet captured".
    pub grab_location: (i32, i32),
    /// Last known absolute screen position of the window.
    pub window_position: (i32, i32),
}

impl View for ScreenKey {
    type V = StateModel;

    open spec fn view(&self) -> StateModel {
        StateModel {
            keys: self.keys@,
            max_width: self.max_width as int,
            width: self.width as int,
            line: self.line as int,
            is_grabbing: self.is_grabbing,
            grab_location: (self.grab_location.0 as int, self.grab_location.1 as int),
            window_position: (self.window_position.0 as int, self.window_position.1 as int),
        }
    }
}

impl ScreenKey {
    /// Well-formedness of the state.
    pub open spec fn wf(self) -> bool {
        model_wf(self@)
    }

    /// The initial state: empty text, line 1, not dragging, origin window
    /// position, 1050-pixel width cap.
    pub fn new() -> (s: ScreenKey)
        ensures
            s.wf(),
            s@.keys == Seq::<char>::empty(),
            s@.max_width == 1050,
            s@.width == 0,
            s@.line == 1,
            !s@.is_grabbing,
            s@.grab_location == (0int, 0int),
            s@.window_position == (0int, 0int),
    {
        ScreenKey {
            keys: String::new(),
            max_width: 1050,
            width: 0,
            line: 1,
            is_grabbing: false,
            grab_location: (0, 0),
            window_position: (0, 0),
        }
    }

    /// The window title.
    pub fn title(&self) -> (t: String)
        ensures
            t@ == "Zr Alshaha"@,
    {
        String::from_str("Zr Alshaha")
    }

    /// Processes one unified event: recomputes width and line from the
    /// current text, applies the wrap/reset rule, dispatches the event,
    /// and returns the directive the window host should apply, if any.
    pub fn update(&mut self, message: Message) -> (d: Option<Directive>)
        requires
            old(self).wf(),
        ensures
            final(self).wf(),
            1 <= final(self).line <= 3,
            final(self)@ == stepped(old(self)@, message),
            d == directive_of(old(self)@, message),
    {
        let ghost s0 = old(self)@;
        let ghost m = message;
        let len = self.keys.as_str().unicode_len();
        self.width = compute_width(len, self.line, self.max_width);
        if self.width >= self.max_width {
            self.line = self.line + 1;
        }
        if self.line > 3 {
            self.line = 1;
            self.keys = String::new();
        }
        proof {
            assert(self@ =~= recomputed(s0));
        }
        let d = match message {
            Message::GlobalKeyPress(key) => {
                let label = rdev_to_key(&key);
                self.keys.append(" ");
                self.keys.append(label);
                Some(
                    Directive::Resize {
                        width: if self.line > 1 {
                            self.max_width
                        } else {
                            self.width
                        },
                        height: LINE_HEIGHT * self.line,
                    },
                )
            },
            Message::LocalKeyPress(key) => {
                let label = iced_to_key(&key);
                self.keys.append(" ");
                self.keys.append(label);
                Some(
                    Directive::Resize {
                        width: if self.line > 1 {
                            self.max_width
                        } else {
                            self.width
                        },
                        height: LINE_HEIGHT * self.line,
                    },
                )
            },
            Message::MouseButtonPressed(button) => {
                if button == MouseButton::Right {
                    self.is_grabbing = true;
                    self.grab_location = (0, 0);
                }
                None
            },
            Message::MouseButtonReleased(button) => {
                if button == MouseButton::Right {
                    self.is_grabbing = false;
                }
                None
            },
            Message::CursorMoved(px, py) => {
                if self.grab_location.0 == 0 && self.grab_location.1 == 0 {
                    self.grab_location = (px, py);
                    None
                } else if self.is_grabbing {
                    let x = move_target(px, self.window_position.0, self.grab_location.0);
                    let y = move_target(py, self.window_position.1, self.grab_location.1);
                    Some(Directive::MoveTo { x, y })
                } else {
                    None
                }
            },
            Message::WindowMoved(x, y) => {
                self.window_position = (x, y);
                None
            },
            Message::InputChanged(new_value) => {
                self.keys = new_value;
                None
            },
            Message::GlobalReady => None,
            Message::GlobalOther => None,
            Message::Other => None,
        };
        proof {
            assert(self@ =~= stepped(s0, m));
        }
        d
    }
}

} // verus!
