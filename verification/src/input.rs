//! What the input devices report for one frame, as plain values.

use vstd::prelude::*;

verus! {

/// One pixel of pointer travel, in the units of [`MouseMotion`].
pub const PIXEL: i32 = 1000;

/// One line of wheel travel, in the units of a line-unit [`MouseWheel`].
pub const LINE: i32 = 1000;

/// A key of the keyboard, by its position. The keys that the sandbox binds by
/// default have a name; any other key is known by a number.
#[derive(Clone, Copy, Debug, PartialEq, Eq, Hash, Structural)]
pub enum KeyCode {
    KeyW,
    KeyS,
    KeyA,
    KeyD,
    KeyB,
    KeyN,
    Space,
    ControlLeft,
    Escape,
    F1,
    F3,
    Other(u32),
}

/// A button of the pointer.
#[derive(Clone, Copy, Debug, PartialEq, Eq, Hash, Structural)]
pub enum MouseButton {
    Left,
    Right,
    Middle,
    Back,
    Forward,
    Other(u16),
}

/// The keys that are down in this frame, and those that went down in it.
#[derive(Clone, Debug)]
pub struct KeyboardInput {
    pub pressed: Vec<KeyCode>,
    pub just_pressed: Vec<KeyCode>,
}

impl KeyboardInput {
    /// Whether `key` is held down.
    pub open spec fn is_pressed(&self, key: KeyCode) -> bool {
        self.pressed@.contains(key)
    }

    /// Whether `key` went down in this frame.
    pub open spec fn is_just_pressed(&self, key: KeyCode) -> bool {
        self.just_pressed@.contains(key)
    }

    /// No key down.
    pub fn new() -> (keys: Self)
        ensures
            keys.pressed@.len() == 0,
            keys.just_pressed@.len() == 0,
    {
        KeyboardInput { pressed: Vec::new(), just_pressed: Vec::new() }
    }

    /// Whether `key` is held down.
    #[verifier::when_used_as_spec(is_pressed)]
    pub fn pressed(&self, key: KeyCode) -> (held: bool)
        ensures
            held == self.is_pressed(key),
    {
        holds_key(&self.pressed, key)
    }

    /// Whether `key` went down in this frame.
    #[verifier::when_used_as_spec(is_just_pressed)]
    pub fn just_pressed(&self, key: KeyCode) -> (went_down: bool)
        ensures
            went_down == self.is_just_pressed(key),
    {
        holds_key(&self.just_pressed, key)
    }

    /// The first of the keys that are held down, if any is.
    pub fn first_pressed(&self) -> (key: Option<KeyCode>)
        ensures
            key == if self.pressed@.len() == 0 {
                None::<KeyCode>
            } else {
                Some(self.pressed@[0])
            },
    {
        if self.pressed.len() == 0 {
            None
        } else {
            Some(self.pressed[0])
        }
    }
}

fn holds_key(keys: &Vec<KeyCode>, key: KeyCode) -> (found: bool)
    ensures
        found == keys@.contains(key),
{
    let mut index: usize = 0;
    while index < keys.len()
        invariant
            index <= keys.len(),
            forall|earlier: int| 0 <= earlier < index ==> keys@[earlier] != key,
        decreases keys.len() - index,
    {
        if keys[index] == key {
            return true;
        }
        index += 1;
    }
    false
}

/// The pointer buttons that are down in this frame, and those that went down
/// in it.
#[derive(Clone, Debug)]
pub struct MouseButtonInput {
    pub pressed: Vec<MouseButton>,
    pub just_pressed: Vec<MouseButton>,
}

impl MouseButtonInput {
    /// Whether `button` is held down.
    pub open spec fn is_pressed(&self, button: MouseButton) -> bool {
        self.pressed@.contains(button)
    }

    /// Whether `button` went down in this frame.
    pub open spec fn is_just_pressed(&self, button: MouseButton) -> bool {
        self.just_pressed@.contains(button)
    }

    /// No button down.
    pub fn new() -> (buttons: Self)
        ensures
            buttons.pressed@.len() == 0,
            buttons.just_pressed@.len() == 0,
    {
        MouseButtonInput { pressed: Vec::new(), just_pressed: Vec::new() }
    }

    /// Whether `button` is held down.
    #[verifier::when_used_as_spec(is_pressed)]
    pub fn pressed(&self, button: MouseButton) -> (held: bool)
        ensures
            held == self.is_pressed(button),
    {
        holds_button(&self.pressed, button)
    }

    /// Whether `button` went down in this frame.
    #[verifier::when_used_as_spec(is_just_pressed)]
    pub fn just_pressed(&self, button: MouseButton) -> (went_down: bool)
        ensures
            went_down == self.is_just_pressed(button),
    {
        holds_button(&self.just_pressed, button)
    }
}

fn holds_button(buttons: &Vec<MouseButton>, button: MouseButton) -> (found: bool)
    ensures
        found == buttons@.contains(button),
{
    let mut index: usize = 0;
    while index < buttons.len()
        invariant
            index <= buttons.len(),
            forall|earlier: int| 0 <= earlier < index ==> buttons@[earlier] != button,
        decreases buttons.len() - index,
    {
        if buttons[index] == button {
            return true;
        }
        index += 1;
    }
    false
}

/// How far the pointer moved, in thousandths of a pixel.
#[derive(Clone, Copy, Debug, PartialEq, Eq, Structural)]
pub struct MouseMotion {
    pub delta_x: i32,
    pub delta_y: i32,
}

/// The unit in which a wheel event counts.
#[derive(Clone, Copy, Debug, PartialEq, Eq, Structural)]
pub enum MouseScrollUnit {
    /// Discrete lines, in thousandths of a line.
    Line,
    /// Pixels, in thousandths of a pixel.
    Pixel,
}

/// How far the wheel turned.
#[derive(Clone, Copy, Debug, PartialEq, Eq, Structural)]
pub struct MouseWheel {
    pub unit: MouseScrollUnit,
    pub x: i32,
    pub y: i32,
}

/// The time that the last frame took.
#[derive(Clone, Copy, Debug, PartialEq, Eq, Structural)]
pub struct Time {
    pub delta_micros: u32,
}

/// The pointer travel of all `events` together, along x.
pub open spec fn total_delta_x(events: Seq<MouseMotion>) -> int
    decreases events.len(),
{
    if events.len() == 0 {
        0
    } else {
        total_delta_x(events.drop_last()) + events.last().delta_x
    }
}

/// The pointer travel of all `events` together, along y.
pub open spec fn total_delta_y(events: Seq<MouseMotion>) -> int
    decreases events.len(),
{
    if events.len() == 0 {
        0
    } else {
        total_delta_y(events.drop_last()) + events.last().delta_y
    }
}

/// Adds up the pointer travel of one frame.
pub fn accumulate_motion(events: &Vec<MouseMotion>) -> (total: (i128, i128))
    ensures
        total.0 == total_delta_x(events@),
        total.1 == total_delta_y(events@),
        -0x8000_0000 * usize::MAX <= total.0 <= 0x8000_0000 * usize::MAX,
        -0x8000_0000 * usize::MAX <= total.1 <= 0x8000_0000 * usize::MAX,
{
    let mut total_x: i128 = 0;
    let mut total_y: i128 = 0;
    let mut index: usize = 0;
    while index < events.len()
        invariant
            index <= events.len(),
            total_x == total_delta_x(events@.take(index as int)),
            total_y == total_delta_y(events@.take(index as int)),
            -0x8000_0000 * index <= total_x <= 0x8000_0000 * index,
            -0x8000_0000 * index <= total_y <= 0x8000_0000 * index,
        decreases events.len() - index,
    {
        proof {
            assert(events@.take(index as int + 1).drop_last() == events@.take(index as int));
        }
        total_x = total_x + events[index].delta_x as i128;
        total_y = total_y + events[index].delta_y as i128;
        index += 1;
    }
    proof {
        assert(events@.take(index as int) == events@);
    }
    (total_x, total_y)
}

/// The wheel travel of the line-unit events among `events`, along y. An
/// event that counts in pixels adds nothing.
pub open spec fn line_scroll(events: Seq<MouseWheel>) -> int
    decreases events.len(),
{
    if events.len() == 0 {
        0
    } else {
        line_scroll(events.drop_last()) + match events.last().unit {
            MouseScrollUnit::Line => events.last().y as int,
            MouseScrollUnit::Pixel => 0,
        }
    }
}

/// Adds up the line-unit wheel travel of one frame.
pub fn accumulate_line_scroll(events: &Vec<MouseWheel>) -> (total: i128)
    ensures
        total == line_scroll(events@),
        -0x8000_0000 * usize::MAX <= total <= 0x8000_0000 * usize::MAX,
{
    let mut total: i128 = 0;
    let mut index: usize = 0;
    while index < events.len()
        invariant
            index <= events.len(),
            total == line_scroll(events@.take(index as int)),
            -0x8000_0000 * index <= total <= 0x8000_0000 * index,
        decreases events.len() - index,
    {
        proof {
            assert(events@.take(index as int + 1).drop_last() == events@.take(index as int));
        }
        match events[index].unit {
            MouseScrollUnit::Line => {
                total = total + events[index].y as i128;
            },
            MouseScrollUnit::Pixel => {},
        }
        index += 1;
    }
    proof {
        assert(events@.take(index as int) == events@);
    }
    total
}

/// The line-unit travel of two runs of events, one after the other, is the
/// sum of their travels.
pub proof fn lemma_line_scroll_concat(first: Seq<MouseWheel>, second: Seq<MouseWheel>)
    ensures
        line_scroll(first + second) == line_scroll(first) + line_scroll(second),
    decreases second.len(),
{
    if second.len() == 0 {
        assert(first + second == first);
    } else {
        lemma_line_scroll_concat(first, second.drop_last());
        assert((first + second).drop_last() == first + second.drop_last());
        assert((first + second).last() == second.last());
    }
}

/// Events that count in pixels leave the line-unit travel as it was, wherever
/// they stand among the others.
pub proof fn lemma_pixel_scroll_counts_nothing(events: Seq<MouseWheel>)
    requires
        forall|index: int|
            0 <= index < events.len() ==> (#[trigger] events[index]).unit
                == MouseScrollUnit::Pixel,
    ensures
        line_scroll(events) == 0,
    decreases events.len(),
{
    if events.len() > 0 {
        lemma_pixel_scroll_counts_nothing(events.drop_last());
    }
}

} // verus!
