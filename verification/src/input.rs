//! The frame's input, as plain values: pointer motion, wheel events and the
//! held buttons and keys the controller reads.

use vstd::prelude::*;

verus! {

/// One pointer-motion event, in millionths of a pixel per axis.
#[derive(Clone, Copy, PartialEq, Eq, Structural, Debug)]
pub struct MouseMotion {
    pub delta_x: i64,
    pub delta_y: i64,
}

/// The unit a scroll-wheel event is measured in.
#[derive(Clone, Copy, PartialEq, Eq, Structural, Debug)]
pub enum MouseScrollUnit {
    Line,
    Pixel,
}

/// One scroll-wheel event. A `Line` amount counts tenths of a line; a
/// `Pixel` amount counts tenths of a pixel. Ten pixels weigh as much as one
/// line.
#[derive(Clone, Copy, PartialEq, Eq, Structural, Debug)]
pub struct MouseWheel {
    pub unit: MouseScrollUnit,
    pub amount: i64,
}

/// The buttons and keys held during the frame.
#[derive(Clone, Copy, PartialEq, Eq, Structural, Debug)]
pub struct InputState {
    pub shift_pressed: bool,
    pub left_pressed: bool,
    pub right_pressed: bool,
    pub up_pressed: bool,
    pub down_pressed: bool,
}

impl InputState {
    /// No button or key held.
    pub fn released() -> (r: InputState)
        ensures
            r == (InputState {
                shift_pressed: false,
                left_pressed: false,
                right_pressed: false,
                up_pressed: false,
                down_pressed: false,
            }),
    {
        InputState {
            shift_pressed: false,
            left_pressed: false,
            right_pressed: false,
            up_pressed: false,
            down_pressed: false,
        }
    }
}

/// `a / 10` rounded toward zero.
pub open spec fn div10_trunc(a: int) -> int {
    if a >= 0 {
        a / 10
    } else {
        -((-a) / 10)
    }
}

/// How many tenths of a line one wheel event is worth: a pixel counts one
/// tenth of a line.
pub open spec fn wheel_decilines(e: MouseWheel) -> int {
    match e.unit {
        MouseScrollUnit::Line => e.amount as int,
        MouseScrollUnit::Pixel => div10_trunc(e.amount as int),
    }
}

/// The frame's whole scroll, in tenths of a line.
pub open spec fn total_decilines(s: Seq<MouseWheel>) -> int
    decreases s.len(),
{
    if s.len() == 0 {
        0
    } else {
        total_decilines(s.drop_last()) + wheel_decilines(s.last())
    }
}

/// The frame's pointer motion along the horizontal axis.
pub open spec fn sum_delta_x(s: Seq<MouseMotion>) -> int
    decreases s.len(),
{
    if s.len() == 0 {
        0
    } else {
        sum_delta_x(s.drop_last()) + s.last().delta_x
    }
}

/// The frame's pointer motion along the vertical axis.
pub open spec fn sum_delta_y(s: Seq<MouseMotion>) -> int
    decreases s.len(),
{
    if s.len() == 0 {
        0
    } else {
        sum_delta_y(s.drop_last()) + s.last().delta_y
    }
}

} // verus!
