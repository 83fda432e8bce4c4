//! Control events and the numeric event codes shared with a foreign caller.
//!
//! The integer-to-variant mapping is centralized here: a host hands the
//! boundary one of nineteen reserved codes, and anything else is a protocol
//! violation the boundary must fail fast on.

use vstd::prelude::*;

verus! {

/// One of the eight keys on the emulated machine's keypad.
#[derive(Clone, Copy, PartialEq, Eq, Structural, Debug)]
pub enum KeypadKey {
    A,
    B,
    Up,
    Down,
    Left,
    Right,
    Select,
    Start,
}

/// A control event carried from a host caller into the scheduler.
#[derive(Clone, Copy, PartialEq, Eq, Structural, Debug)]
pub enum GBEvent {
    KeyUp(KeypadKey),
    KeyDown(KeypadKey),
    SpeedUp,
    SpeedDown,
    Stop,
}

/// Event codes reserved by the boundary contract; they must match the
/// constants compiled into the foreign caller's source.
pub const KEY_A_DOWN: i32 = 1;

pub const KEY_B_DOWN: i32 = 2;

pub const KEY_UP_DOWN: i32 = 3;

pub const KEY_DOWN_DOWN: i32 = 4;

pub const KEY_LEFT_DOWN: i32 = 5;

pub const KEY_RIGHT_DOWN: i32 = 6;

pub const KEY_SELECT_DOWN: i32 = 7;

pub const KEY_START_DOWN: i32 = 8;

pub const KEY_A_UP: i32 = 9;

pub const KEY_B_UP: i32 = 10;

pub const KEY_UP_UP: i32 = 11;

pub const KEY_DOWN_UP: i32 = 12;

pub const KEY_LEFT_UP: i32 = 13;

pub const KEY_RIGHT_UP: i32 = 14;

pub const KEY_SELECT_UP: i32 = 15;

pub const KEY_START_UP: i32 = 16;

pub const STOP: i32 = 101;

pub const SPEED_UP: i32 = 202;

pub const SPEED_DOWN: i32 = 203;

/// The event, if any, that a numeric boundary code stands for.
pub open spec fn spec_event_from_code(code: i32) -> Option<GBEvent> {
    if code == KEY_A_DOWN {
        Some(GBEvent::KeyDown(KeypadKey::A))
    } else if code == KEY_B_DOWN {
        Some(GBEvent::KeyDown(KeypadKey::B))
    } else if code == KEY_UP_DOWN {
        Some(GBEvent::KeyDown(KeypadKey::Up))
    } else if code == KEY_DOWN_DOWN {
        Some(GBEvent::KeyDown(KeypadKey::Down))
    } else if code == KEY_LEFT_DOWN {
        Some(GBEvent::KeyDown(KeypadKey::Left))
    } else if code == KEY_RIGHT_DOWN {
        Some(GBEvent::KeyDown(KeypadKey::Right))
    } else if code == KEY_SELECT_DOWN {
        Some(GBEvent::KeyDown(KeypadKey::Select))
    } else if code == KEY_START_DOWN {
        Some(GBEvent::KeyDown(KeypadKey::Start))
    } else if code == KEY_A_UP {
        Some(GBEvent::KeyUp(KeypadKey::A))
    } else if code == KEY_B_UP {
        Some(GBEvent::KeyUp(KeypadKey::B))
    } else if code == KEY_UP_UP {
        Some(GBEvent::KeyUp(KeypadKey::Up))
    } else if code == KEY_DOWN_UP {
        Some(GBEvent::KeyUp(KeypadKey::Down))
    } else if code == KEY_LEFT_UP {
        Some(GBEvent::KeyUp(KeypadKey::Left))
    } else if code == KEY_RIGHT_UP {
        Some(GBEvent::KeyUp(KeypadKey::Right))
    } else if code == KEY_SELECT_UP {
        Some(GBEvent::KeyUp(KeypadKey::Select))
    } else if code == KEY_START_UP {
        Some(GBEvent::KeyUp(KeypadKey::Start))
    } else if code == STOP {
        Some(GBEvent::Stop)
    } else if code == SPEED_UP {
        Some(GBEvent::SpeedUp)
    } else if code == SPEED_DOWN {
        Some(GBEvent::SpeedDown)
    } else {
        None
    }
}

/// Maps a foreign caller's numeric event code to its control event.
///
/// An unrecognized code yields `None`; per the boundary contract that is a
/// fatal protocol violation, and the unverified boundary layer must abort
/// rather than continue.
pub fn event_from_code(code: i32) -> (r: Option<GBEvent>)
    ensures
        r == spec_event_from_code(code),
{
    if code == KEY_A_DOWN {
        Some(GBEvent::KeyDown(KeypadKey::A))
    } else if code == KEY_B_DOWN {
        Some(GBEvent::KeyDown(KeypadKey::B))
    } else if code == KEY_UP_DOWN {
        Some(GBEvent::KeyDown(KeypadKey::Up))
    } else if code == KEY_DOWN_DOWN {
        Some(GBEvent::KeyDown(KeypadKey::Down))
    } else if code == KEY_LEFT_DOWN {
        Some(GBEvent::KeyDown(KeypadKey::Left))
    } else if code == KEY_RIGHT_DOWN {
        Some(GBEvent::KeyDown(KeypadKey::Right))
    } else if code == KEY_SELECT_DOWN {
        Some(GBEvent::KeyDown(KeypadKey::Select))
    } else if code == KEY_START_DOWN {
        Some(GBEvent::KeyDown(KeypadKey::Start))
    } else if code == KEY_A_UP {
        Some(GBEvent::KeyUp(KeypadKey::A))
    } else if code == KEY_B_UP {
        Some(GBEvent::KeyUp(KeypadKey::B))
    } else if code == KEY_UP_UP {
        Some(GBEvent::KeyUp(KeypadKey::Up))
    } else if code == KEY_DOWN_UP {
        Some(GBEvent::KeyUp(KeypadKey::Down))
    } else if code == KEY_LEFT_UP {
        Some(GBEvent::KeyUp(KeypadKey::Left))
    } else if code == KEY_RIGHT_UP {
        Some(GBEvent::KeyUp(KeypadKey::Right))
    } else if code == KEY_SELECT_UP {
        Some(GBEvent::KeyUp(KeypadKey::Select))
    } else if code == KEY_START_UP {
        Some(GBEvent::KeyUp(KeypadKey::Start))
    } else if code == STOP {
        Some(GBEvent::Stop)
    } else if code == SPEED_UP {
        Some(GBEvent::SpeedUp)
    } else if code == SPEED_DOWN {
        Some(GBEvent::SpeedDown)
    } else {
        None
    }
}

} // verus!
