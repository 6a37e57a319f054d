//! Keyboard events as plain values.
//!
//! The terminal layer translates its own event type into [`Key`] before
//! handing control to the screen state machines, so every input handler in
//! this crate is a total function over this enum.

use vstd::prelude::*;

verus! {

/// One keyboard event, as seen by the screen and wizard state machines.
#[derive(Clone, Copy, PartialEq, Eq, Structural, Debug)]
pub enum Key {
    /// A printable character (letters, digits, punctuation).
    Char(char),
    Enter,
    Esc,
    Backspace,
    Tab,
    /// Shift+Tab.
    BackTab,
    Up,
    Down,
    Left,
    Right,
    /// Any key the state machines ignore.
    Other,
}

/// The digit value of an ASCII digit character, if it is one.
pub open spec fn spec_digit_of(c: char) -> Option<u32> {
    match c {
        '0' => Some(0u32),
        '1' => Some(1u32),
        '2' => Some(2u32),
        '3' => Some(3u32),
        '4' => Some(4u32),
        '5' => Some(5u32),
        '6' => Some(6u32),
        '7' => Some(7u32),
        '8' => Some(8u32),
        '9' => Some(9u32),
        _ => None,
    }
}

/// Whether `c` is an ASCII digit.
pub open spec fn spec_is_digit(c: char) -> bool {
    spec_digit_of(c) is Some
}

/// Executable twin of [`spec_digit_of`].
pub fn digit_of(c: char) -> (r: Option<u32>)
    ensures
        r == spec_digit_of(c),
{
    match c {
        '0' => Some(0u32),
        '1' => Some(1u32),
        '2' => Some(2u32),
        '3' => Some(3u32),
        '4' => Some(4u32),
        '5' => Some(5u32),
        '6' => Some(6u32),
        '7' => Some(7u32),
        '8' => Some(8u32),
        '9' => Some(9u32),
        _ => None,
    }
}

/// The ASCII digit character for a value below ten.
pub open spec fn spec_char_of_digit(d: u32) -> char {
    match d {
        0u32 => '0',
        1u32 => '1',
        2u32 => '2',
        3u32 => '3',
        4u32 => '4',
        5u32 => '5',
        6u32 => '6',
        7u32 => '7',
        8u32 => '8',
        _ => '9',
    }
}

/// Executable twin of [`spec_char_of_digit`].
pub fn char_of_digit(d: u32) -> (c: char)
    requires
        d < 10,
    ensures
        c == spec_char_of_digit(d),
        spec_digit_of(c) == Some(d),
{
    match d {
        0u32 => '0',
        1u32 => '1',
        2u32 => '2',
        3u32 => '3',
        4u32 => '4',
        5u32 => '5',
        6u32 => '6',
        7u32 => '7',
        8u32 => '8',
        _ => '9',
    }
}

} // verus!
