//! Controls that are read straight off the keyboard and the mouse.

use vstd::prelude::*;
use crate::game_control::{Button, Key};

verus! {

/// A control that is on while one of its keys or buttons is held down.
#[derive(Clone, Copy, Debug, PartialEq, Eq, Structural)]
pub enum GameControl {
    Up,
    Down,
    Left,
    Right,
    Space,
    C,
    ClickTarget,
    OpenMenu,
}

/// Whether a key is among those held down.
pub fn key_pressed(keyboard_input: &Vec<Key>, key: Key) -> (held: bool)
    ensures
        held == keyboard_input@.contains(key),
{
    let mut i: usize = 0;
    while i < keyboard_input.len()
        invariant
            i <= keyboard_input@.len(),
            forall|j: int| 0 <= j < i ==> keyboard_input@[j] != key,
        decreases keyboard_input@.len() - i,
    {
        if keyboard_input[i] == key {
            return true;
        }
        i += 1;
    }
    false
}

/// Whether a mouse button is among those held down.
pub fn button_pressed(mouse_input: &Vec<Button>, button: Button) -> (held: bool)
    ensures
        held == mouse_input@.contains(button),
{
    let mut i: usize = 0;
    while i < mouse_input.len()
        invariant
            i <= mouse_input@.len(),
            forall|j: int| 0 <= j < i ==> mouse_input@[j] != button,
        decreases mouse_input@.len() - i,
    {
        if mouse_input[i] == button {
            return true;
        }
        i += 1;
    }
    false
}

impl GameControl {
    /// Whether the control is on, given the keys and buttons held down.
    pub open spec fn spec_pressed(self, keyboard_input: Seq<Key>, mouse_input: Seq<Button>) -> bool {
        match self {
            GameControl::Up => keyboard_input.contains(Key::W) || keyboard_input.contains(Key::Up),
            GameControl::Down => keyboard_input.contains(Key::S) || keyboard_input.contains(
                Key::Down,
            ),
            GameControl::Left => keyboard_input.contains(Key::A) || keyboard_input.contains(
                Key::Left,
            ),
            GameControl::Right => keyboard_input.contains(Key::D) || keyboard_input.contains(
                Key::Right,
            ),
            GameControl::Space => keyboard_input.contains(Key::Space),
            GameControl::C => keyboard_input.contains(Key::C),
            GameControl::ClickTarget => mouse_input.contains(Button::Left),
            GameControl::OpenMenu => keyboard_input.contains(Key::Escape),
        }
    }

    /// Whether the control is on, given the keys and buttons held down.
    pub fn pressed(&self, keyboard_input: &Vec<Key>, mouse_input: &Vec<Button>) -> (on: bool)
        ensures
            on == self.spec_pressed(keyboard_input@, mouse_input@),
    {
        match self {
            GameControl::Up => key_pressed(keyboard_input, Key::W) || key_pressed(
                keyboard_input,
                Key::Up,
            ),
            GameControl::Down => key_pressed(keyboard_input, Key::S) || key_pressed(
                keyboard_input,
                Key::Down,
            ),
            GameControl::Left => key_pressed(keyboard_input, Key::A) || key_pressed(
                keyboard_input,
                Key::Left,
            ),
            GameControl::Right => key_pressed(keyboard_input, Key::D) || key_pressed(
                keyboard_input,
                Key::Right,
            ),
            GameControl::Space => key_pressed(keyboard_input, Key::Space),
            GameControl::C => key_pressed(keyboard_input, Key::C),
            GameControl::ClickTarget => button_pressed(mouse_input, Button::Left),
            GameControl::OpenMenu => key_pressed(keyboard_input, Key::Escape),
        }
    }
}

/// How far a control is pushed: one where it is on, zero where it is off.
pub fn get_movement(control: GameControl, key_input: &Vec<Key>, mouse_input: &Vec<Button>) -> (amount:
    u8)
    ensures
        amount == if control.spec_pressed(key_input@, mouse_input@) {
            1u8
        } else {
            0u8
        },
{
    if control.pressed(key_input, mouse_input) {
        1
    } else {
        0
    }
}

} // verus!
