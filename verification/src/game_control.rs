//! What the player can ask for, and the keys and mouse buttons that ask for
//! it.

use vstd::prelude::*;

verus! {

/// A direction in which the player can move.
#[derive(Clone, Copy, Debug, PartialEq, Eq, PartialOrd, Ord, Structural)]
pub enum MovementControl {
    Forward,
    Backward,
    Left,
    Right,
    Up,
    Down,
}

/// Something the player can ask for.
#[derive(Clone, Copy, Debug, PartialEq, Eq, PartialOrd, Ord, Structural)]
pub enum GameControl {
    Movement(MovementControl),
    ClickTarget,
    OpenMenu,
}

/// A key of the keyboard, as far as the game tells keys apart.
#[derive(Clone, Copy, Debug, PartialEq, Eq, Structural)]
pub enum Key {
    W,
    A,
    S,
    D,
    C,
    Up,
    Down,
    Left,
    Right,
    Space,
    Escape,
    Other,
}

/// A button of the mouse, as far as the game tells buttons apart.
#[derive(Clone, Copy, Debug, PartialEq, Eq, Structural)]
pub enum Button {
    Left,
    Other,
}

impl GameControl {
    /// What each key asks for.
    pub open spec fn spec_from_key_code(key_code: Key) -> Option<GameControl> {
        match key_code {
            Key::W | Key::Up => Some(GameControl::Movement(MovementControl::Forward)),
            Key::S | Key::Down => Some(GameControl::Movement(MovementControl::Backward)),
            Key::A | Key::Left => Some(GameControl::Movement(MovementControl::Left)),
            Key::D | Key::Right => Some(GameControl::Movement(MovementControl::Right)),
            Key::Space => Some(GameControl::Movement(MovementControl::Up)),
            Key::C => Some(GameControl::Movement(MovementControl::Down)),
            Key::Escape => Some(GameControl::OpenMenu),
            Key::Other => None,
        }
    }

    /// What a key asks for, if it asks for anything.
    pub fn from_key_code(key_code: Key) -> (control: Option<GameControl>)
        ensures
            control == GameControl::spec_from_key_code(key_code),
    {
        match key_code {
            Key::W | Key::Up => Some(GameControl::Movement(MovementControl::Forward)),
            Key::S | Key::Down => Some(GameControl::Movement(MovementControl::Backward)),
            Key::A | Key::Left => Some(GameControl::Movement(MovementControl::Left)),
            Key::D | Key::Right => Some(GameControl::Movement(MovementControl::Right)),
            Key::Space => Some(GameControl::Movement(MovementControl::Up)),
            Key::C => Some(GameControl::Movement(MovementControl::Down)),
            Key::Escape => Some(GameControl::OpenMenu),
            Key::Other => None,
        }
    }

    /// The direction that a control asks to move in.
    pub open spec fn spec_movement_control(game_control: GameControl) -> Option<MovementControl> {
        match game_control {
            GameControl::Movement(movement_control) => Some(movement_control),
            _ => None,
        }
    }

    /// The direction that a control asks to move in, if it asks to move.
    pub fn movement_control(game_control: GameControl) -> (movement: Option<MovementControl>)
        ensures
            movement == GameControl::spec_movement_control(game_control),
    {
        if let GameControl::Movement(movement_control) = game_control {
            Some(movement_control)
        } else {
            None
        }
    }

    /// What each mouse button asks for.
    pub open spec fn spec_from_mouse_button(mouse_button: Button) -> Option<GameControl> {
        match mouse_button {
            Button::Left => Some(GameControl::ClickTarget),
            Button::Other => None,
        }
    }

    /// What a mouse button asks for, if it asks for anything.
    pub fn from_mouse_button(mouse_button: Button) -> (control: Option<GameControl>)
        ensures
            control == GameControl::spec_from_mouse_button(mouse_button),
    {
        match mouse_button {
            Button::Left => Some(GameControl::ClickTarget),
            Button::Other => None,
        }
    }
}

} // verus!
