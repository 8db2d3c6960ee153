//! What the player asks for in one frame, worked out from the keys and mouse
//! buttons held down.

use vstd::prelude::*;
use crate::game_control::{Button, GameControl, Key, MovementControl};

pub mod game_control;

verus! {

/// What the player asks for in one frame.
#[derive(Clone, Debug, Default)]
pub struct Actions {
    pub player_movement: Vec<MovementControl>,
    pub left_click_crosshair: bool,
    pub open_menu: bool,
}

/// The direction that a key asks to move in.
pub open spec fn spec_key_movement(key: Key) -> Option<MovementControl> {
    match GameControl::spec_from_key_code(key) {
        Some(control) => GameControl::spec_movement_control(control),
        None => None,
    }
}

/// The directions that the keys held down ask to move in, one for each such
/// key, in the order of the keys.
pub open spec fn spec_player_movement(keys: Seq<Key>) -> Seq<MovementControl> {
    keys.filter_map(|key: Key| spec_key_movement(key))
}

/// Whether one of the mouse buttons held down asks to click the target.
pub open spec fn spec_left_click(buttons: Seq<Button>) -> bool {
    exists|i: int|
        0 <= i < buttons.len() && GameControl::spec_from_mouse_button(#[trigger] buttons[i])
            == Some(GameControl::ClickTarget)
}

/// Whether one of the keys held down asks for the menu.
pub open spec fn spec_open_menu(keys: Seq<Key>) -> bool {
    exists|i: int|
        0 <= i < keys.len() && GameControl::spec_from_key_code(#[trigger] keys[i]) == Some(
            GameControl::OpenMenu,
        )
}

/// Works out what the player asks for from the keys and mouse buttons held
/// down.
pub fn set_playing_actions(
    actions: &mut Actions,
    keyboard_input: &Vec<Key>,
    mouse_input: &Vec<Button>,
)
    ensures
        final(actions).player_movement@ == spec_player_movement(keyboard_input@),
        final(actions).left_click_crosshair == spec_left_click(mouse_input@),
        final(actions).open_menu == spec_open_menu(keyboard_input@),
{
    let ghost to_movement = |key: Key| spec_key_movement(key);
    let mut player_movement: Vec<MovementControl> = Vec::new();
    let mut open_menu: bool = false;
    let mut i: usize = 0;
    while i < keyboard_input.len()
        invariant
            i <= keyboard_input@.len(),
            to_movement == |key: Key| spec_key_movement(key),
            player_movement@ == keyboard_input@.take(i as int).filter_map(to_movement),
            open_menu == exists|j: int|
                0 <= j < i && GameControl::spec_from_key_code(#[trigger] keyboard_input@[j])
                    == Some(GameControl::OpenMenu),
        decreases keyboard_input@.len() - i,
    {
        proof {
            keyboard_input@.lemma_filter_map_take_succ(to_movement, i as int);
        }
        match GameControl::from_key_code(keyboard_input[i]) {
            Some(control) => {
                match GameControl::movement_control(control) {
                    Some(movement) => {
                        player_movement.push(movement);
                    },
                    None => {},
                }
                if control == GameControl::OpenMenu {
                    open_menu = true;
                }
            },
            None => {},
        }
        i += 1;
    }
    let mut left_click: bool = false;
    let mut k: usize = 0;
    while k < mouse_input.len()
        invariant
            k <= mouse_input@.len(),
            left_click == exists|j: int|
                0 <= j < k && GameControl::spec_from_mouse_button(#[trigger] mouse_input@[j])
                    == Some(GameControl::ClickTarget),
        decreases mouse_input@.len() - k,
    {
        match GameControl::from_mouse_button(mouse_input[k]) {
            Some(GameControl::ClickTarget) => {
                left_click = true;
            },
            _ => {},
        }
        k += 1;
    }
    proof {
        assert(keyboard_input@.take(keyboard_input@.len() as int) == keyboard_input@);
    }
    actions.player_movement = player_movement;
    actions.left_click_crosshair = left_click;
    actions.open_menu = open_menu;
}

/// Where the player asks to go along one axis: one step forward where the
/// direction `plus` is asked for, one step back where `minus` is, and
/// nowhere where both or neither are.
pub fn movement_axis(actions: &Actions, plus: MovementControl, minus: MovementControl) -> (axis: i8)
    ensures
        axis == (if actions.player_movement@.contains(plus) {
            1int
        } else {
            0int
        }) - (if actions.player_movement@.contains(minus) {
            1int
        } else {
            0int
        }),
{
    let mut axis: i8 = 0;
    if asks_for(&actions.player_movement, plus) {
        axis += 1;
    }
    if asks_for(&actions.player_movement, minus) {
        axis -= 1;
    }
    axis
}

/// Whether a direction is among those asked for.
pub fn asks_for(player_movement: &Vec<MovementControl>, direction: MovementControl) -> (asked: bool)
    ensures
        asked == player_movement@.contains(direction),
{
    let mut i: usize = 0;
    while i < player_movement.len()
        invariant
            i <= player_movement@.len(),
            forall|j: int| 0 <= j < i ==> player_movement@[j] != direction,
        decreases player_movement@.len() - i,
    {
        if player_movement[i] == direction {
            return true;
        }
        i += 1;
    }
    false
}

} // verus!
