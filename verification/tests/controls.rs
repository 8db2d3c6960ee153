use voxel_vegetables::actions::game_control::{
    button_pressed, get_movement, key_pressed, GameControl as HeldControl,
};
use voxel_vegetables::actions::{asks_for, movement_axis, set_playing_actions, Actions};
use voxel_vegetables::game_control::{Button, GameControl, Key, MovementControl};

#[test]
fn every_key_asks_for_its_control() {
    let forward = Some(GameControl::Movement(MovementControl::Forward));
    let backward = Some(GameControl::Movement(MovementControl::Backward));
    let left = Some(GameControl::Movement(MovementControl::Left));
    let right = Some(GameControl::Movement(MovementControl::Right));
    assert_eq!(GameControl::from_key_code(Key::W), forward);
    assert_eq!(GameControl::from_key_code(Key::Up), forward);
    assert_eq!(GameControl::from_key_code(Key::S), backward);
    assert_eq!(GameControl::from_key_code(Key::Down), backward);
    assert_eq!(GameControl::from_key_code(Key::A), left);
    assert_eq!(GameControl::from_key_code(Key::Left), left);
    assert_eq!(GameControl::from_key_code(Key::D), right);
    assert_eq!(GameControl::from_key_code(Key::Right), right);
    assert_eq!(
        GameControl::from_key_code(Key::Space),
        Some(GameControl::Movement(MovementControl::Up))
    );
    assert_eq!(
        GameControl::from_key_code(Key::C),
        Some(GameControl::Movement(MovementControl::Down))
    );
    assert_eq!(GameControl::from_key_code(Key::Escape), Some(GameControl::OpenMenu));
    assert_eq!(GameControl::from_key_code(Key::Other), None);
}

#[test]
fn only_the_left_button_clicks() {
    assert_eq!(GameControl::from_mouse_button(Button::Left), Some(GameControl::ClickTarget));
    assert_eq!(GameControl::from_mouse_button(Button::Other), None);
}

#[test]
fn only_movement_controls_move() {
    assert_eq!(
        GameControl::movement_control(GameControl::Movement(MovementControl::Up)),
        Some(MovementControl::Up)
    );
    assert_eq!(GameControl::movement_control(GameControl::ClickTarget), None);
    assert_eq!(GameControl::movement_control(GameControl::OpenMenu), None);
}

#[test]
fn actions_follow_the_keys_and_buttons_held() {
    let mut actions = Actions::default();
    let keys = vec![Key::W, Key::Other, Key::Up, Key::Escape, Key::C];
    set_playing_actions(&mut actions, &keys, &vec![Button::Other, Button::Left]);
    assert_eq!(
        actions.player_movement,
        vec![MovementControl::Forward, MovementControl::Forward, MovementControl::Down]
    );
    assert!(actions.left_click_crosshair);
    assert!(actions.open_menu);
    set_playing_actions(&mut actions, &vec![Key::A], &vec![Button::Other]);
    assert_eq!(actions.player_movement, vec![MovementControl::Left]);
    assert!(!actions.left_click_crosshair);
    assert!(!actions.open_menu);
    set_playing_actions(&mut actions, &Vec::new(), &Vec::new());
    assert!(actions.player_movement.is_empty());
}

#[test]
fn movement_axis_weighs_both_directions() {
    let mut actions = Actions::default();
    actions.player_movement = vec![MovementControl::Right, MovementControl::Up];
    assert_eq!(movement_axis(&actions, MovementControl::Right, MovementControl::Left), 1);
    assert_eq!(movement_axis(&actions, MovementControl::Left, MovementControl::Right), -1);
    assert_eq!(movement_axis(&actions, MovementControl::Backward, MovementControl::Forward), 0);
    assert_eq!(movement_axis(&actions, MovementControl::Up, MovementControl::Right), 0);
    assert!(asks_for(&actions.player_movement, MovementControl::Up));
    assert!(!asks_for(&actions.player_movement, MovementControl::Down));
}

#[test]
fn held_controls_read_the_keys_and_buttons() {
    let keys = vec![Key::Up, Key::D, Key::Escape];
    let buttons = vec![Button::Left];
    assert!(HeldControl::Up.pressed(&keys, &buttons));
    assert!(!HeldControl::Down.pressed(&keys, &buttons));
    assert!(!HeldControl::Left.pressed(&keys, &buttons));
    assert!(HeldControl::Right.pressed(&keys, &buttons));
    assert!(!HeldControl::Space.pressed(&keys, &buttons));
    assert!(!HeldControl::C.pressed(&keys, &buttons));
    assert!(HeldControl::ClickTarget.pressed(&keys, &buttons));
    assert!(HeldControl::OpenMenu.pressed(&keys, &buttons));
    assert!(HeldControl::Up.pressed(&vec![Key::W], &Vec::new()));
    assert!(HeldControl::Down.pressed(&vec![Key::S], &Vec::new()));
    assert!(HeldControl::Down.pressed(&vec![Key::Down], &Vec::new()));
    assert!(HeldControl::Left.pressed(&vec![Key::A], &Vec::new()));
    assert!(HeldControl::Left.pressed(&vec![Key::Left], &Vec::new()));
    assert!(HeldControl::Right.pressed(&vec![Key::Right], &Vec::new()));
    assert!(HeldControl::Space.pressed(&vec![Key::Space], &Vec::new()));
    assert!(HeldControl::C.pressed(&vec![Key::C], &Vec::new()));
    assert!(!HeldControl::ClickTarget.pressed(&keys, &vec![Button::Other]));
    assert_eq!(get_movement(HeldControl::Up, &keys, &buttons), 1);
    assert_eq!(get_movement(HeldControl::Down, &keys, &buttons), 0);
    assert!(key_pressed(&keys, Key::D));
    assert!(!key_pressed(&keys, Key::A));
    assert!(button_pressed(&buttons, Button::Left));
    assert!(!button_pressed(&buttons, Button::Other));
}

#[test]
fn controls_are_ordered_as_they_are_listed() {
    assert!(MovementControl::Forward < MovementControl::Backward);
    assert!(MovementControl::Backward < MovementControl::Left);
    assert!(MovementControl::Left < MovementControl::Right);
    assert!(MovementControl::Right < MovementControl::Up);
    assert!(MovementControl::Up < MovementControl::Down);
    assert!(GameControl::Movement(MovementControl::Down) < GameControl::ClickTarget);
    assert!(GameControl::ClickTarget < GameControl::OpenMenu);
    let mut held = vec![
        GameControl::OpenMenu,
        GameControl::Movement(MovementControl::Up),
        GameControl::ClickTarget,
        GameControl::Movement(MovementControl::Forward),
    ];
    held.sort();
    assert_eq!(
        held,
        vec![
            GameControl::Movement(MovementControl::Forward),
            GameControl::Movement(MovementControl::Up),
            GameControl::ClickTarget,
            GameControl::OpenMenu,
        ]
    );
}
