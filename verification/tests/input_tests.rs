use raycaster::input::{update_player, HeldKeys, MoveKey, Player};

fn no_keys() -> HeldKeys {
    HeldKeys::new()
}

#[test]
fn press_and_release_track_state() {
    let mut keys = HeldKeys::new();
    assert!(!keys.turn_left && !keys.turn_right && !keys.forward && !keys.backward);
    keys.press(MoveKey::TurnLeft);
    keys.press(MoveKey::Forward);
    assert!(keys.turn_left && !keys.turn_right && keys.forward && !keys.backward);
    keys.release(MoveKey::TurnLeft);
    assert!(!keys.turn_left && keys.forward);
    keys.release(MoveKey::Backward);
    assert!(keys.forward);
}

#[test]
fn rotation_steps_five_degrees() {
    let p = Player::new(3_000, 3_000, 90_000);
    let mut right = no_keys();
    right.press(MoveKey::TurnRight);
    assert_eq!(update_player(&p, &right).pov, 95_000);
    let mut left = no_keys();
    left.press(MoveKey::TurnLeft);
    assert_eq!(update_player(&p, &left).pov, 85_000);
    let mut both = no_keys();
    both.press(MoveKey::TurnLeft);
    both.press(MoveKey::TurnRight);
    assert_eq!(update_player(&p, &both).pov, 90_000);
}

#[test]
fn rotation_wraps_at_a_full_turn() {
    let p = Player::new(0, 0, 357_000);
    let mut right = no_keys();
    right.press(MoveKey::TurnRight);
    assert_eq!(update_player(&p, &right).pov, 2_000);
    let p = Player::new(0, 0, 2_000);
    let mut left = no_keys();
    left.press(MoveKey::TurnLeft);
    assert_eq!(update_player(&p, &left).pov, 357_000);
}

#[test]
fn seventy_two_turns_return_home() {
    let mut p = Player::new(3_000, 3_000, 90_000);
    let mut right = no_keys();
    right.press(MoveKey::TurnRight);
    for _ in 0..72 {
        p = update_player(&p, &right);
    }
    assert_eq!(p.pov, 90_000);
    assert_eq!(p.x, 3_000);
    assert_eq!(p.y, 3_000);
}

#[test]
fn forward_moves_a_tenth_along_the_view() {
    let mut fwd = no_keys();
    fwd.press(MoveKey::Forward);
    let p = Player::new(3_000, 3_000, 0);
    let q = update_player(&p, &fwd);
    assert_eq!((q.x, q.y), (3_100, 3_000));
    let p = Player::new(3_000, 3_000, 90_000);
    let q = update_player(&p, &fwd);
    assert_eq!((q.x, q.y), (3_000, 3_100));
    // at forty-five degrees both components are 70 thousandths
    let p = Player::new(3_000, 3_000, 45_000);
    let q = update_player(&p, &fwd);
    assert_eq!((q.x, q.y), (3_070, 3_070));
}

#[test]
fn backward_undoes_forward() {
    let mut fwd = no_keys();
    fwd.press(MoveKey::Forward);
    let mut back = no_keys();
    back.press(MoveKey::Backward);
    let p = Player::new(3_000, 3_000, 123_000);
    let q = update_player(&update_player(&p, &fwd), &back);
    assert_eq!((q.x, q.y, q.pov), (3_000, 3_000, 123_000));
    // both held at once cancel exactly
    let mut both = no_keys();
    both.press(MoveKey::Forward);
    both.press(MoveKey::Backward);
    let q = update_player(&p, &both);
    assert_eq!((q.x, q.y), (3_000, 3_000));
}
