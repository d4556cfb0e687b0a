use console_room::color::Rgb;
use console_room::cursor::GrabMode;
use console_room::geom::Vec3Milli;
use console_room::input::{KeyState, MouseDelta};
use console_room::player::{PlayerState, Velocity};
use console_room::scene::{Scene, PLAYER_SPAWN_PITCH_URAD};

fn no_keys() -> KeyState {
    KeyState { forward: false, back: false, left: false, right: false }
}

fn no_mouse() -> Vec<MouseDelta> {
    Vec::new()
}

fn lock_cursor(scene: &mut Scene) {
    scene.grab_cursor(true, false);
}

fn flat_player_at(scene: &mut Scene, position: Vec3Milli) {
    scene.player = Some(PlayerState {
        position,
        yaw_urad: 0,
        pitch_urad: 0,
        velocity: Velocity::Still,
    });
}

#[test]
fn startup_scene_matches_the_room() {
    let s = Scene::startup();
    let p = s.player.expect("the scene holds exactly one player");
    assert_eq!(p.position, Vec3Milli { x: 0, y: 1200, z: 4000 });
    assert_eq!(p.yaw_urad, 0);
    assert_eq!(p.pitch_urad, PLAYER_SPAWN_PITCH_URAD);
    assert_eq!(p.velocity, Velocity::Still);
    assert_eq!(s.cursor.mode, GrabMode::Unlocked);
    assert!(s.cursor.visible);
    assert_eq!(s.consoles.len(), 3);
    assert_eq!(s.consoles[0].position, Vec3Milli { x: -3000, y: 0, z: 2000 });
    assert_eq!(s.consoles[1].position, Vec3Milli { x: 0, y: 0, z: 2000 });
    assert_eq!(s.consoles[2].position, Vec3Milli { x: 3000, y: 0, z: 2000 });
    assert_eq!(s.next_material_id, 3);
    assert_eq!(s.screens.len(), 4);
    assert_eq!(s.screens[0].effect.initial_emissive, Rgb { red: 100, green: 200, blue: 300 });
    assert_eq!(s.screens[1].effect.initial_emissive, Rgb { red: 0, green: 800, blue: 0 });
    assert_eq!(s.screens[0].effect.time_elapsed_ms, 0);
    assert_eq!(s.statics.len(), 7);
    assert_eq!(s.lights.len(), 3);
}

#[test]
fn cursor_locks_on_click_and_unlocks_on_escape() {
    let mut s = Scene::startup();
    s.grab_cursor(false, false);
    assert_eq!(s.cursor.mode, GrabMode::Unlocked);
    assert!(s.cursor.visible);
    s.grab_cursor(true, false);
    assert_eq!(s.cursor.mode, GrabMode::Locked);
    assert!(!s.cursor.visible);
    s.grab_cursor(false, false);
    assert_eq!(s.cursor.mode, GrabMode::Locked);
    s.grab_cursor(false, true);
    assert_eq!(s.cursor.mode, GrabMode::Unlocked);
    assert!(s.cursor.visible);
    // When both edges land on the same tick, the escape release wins.
    s.grab_cursor(true, true);
    assert_eq!(s.cursor.mode, GrabMode::Unlocked);
    assert!(s.cursor.visible);
}

#[test]
fn held_keys_command_the_fixed_speed() {
    let mut s = Scene::startup();
    flat_player_at(&mut s, Vec3Milli { x: 0, y: 1200, z: 4000 });
    lock_cursor(&mut s);
    let keys = KeyState { forward: true, back: false, left: false, right: false };
    s.player_movement(&keys, &no_mouse(), 16);
    let p = s.player.unwrap();
    assert_eq!(p.velocity, Velocity::Move { forward_num: 1000, strafe_num: 0 });
    assert_eq!(p.velocity.commanded_speed_milli(), 5000);

    // A diagonal combination weighs both axes.
    let keys = KeyState { forward: true, back: false, left: false, right: true };
    s.player_movement(&keys, &no_mouse(), 16);
    let p = s.player.unwrap();
    assert_eq!(p.velocity, Velocity::Move { forward_num: 1000, strafe_num: 1000 });

    // Strafing alone still moves at full speed even when the facing is pitched.
    let mut s = Scene::startup();
    lock_cursor(&mut s);
    let keys = KeyState { forward: false, back: false, left: true, right: false };
    s.player_movement(&keys, &no_mouse(), 16);
    let p = s.player.unwrap();
    assert_eq!(p.velocity, Velocity::Move { forward_num: 0, strafe_num: -1000 });
}

#[test]
fn pitched_facing_shortens_the_forward_numerator() {
    // From the spawn facing (pitched 0.049958 rad below the horizon) the
    // horizontal forward weight is the pitch cosine, 998 thousandths.
    let mut s = Scene::startup();
    lock_cursor(&mut s);
    let keys = KeyState { forward: true, back: false, left: false, right: false };
    s.player_movement(&keys, &no_mouse(), 16);
    let p = s.player.unwrap();
    assert_eq!(p.velocity, Velocity::Move { forward_num: 998, strafe_num: 0 });
}

#[test]
fn cancelling_keys_command_zero_velocity() {
    let mut s = Scene::startup();
    lock_cursor(&mut s);
    let keys = KeyState { forward: true, back: true, left: true, right: true };
    s.player_movement(&keys, &no_mouse(), 16);
    assert_eq!(s.player.unwrap().velocity, Velocity::Still);

    let keys = KeyState { forward: true, back: true, left: false, right: false };
    s.player_movement(&keys, &no_mouse(), 16);
    assert_eq!(s.player.unwrap().velocity, Velocity::Still);
    assert_eq!(s.player.unwrap().velocity.commanded_speed_milli(), 0);
}

#[test]
fn unlocked_cursor_freezes_movement_and_look() {
    let mut s = Scene::startup();
    let before = s.player.unwrap();
    let keys = KeyState { forward: true, back: false, left: true, right: false };
    let mouse = vec![MouseDelta { dx: 50, dy: -20 }];
    s.player_movement(&keys, &mouse, 16);
    let after = s.player.unwrap();
    assert_eq!(after.velocity, Velocity::Still);
    assert_eq!(after, before);
}

#[test]
fn mouse_delta_turns_yaw_then_pitch() {
    let mut s = Scene::startup();
    flat_player_at(&mut s, Vec3Milli { x: 0, y: 1200, z: 4000 });
    lock_cursor(&mut s);
    // Two events accumulate to (10, 20); over 100 ms at 0.1 rad per
    // pixel-second each axis turns by -delta * 0.1 * 0.1 rad.
    let mouse = vec![MouseDelta { dx: 4, dy: 8 }, MouseDelta { dx: 6, dy: 12 }];
    s.player_movement(&no_keys(), &mouse, 100);
    let p = s.player.unwrap();
    assert_eq!(p.yaw_urad, 6283184 - 100000);
    assert_eq!(p.pitch_urad, 6283184 - 200000);

    // The same deltas with the opposite sign turn the facing back.
    let mouse = vec![MouseDelta { dx: -10, dy: -20 }];
    s.player_movement(&no_keys(), &mouse, 100);
    let p = s.player.unwrap();
    assert_eq!(p.yaw_urad, 0);
    assert_eq!(p.pitch_urad, 0);
}

#[test]
fn interaction_needs_both_range_and_a_press_edge() {
    let mut s = Scene::startup();
    // Within 1.5 units of the first console, but no press-edge: holding the
    // key without a fresh edge never re-triggers.
    flat_player_at(&mut s, Vec3Milli { x: -3000, y: 1000, z: 3000 });
    let before = s.consoles.clone();
    s.interact_with_consoles(false);
    assert_eq!(s.consoles, before);
    assert_eq!(s.next_material_id, 3);
}

#[test]
fn interaction_out_of_range_does_not_trigger() {
    let mut s = Scene::startup();
    // Player at the origin facing -Z; the nearest console sits at (-3, 0, 2),
    // about 3.6 units away, and the middle one exactly 2 units away: a
    // press-edge reaches neither (the range test is strict).
    flat_player_at(&mut s, Vec3Milli { x: 0, y: 0, z: 0 });
    let before = s.consoles.clone();
    s.interact_with_consoles(true);
    assert_eq!(s.consoles, before);
    assert_eq!(s.next_material_id, 3);
}

#[test]
fn interaction_in_range_repaints_once_per_edge() {
    let mut s = Scene::startup();
    // Within 1.5 units of the first console only.
    flat_player_at(&mut s, Vec3Milli { x: -3000, y: 1000, z: 3000 });
    let before = s.consoles.clone();
    s.interact_with_consoles(true);
    let highlight = Rgb { red: 1000, green: 0, blue: 0 };
    assert_eq!(s.consoles[0].screen_color, highlight);
    assert_eq!(s.consoles[0].material_id, 3);
    assert_eq!(s.consoles[1], before[1]);
    assert_eq!(s.consoles[2], before[2]);
    assert_eq!(s.next_material_id, 4);

    // A second press-edge re-applies the same color, but allocates a fresh
    // material all the same.
    s.interact_with_consoles(true);
    assert_eq!(s.consoles[0].screen_color, highlight);
    assert_eq!(s.consoles[0].material_id, 4);
    assert_eq!(s.next_material_id, 5);
}

#[test]
fn interaction_triggers_every_console_in_range() {
    let mut s = Scene::startup();
    // Between the first two consoles: both within 2 units.
    flat_player_at(&mut s, Vec3Milli { x: -1500, y: 0, z: 2000 });
    s.interact_with_consoles(true);
    let highlight = Rgb { red: 1000, green: 0, blue: 0 };
    assert_eq!(s.consoles[0].screen_color, highlight);
    assert_eq!(s.consoles[0].material_id, 3);
    assert_eq!(s.consoles[1].screen_color, highlight);
    assert_eq!(s.consoles[1].material_id, 4);
    assert_ne!(s.consoles[2].screen_color, highlight);
    assert_eq!(s.next_material_id, 5);
}

#[test]
fn screen_effect_equals_stored_emissive_at_phase_zero() {
    let mut s = Scene::startup();
    s.update_screen_effect(0);
    // Phase 0 has sine 0; the remap gives exactly the original emissive.
    assert_eq!(s.screens[0].emissive, Rgb { red: 100, green: 200, blue: 300 });
    assert_eq!(s.screens[1].emissive, Rgb { red: 0, green: 800, blue: 0 });
    assert_eq!(s.screens[0].effect.time_elapsed_ms, 0);
}

#[test]
fn screen_effect_scales_by_the_phase_sine() {
    let mut s = Scene::startup();
    // A 100 ms frame gives phase 0.2 rad, whose fixed-point sine is 200:
    // each channel is scaled by 1.2.
    s.update_screen_effect(100);
    assert_eq!(s.screens[0].emissive, Rgb { red: 120, green: 240, blue: 360 });
    assert_eq!(s.screens[1].emissive, Rgb { red: 0, green: 960, blue: 0 });
}

#[test]
fn screen_effect_stays_within_twice_the_original() {
    let mut s = Scene::startup();
    let originals: Vec<Rgb> = s.screens.iter().map(|sc| sc.effect.initial_emissive).collect();
    let mut dt: u64 = 0;
    while dt <= 4000 {
        s.update_screen_effect(dt);
        for (screen, orig) in s.screens.iter().zip(originals.iter()) {
            assert!(screen.emissive.red <= 2 * orig.red);
            assert!(screen.emissive.green <= 2 * orig.green);
            assert!(screen.emissive.blue <= 2 * orig.blue);
        }
        dt += 157;
    }
}
