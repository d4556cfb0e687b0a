use console_room::angle::{
    cosine_milli_exec, rotate_angle, sine_milli_exec, FULL_TURN_URAD, HALF_TURN_URAD,
    QUARTER_TURN_URAD,
};
use console_room::color::{oscillate_channel, oscillate_color, Rgb};
use console_room::geom::{distance_sq_micro, Vec3Milli};
use console_room::input::{accumulate_mouse, MouseDelta};

#[test]
fn sine_hits_its_exact_points() {
    assert_eq!(sine_milli_exec(0), 0);
    assert_eq!(sine_milli_exec(QUARTER_TURN_URAD), 1000);
    assert_eq!(sine_milli_exec(HALF_TURN_URAD), 0);
    assert_eq!(sine_milli_exec(HALF_TURN_URAD + QUARTER_TURN_URAD), -1000);
}

#[test]
fn sine_stays_in_bounds() {
    let mut x: u64 = 0;
    while x < FULL_TURN_URAD {
        let s = sine_milli_exec(x);
        assert!((-1000..=1000).contains(&s));
        x += 9973;
    }
}

#[test]
fn sine_of_a_small_angle() {
    // Bhaskara's approximation at 0.2 radian: exactly 200 thousandths.
    assert_eq!(sine_milli_exec(200000), 200);
}

#[test]
fn cosine_is_full_at_zero() {
    assert_eq!(cosine_milli_exec(0), 1000);
    assert_eq!(cosine_milli_exec(QUARTER_TURN_URAD), 0);
    assert_eq!(cosine_milli_exec(HALF_TURN_URAD), -1000);
}

#[test]
fn rotation_wraps_both_ways() {
    assert_eq!(rotate_angle(0, -100), FULL_TURN_URAD - 100);
    assert_eq!(rotate_angle(FULL_TURN_URAD - 1, 1), 0);
    assert_eq!(rotate_angle(5, FULL_TURN_URAD as i64), 5);
    assert_eq!(rotate_angle(5, -(FULL_TURN_URAD as i64) * 3), 5);
    assert_eq!(rotate_angle(1000, 234), 1234);
}

#[test]
fn oscillation_doubles_at_the_peak_and_darkens_at_the_trough() {
    assert_eq!(oscillate_channel(800, 1000), 1600);
    assert_eq!(oscillate_channel(800, -1000), 0);
    assert_eq!(oscillate_channel(800, 0), 800);
    assert_eq!(oscillate_channel(0, 1000), 0);
    let c = Rgb { red: 100, green: 200, blue: 300 };
    let peak = oscillate_color(&c, 1000);
    assert_eq!(peak, Rgb { red: 200, green: 400, blue: 600 });
    let trough = oscillate_color(&c, -1000);
    assert_eq!(trough, Rgb { red: 0, green: 0, blue: 0 });
}

#[test]
fn oscillation_peaks_at_a_quarter_turn_phase() {
    let c = Rgb { red: 100, green: 200, blue: 300 };
    let s = sine_milli_exec(QUARTER_TURN_URAD);
    assert_eq!(s, 1000);
    assert_eq!(oscillate_color(&c, s), Rgb { red: 200, green: 400, blue: 600 });
}

#[test]
fn oscillation_stays_within_twice_the_original() {
    let c = Rgb { red: 123, green: 456, blue: 789 };
    let mut s: i64 = -1000;
    while s <= 1000 {
        let o = oscillate_color(&c, s);
        assert!(o.red <= 2 * c.red);
        assert!(o.green <= 2 * c.green);
        assert!(o.blue <= 2 * c.blue);
        s += 97;
    }
}

#[test]
fn squared_distance_is_exact() {
    let a = Vec3Milli { x: 0, y: 0, z: 0 };
    let b = Vec3Milli { x: -3000, y: 0, z: 2000 };
    assert_eq!(distance_sq_micro(&a, &b), 13000000);
    assert_eq!(distance_sq_micro(&a, &a), 0);
    let c = Vec3Milli { x: -3000, y: 1000, z: 3000 };
    assert_eq!(distance_sq_micro(&c, &b), 2000000);
}

#[test]
fn mouse_events_accumulate_into_one_delta() {
    let events = vec![
        MouseDelta { dx: 10, dy: -3 },
        MouseDelta { dx: -4, dy: 7 },
        MouseDelta { dx: 1, dy: 1 },
    ];
    let total = accumulate_mouse(&events);
    assert_eq!(total, MouseDelta { dx: 7, dy: 5 });
    let none: Vec<MouseDelta> = Vec::new();
    assert_eq!(accumulate_mouse(&none), MouseDelta { dx: 0, dy: 0 });
}
