use space_shooter::fire_control::{try_fire, WeaponFireTimer, MAX_ELAPSED_NANOS};

const MS: u64 = 1_000_000;

#[test]
fn new_timer_starts_at_zero() {
    let t = WeaponFireTimer::new(250 * MS);
    assert_eq!(t.elapsed_nanos, 0);
    assert_eq!(t.fire_delay_nanos, 250 * MS);
    assert!(!t.is_ready());
}

#[test]
fn zero_delay_timer_is_ready_at_once() {
    let t = WeaponFireTimer::new(0);
    assert!(t.is_ready());
}

#[test]
fn tick_adds_delta() {
    let mut t = WeaponFireTimer::new(100);
    t.tick(30);
    t.tick(45);
    assert_eq!(t.elapsed_nanos, 75);
    assert_eq!(t.fire_delay_nanos, 100);
}

#[test]
fn tick_saturates_at_largest_value() {
    let mut t = WeaponFireTimer { elapsed_nanos: MAX_ELAPSED_NANOS - 5, fire_delay_nanos: 1 };
    t.tick(10);
    assert_eq!(t.elapsed_nanos, MAX_ELAPSED_NANOS);
}

#[test]
fn reset_keeps_delay() {
    let mut t = WeaponFireTimer { elapsed_nanos: 900, fire_delay_nanos: 300 };
    t.reset();
    assert_eq!(t, WeaponFireTimer { elapsed_nanos: 0, fire_delay_nanos: 300 });
}

#[test]
fn no_fire_without_trigger() {
    let mut t = WeaponFireTimer { elapsed_nanos: 500, fire_delay_nanos: 100 };
    assert!(!try_fire(&mut t, 16, false, false));
    assert_eq!(t.elapsed_nanos, 516);
}

#[test]
fn held_trigger_fires_when_ready() {
    let mut t = WeaponFireTimer { elapsed_nanos: 90, fire_delay_nanos: 100 };
    assert!(try_fire(&mut t, 10, true, false));
    assert_eq!(t.elapsed_nanos, 0);
}

#[test]
fn just_pressed_trigger_fires_when_ready() {
    let mut t = WeaponFireTimer { elapsed_nanos: 100, fire_delay_nanos: 100 };
    assert!(try_fire(&mut t, 0, false, true));
    assert_eq!(t.elapsed_nanos, 0);
}

#[test]
fn held_trigger_waits_for_cooldown() {
    let mut t = WeaponFireTimer { elapsed_nanos: 50, fire_delay_nanos: 100 };
    assert!(!try_fire(&mut t, 49, true, true));
    assert_eq!(t.elapsed_nanos, 99);
    assert!(try_fire(&mut t, 1, true, false));
    assert_eq!(t.elapsed_nanos, 0);
}

#[test]
fn cooldown_after_shot_over_frames() {
    // 16 ms frames, 250 ms delay: with the trigger held, shots come every 16th frame.
    let mut t = WeaponFireTimer::new(250 * MS);
    let mut shots: Vec<usize> = Vec::new();
    for frame in 0..40 {
        if try_fire(&mut t, 16 * MS, true, false) {
            shots.push(frame);
        }
    }
    assert_eq!(shots, vec![15, 31]);
}

#[test]
fn frame_longer_than_delay_fires_again_at_once() {
    let mut t = WeaponFireTimer::new(100);
    assert!(try_fire(&mut t, 100, true, false));
    assert!(!try_fire(&mut t, 99, true, false));
    let mut u = WeaponFireTimer::new(100);
    assert!(try_fire(&mut u, 150, true, false));
    assert!(try_fire(&mut u, 100, true, false));
}
