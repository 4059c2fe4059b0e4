use m5stack_demo::{increment, tick_delta, update_counter, CounterUpdate, PeriodicTimer};

#[test]
fn tick_delta_without_wrap() {
    assert_eq!(tick_delta(100, 250), 150);
    assert_eq!(tick_delta(7, 7), 0);
}

#[test]
fn tick_delta_across_wrap() {
    assert_eq!(tick_delta(0xffff_fff0, 5), 21);
    assert_eq!(tick_delta(u32::MAX, 0), 1);
}

#[test]
fn tick_delta_of_wrapped_successor_is_small() {
    let starts: [u32; 5] = [0, 1, 0x7fff_ffff, 0xffff_ff00, u32::MAX];
    let steps: [u32; 4] = [0, 1, 10, 300];
    for &t1 in starts.iter() {
        for &d in steps.iter() {
            assert_eq!(tick_delta(t1, t1.wrapping_add(d)), d);
        }
    }
}

#[test]
fn increment_wraps_at_top() {
    assert_eq!(increment(0), 1);
    assert_eq!(increment(-1), 0);
    assert_eq!(increment(127), -128);
}

#[test]
fn update_with_a_from_125() {
    assert_eq!(update_counter(125, true, false), CounterUpdate { logged: -121, next: -120 });
}

#[test]
fn update_with_a_from_127_wraps() {
    let u = update_counter(127, true, false);
    assert_eq!(u.logged, -119);
    assert_eq!(u.next, -118);
}

#[test]
fn update_without_buttons_only_increments() {
    assert_eq!(update_counter(41, false, false), CounterUpdate { logged: 41, next: 42 });
}

#[test]
fn update_with_c_subtracts_sixteen() {
    assert_eq!(update_counter(0, false, true), CounterUpdate { logged: -16, next: -15 });
    assert_eq!(update_counter(-128, false, true), CounterUpdate { logged: 112, next: 113 });
}

#[test]
fn update_with_a_and_c() {
    assert_eq!(update_counter(0, true, true), CounterUpdate { logged: -6, next: -5 });
    assert_eq!(update_counter(120, true, true), CounterUpdate { logged: 114, next: 115 });
}

#[test]
fn net_effect_matches_sum_of_updates() {
    let presses: [(bool, bool); 6] =
        [(true, false), (true, false), (false, true), (false, false), (true, true), (false, true)];
    let mut c: i8 = 100;
    let mut net: i32 = 0;
    for &(a, cc) in presses.iter() {
        c = update_counter(c, a, cc).next;
        net += if a { 10 } else { 0 } - if cc { 16 } else { 0 } + 1;
    }
    let expected = ((100 + net).rem_euclid(256) as u8) as i8;
    assert_eq!(c, expected);
}

#[test]
fn timer_does_not_fire_at_exact_threshold() {
    let mut t = PeriodicTimer::new(1000, 100);
    assert!(!t.advance(100));
    assert_eq!(t.acc_ticks, 100);
    assert!(t.advance(1));
    assert_eq!(t.acc_ticks, 0);
}

#[test]
fn timer_fires_on_large_slice_and_resets() {
    let mut t = PeriodicTimer::new(1000, 100);
    assert!(t.advance(u32::MAX));
    assert_eq!(t.acc_ticks, 0);
    assert!(!t.advance(50));
    assert_eq!(t.acc_ticks, 50);
}

#[test]
fn short_timer_fires_every_third_tick() {
    let mut t = PeriodicTimer::new(25, 100);
    let mut fired_at: Vec<u32> = Vec::new();
    for i in 1..=9u32 {
        if t.advance(1) {
            fired_at.push(i);
        }
    }
    assert_eq!(fired_at, vec![3, 6, 9]);
}

#[test]
fn steady_ticks_keep_accumulator_within_threshold() {
    let mut t = PeriodicTimer::new(1000, 100);
    let mut since_fire: u32 = 0;
    let mut fires: u32 = 0;
    for _ in 0..1000 {
        let fired = t.advance(1);
        since_fire += 1;
        assert!(t.acc_ticks * 1000 <= 1000 * 100);
        if fired {
            assert_eq!(t.acc_ticks, 0);
            assert_eq!(since_fire, 101);
            since_fire = 0;
            fires += 1;
        }
    }
    assert_eq!(fires, 9);
}
