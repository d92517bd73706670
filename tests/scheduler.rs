use web_render_rs::clock::{Action, FrameClock, Phase, Ratio, STEP_UNITS};

fn started(updates_per_second: u32, max_frame_time: u64) -> FrameClock {
    let mut clock = FrameClock::new();
    assert_eq!(clock.start(updates_per_second, max_frame_time), Action::RequestFrame);
    clock
}

/// Runs one tick at `now`, counting the updates it asks for.
fn tick(clock: &mut FrameClock, now: u64) -> u32 {
    let mut updates: u32 = 0;
    let mut action = clock.on_frame(now);
    while action == Action::RunUpdate {
        updates += 1;
        action = clock.on_update_done();
    }
    assert_eq!(action, Action::RunRender);
    let b = clock.blending_factor();
    assert!(b.numerator < b.denominator);
    clock.on_render_done();
    updates
}

#[test]
fn fixed_time_step_is_reciprocal_of_rate() {
    for ups in [1u32, 30, 60, 144, u32::MAX] {
        let clock = started(ups, 100_000);
        assert_eq!(clock.fixed_time_step(), Ratio { numerator: 1, denominator: ups as u128 });
    }
}

#[test]
fn two_ticks_at_sixty_hertz() {
    let mut clock = started(60, 100_000);
    assert_eq!(tick(&mut clock, 0), 0);
    assert_eq!(tick(&mut clock, 20_000), 1);
    assert_eq!(clock.number_of_updates(), 1);
    assert_eq!(clock.number_of_renders(), 2);
    // 0.02 s - 1/60 s = 1/300 s
    assert_eq!(clock.accumulated_time(), Ratio { numerator: 200_000, denominator: 60_000_000 });
    let t = clock.accumulated_time();
    let seconds = t.numerator as f64 / t.denominator as f64;
    assert!((seconds - 0.0033).abs() < 0.0001);
}

#[test]
fn stall_is_clamped_to_max_frame_time() {
    let mut clock = started(60, 100_000);
    assert_eq!(tick(&mut clock, 0), 0);
    // a stall of five seconds counts as one tenth of a second: six steps at 60 Hz
    assert_eq!(tick(&mut clock, 5_000_000), 6);
    assert_eq!(clock.number_of_updates(), 6);
}

#[test]
fn updates_per_tick_follow_floor_of_accumulated() {
    let mut clock = started(60, 100_000);
    let instants: [u64; 6] = [0, 10_000, 40_000, 41_000, 100_000, 180_000];
    let mut previous: u64 = 0;
    let mut leftover: u128 = 0;
    for now in instants {
        let accumulated = leftover + ((now - previous) as u128) * 60;
        let expected = (accumulated / STEP_UNITS) as u32;
        assert_eq!(tick(&mut clock, now), expected);
        leftover = accumulated % STEP_UNITS;
        assert_eq!(clock.blending_factor(), Ratio { numerator: leftover, denominator: STEP_UNITS });
        previous = now;
    }
    assert_eq!(clock.number_of_renders(), 6);
}

#[test]
fn update_then_render_order_within_tick() {
    let mut clock = started(10, 1_000_000);
    assert_eq!(clock.on_frame(250_000), Action::RunUpdate);
    assert_eq!(clock.phase(), Phase::Updating);
    assert_eq!(clock.on_update_done(), Action::RunUpdate);
    assert_eq!(clock.on_update_done(), Action::RunRender);
    assert_eq!(clock.phase(), Phase::Rendering);
    assert_eq!(clock.on_render_done(), Action::RequestFrame);
    assert_eq!(clock.phase(), Phase::Waiting);
}

#[test]
fn exit_takes_effect_at_end_of_tick() {
    let mut clock = started(60, 100_000);
    assert_eq!(clock.on_frame(20_000), Action::RunUpdate);
    clock.exit();
    assert!(clock.exit_requested());
    // the tick still finishes: the render runs
    assert_eq!(clock.on_update_done(), Action::RunRender);
    assert_eq!(clock.on_render_done(), Action::Stop);
    assert_eq!(clock.phase(), Phase::Exited);
    assert_eq!(clock.number_of_renders(), 1);
}

#[test]
fn new_rate_applies_from_next_tick() {
    let mut clock = started(60, 100_000);
    assert_eq!(tick(&mut clock, 0), 0);
    assert_eq!(clock.on_frame(50_000), Action::RunUpdate);
    clock.set_updates_per_second(10);
    // still 60 Hz inside this tick: three steps of 1/60 s in 0.05 s
    assert_eq!(clock.updates_per_second(), 60);
    let mut updates: u32 = 1;
    while clock.on_update_done() == Action::RunUpdate {
        updates += 1;
    }
    assert_eq!(updates, 3);
    clock.on_render_done();
    // 0.1 s at 10 Hz is one step
    assert_eq!(tick(&mut clock, 150_000), 1);
    assert_eq!(clock.updates_per_second(), 10);
    assert_eq!(clock.fixed_time_step(), Ratio { numerator: 1, denominator: 10 });
}

#[test]
fn leftover_time_is_kept_across_rate_change() {
    let mut clock = started(60, 100_000);
    assert_eq!(tick(&mut clock, 20_000), 1);
    // 1/300 s left over
    assert_eq!(clock.blending_factor().numerator, 200_000);
    clock.set_updates_per_second(120);
    assert_eq!(tick(&mut clock, 20_000), 0);
    // still 1/300 s, now in units of 1/120 000 000 s
    assert_eq!(clock.accumulated_time(), Ratio { numerator: 400_000, denominator: 120_000_000 });
}

#[test]
fn clock_going_backwards_adds_nothing() {
    let mut clock = started(60, 100_000);
    assert_eq!(tick(&mut clock, 20_000), 1);
    assert_eq!(tick(&mut clock, 5_000), 0);
    assert_eq!(clock.blending_factor().numerator, 200_000);
    // the earlier instant is the new reference
    assert_eq!(tick(&mut clock, 19_000), 1);
}

#[test]
fn re_accumulate_measures_from_tick_start() {
    let mut clock = started(60, 100_000);
    assert_eq!(clock.on_frame(10_000), Action::RunRender);
    clock.re_accumulate(12_000);
    assert_eq!(clock.blending_factor().numerator, 720_000);
    assert_eq!(clock.on_render_done(), Action::RequestFrame);
    // 0.012 s + 0.008 s: the time is not counted twice
    assert_eq!(clock.on_frame(20_000), Action::RunUpdate);
    assert_eq!(clock.on_update_done(), Action::RunRender);
    assert_eq!(clock.blending_factor().numerator, 200_000);
}

#[test]
fn new_clock_is_unstarted() {
    let clock = FrameClock::new();
    assert_eq!(clock.phase(), Phase::Configuring);
    assert_eq!(clock.number_of_updates(), 0);
    assert_eq!(clock.number_of_renders(), 0);
    assert!(!clock.exit_requested());
}
