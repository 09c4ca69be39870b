use rustarok::time::{
    ElapsedTime, EngineTime, Tick, MAX_MILLIS_ALLOWED_FOR_SINGLE_FRAME, SIMULATION_FREQ,
};

#[test]
fn elapsed_time_adds_and_subtracts() {
    let t = ElapsedTime(1500);
    assert_eq!(t.add_seconds(2), ElapsedTime(3500));
    assert_eq!(t.add_millis(1), ElapsedTime(1501));
    assert_eq!(t.add(ElapsedTime(500)), ElapsedTime(2000));
    assert_eq!(t.minus(ElapsedTime(500)), ElapsedTime(1000));
    assert_eq!(t.elapsed_since(ElapsedTime(1500)), ElapsedTime(0));
    assert_eq!(t.as_millis(), 1500);
}

#[test]
fn elapsed_time_stops_at_the_ends_of_its_range() {
    assert_eq!(ElapsedTime(u64::MAX - 5).add_seconds(1), ElapsedTime(u64::MAX));
    assert_eq!(ElapsedTime(u64::MAX).add(ElapsedTime(1)), ElapsedTime(u64::MAX));
    assert_eq!(ElapsedTime(3).minus(ElapsedTime(4)), ElapsedTime(0));
    assert_eq!(ElapsedTime(3).elapsed_since(ElapsedTime(u64::MAX)), ElapsedTime(0));
    assert_eq!(ElapsedTime(0).add_seconds(u32::MAX), ElapsedTime(4_294_967_295_000));
}

#[test]
fn a_moment_has_passed_from_the_millisecond_it_names() {
    let until = ElapsedTime(1000);
    assert!(!until.has_passed(ElapsedTime(999)));
    assert!(until.has_passed(ElapsedTime(1000)));
    assert!(until.has_already_passed(ElapsedTime(1001)));
    assert!(!until.has_already_passed(ElapsedTime(0)));
    assert!(until.has_not_passed(ElapsedTime(999)));
    assert!(!until.has_not_passed(ElapsedTime(1000)));
}

#[test]
fn max_is_the_later_moment() {
    assert_eq!(ElapsedTime(5).max(ElapsedTime(9)), ElapsedTime(9));
    assert_eq!(ElapsedTime(9).max(ElapsedTime(5)), ElapsedTime(9));
    assert_eq!(ElapsedTime(9).max(ElapsedTime(9)), ElapsedTime(9));
}

#[test]
fn run_at_least_until_only_moves_forward() {
    let mut t = ElapsedTime(1000);
    t.run_at_least_until_seconds(ElapsedTime(500), 2);
    assert_eq!(t, ElapsedTime(2500));
    t.run_at_least_until_seconds(ElapsedTime(500), 1);
    assert_eq!(t, ElapsedTime(2500));
    t.run_at_least_until_seconds(ElapsedTime(2500), 0);
    assert_eq!(t, ElapsedTime(2500));
}

#[test]
fn a_frame_adds_no_more_than_one_simulation_step_of_time() {
    assert_eq!(SIMULATION_FREQ, 30);
    assert_eq!(MAX_MILLIS_ALLOWED_FOR_SINGLE_FRAME, 33);
    let mut clock = EngineTime::new();
    assert_eq!(clock.now(), ElapsedTime(0));
    assert!(!clock.can_simulation_run());
    clock.advance(16, true);
    assert_eq!(clock.now(), ElapsedTime(16));
    assert_eq!(clock.tick, Tick(1));
    assert_eq!(clock.simulation_frame, 1);
    assert!(clock.can_simulation_run());
    clock.advance(5000, false);
    assert_eq!(clock.now(), ElapsedTime(49));
    assert_eq!(clock.tick, Tick(2));
    assert_eq!(clock.simulation_frame, 1);
    assert!(!clock.can_simulation_run());
    clock.advance(33, true);
    assert_eq!(clock.now(), ElapsedTime(82));
    assert_eq!(clock.simulation_frame, 2);
}
