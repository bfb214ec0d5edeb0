use internet_monitor::sched::{Config, Phase, Scheduler};

#[test]
fn fresh_scheduler_waits_at_iteration_zero() {
    let config = Config::new("google.com".to_string(), 5);
    let scheduler = Scheduler::new(config);
    assert_eq!(scheduler.phase, Phase::Waiting);
    assert_eq!(scheduler.iteration, 0);
    assert_eq!(scheduler.config.host, "google.com");
    assert_eq!(scheduler.config.interval_secs, 5);
}

#[test]
fn startup_proceeds_even_when_sink_is_unreachable() {
    let scheduler = Scheduler::new(Config::new("google.com".to_string(), 5));
    assert!(scheduler.startup_proceeds(false));
    assert!(scheduler.startup_proceeds(true));
}

#[test]
fn tick_runs_and_returns_to_waiting() {
    let mut scheduler = Scheduler::new(Config::new("google.com".to_string(), 7));
    scheduler.begin_tick();
    assert_eq!(scheduler.phase, Phase::Running);
    assert_eq!(scheduler.iteration, 1);
    let sleep_secs = scheduler.finish_tick(true);
    assert_eq!(scheduler.phase, Phase::Waiting);
    assert_eq!(sleep_secs, 7);
}

#[test]
fn failed_writes_never_stall_the_cadence() {
    // A sink that always fails writes: every tick still ends back in the
    // waiting phase with the configured sleep, and the next tick begins.
    let mut scheduler = Scheduler::new(Config::new("google.com".to_string(), 3));
    for expected_iteration in 1..=5u64 {
        scheduler.begin_tick();
        assert_eq!(scheduler.phase, Phase::Running);
        assert_eq!(scheduler.iteration, expected_iteration);
        let sleep_secs = scheduler.finish_tick(false);
        assert_eq!(scheduler.phase, Phase::Waiting);
        assert_eq!(sleep_secs, 3);
    }
    assert_eq!(scheduler.iteration, 5);
}

#[test]
fn write_outcome_never_changes_the_sleep() {
    let mut ok_side = Scheduler::new(Config::new("google.com".to_string(), 11));
    let mut err_side = Scheduler::new(Config::new("google.com".to_string(), 11));
    ok_side.begin_tick();
    err_side.begin_tick();
    let ok_sleep = ok_side.finish_tick(true);
    let err_sleep = err_side.finish_tick(false);
    assert_eq!(ok_sleep, err_sleep);
    assert_eq!(ok_side.phase, err_side.phase);
    assert_eq!(ok_side.iteration, err_side.iteration);
}
