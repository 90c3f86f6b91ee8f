use hummingbird_daemon::control::{
    millis_from_seconds, pick_file_index, ControlState, Liveness, LoopState, TICK_MS,
};
use hummingbird_daemon::daemon::{Daemon, PollResult, SpawnResult};

#[test]
fn tick_period_is_one_hundred_milliseconds() {
    assert_eq!(TICK_MS, 100);
}

#[test]
fn alive_child_within_init_window_is_left_alone() {
    // waitInit of five seconds, three seconds elapsed since the spawn.
    let s = ControlState { is_init: true, elapsed_ms: 3000, wait_init_ms: 5000, wait_check_ms: 5000 };
    assert_eq!(s.decide(&Liveness::Alive), LoopState::WithinGracePeriod);
}

#[test]
fn alive_child_past_the_init_window_gets_a_network_check() {
    let s = ControlState { is_init: true, elapsed_ms: 5000, wait_init_ms: 5000, wait_check_ms: 5000 };
    assert_eq!(s.decide(&Liveness::Alive), LoopState::NeedsNetworkCheck);
}

#[test]
fn check_window_applies_when_not_freshly_started() {
    let mut s = ControlState::new(5000, 7000);
    s.elapsed_ms = 6900;
    assert_eq!(s.decide(&Liveness::Alive), LoopState::WithinGracePeriod);
    s.elapsed_ms = 7000;
    assert_eq!(s.decide(&Liveness::Alive), LoopState::NeedsNetworkCheck);
}

#[test]
fn dead_or_unaccountable_child_calls_for_respawn() {
    let s = ControlState::new(5000, 5000);
    assert_eq!(s.decide(&Liveness::NotAlive), LoopState::NeedsRespawn);
    assert_eq!(s.decide(&Liveness::StatusUnknown), LoopState::NeedsRespawn);
}

#[test]
fn network_result_spends_the_init_claim_and_restarts_the_window() {
    let mut s = ControlState { is_init: true, elapsed_ms: 5000, wait_init_ms: 5000, wait_check_ms: 5000 };
    assert_eq!(s.apply_network_result(true), LoopState::AwaitingDecision);
    assert!(!s.is_init);
    assert_eq!(s.elapsed_ms, 0);

    let mut u = ControlState { is_init: false, elapsed_ms: 5000, wait_init_ms: 5000, wait_check_ms: 5000 };
    assert_eq!(u.apply_network_result(false), LoopState::NeedsRespawn);
    assert_eq!(u.elapsed_ms, 0);
}

#[test]
fn respawn_interrupts_an_existing_child_first() {
    let mut s = ControlState { is_init: false, elapsed_ms: 5000, wait_init_ms: 5000, wait_check_ms: 5000 };
    assert_eq!(s.plan_respawn(Some(42)), LoopState::NeedsInterruptThenRespawn);
    assert_eq!(s.elapsed_ms, 0);
}

#[test]
fn respawn_without_a_handle_proceeds_to_spawn() {
    let mut s = ControlState::new(5000, 5000);
    assert_eq!(s.plan_respawn(None), LoopState::NeedsRespawn);
}

#[test]
fn a_single_configured_file_is_always_the_one_used() {
    assert_eq!(pick_file_index(1), 0);
}

#[test]
fn file_index_stays_in_range() {
    for _ in 0..500 {
        assert!(pick_file_index(5) < 5);
    }
}

#[test]
fn file_selection_is_roughly_uniform_over_every_index() {
    // Four files, eight thousand draws: each index is expected two thousand
    // times, twelve standard deviations of slack.
    let k = 4;
    let trials = 8000;
    let mut counts = vec![0usize; k];
    for _ in 0..trials {
        let i = pick_file_index(k);
        counts[i] += 1;
    }
    for (i, &c) in counts.iter().enumerate() {
        assert!(c > 1500 && c < 2500, "index {} drawn {} times of {}", i, c, trials);
    }
    // In particular the last index is never systematically excluded.
    assert!(counts[k - 1] > 0);
}

#[test]
fn spawn_with_obtainable_pid_opens_the_init_window() {
    let mut s = ControlState { is_init: false, elapsed_ms: 700, wait_init_ms: 5000, wait_check_ms: 5000 };
    let fatal = s.apply_spawn_result(Some(42));
    assert!(!fatal);
    assert!(s.is_init);
    assert_eq!(s.elapsed_ms, 0);
}

#[test]
fn spawn_that_never_reports_alive_is_fatal() {
    let mut s = ControlState::new(5000, 5000);
    assert!(s.apply_spawn_result(None));
}

#[test]
fn child_dead_on_boot_ends_the_loop() {
    // A single configured file; the freshly spawned child exits before it is
    // ever observed alive. The loop decides to respawn, spawns, and the fatal
    // outcome ends it.
    let mut s = ControlState::new(5000, 5000);
    let mut d = Daemon::new();
    assert_eq!(d.is_alive(PollResult::StillRunning), Ok(false));
    assert_eq!(s.decide(&Liveness::NotAlive), LoopState::NeedsRespawn);
    assert_eq!(s.plan_respawn(d.get_pid()), LoopState::NeedsRespawn);
    assert_eq!(pick_file_index(1), 0);
    d.execute(SpawnResult::Spawned(42));
    assert_eq!(d.is_alive(PollResult::HasExited), Ok(false));
    let fatal = s.apply_spawn_result(d.get_pid());
    assert!(fatal);
}

#[test]
fn elapsed_time_accumulates_by_ticks_and_saturates() {
    let mut s = ControlState::new(5000, 5000);
    s.advance_time();
    assert_eq!(s.elapsed_ms, 100);
    s.advance_time();
    assert_eq!(s.elapsed_ms, 200);
    s.elapsed_ms = u64::MAX - 50;
    s.advance_time();
    assert_eq!(s.elapsed_ms, u64::MAX);
}

#[test]
fn wait_seconds_convert_to_milliseconds_and_saturate() {
    assert_eq!(millis_from_seconds(0), 0);
    assert_eq!(millis_from_seconds(5), 5000);
    assert_eq!(millis_from_seconds(u64::MAX), u64::MAX);
}
