use lazymc::config::Config;
use lazymc::server::{ExitOutcome, Server, ServerStatus, State};

fn config() -> Config {
    Config {
        command: String::from("java -Xmx1G -jar server.jar"),
        directory: None,
        wake_on_crash: false,
        start_timeout: 300,
        stop_timeout: 150,
        min_online_time: 60,
        sleep_after: 60,
        rcon_enabled: false,
        rcon_port: 25575,
        rcon_password: String::new(),
    }
}

fn status(players_online: u32) -> ServerStatus {
    ServerStatus {
        players_online,
        players_max: 20,
    }
}

#[test]
fn state_codes_round_trip() {
    let all = [State::Stopped, State::Starting, State::Started, State::Stopping];
    for (i, s) in all.iter().enumerate() {
        assert_eq!(s.to_u8(), i as u8);
        assert_eq!(State::from_u8(i as u8), *s);
    }
}

#[test]
fn fresh_server_is_stopped_and_empty() {
    let s = Server::default();
    assert_eq!(s.state(), State::Stopped);
    assert_eq!(s.pid(), None);
    assert_eq!(s.status(), None);
    assert!(!s.has_process());
    assert!(!s.should_kill(u64::MAX));
    assert!(!s.should_sleep(&config(), u64::MAX));
}

#[test]
fn only_first_start_wins_admission() {
    let c = config();
    let mut s = Server::default();
    assert!(s.start(&c, 1_000));
    assert_eq!(s.state(), State::Starting);
    // every further attempt is a no-op
    assert!(!s.start(&c, 1_001));
    assert!(!s.start(&c, 1_002));
    assert_eq!(s.state(), State::Starting);
}

#[test]
fn start_refused_while_not_stopped_changes_nothing() {
    let c = config();
    let mut s = Server::default();
    s.start(&c, 1_000);
    s.update_status(&c, Some(status(0)), 2_000);
    assert_eq!(s.state(), State::Started);
    let kill_before = s.should_kill(2_000);
    assert!(!s.start(&c, 3_000));
    assert_eq!(s.state(), State::Started);
    assert_eq!(s.status(), Some(status(0)));
    assert_eq!(s.should_kill(2_000), kill_before);
}

#[test]
fn kill_deadline_scenario() {
    // start timeout of 30 seconds: the deadline sits exactly 30 s after the
    // start call, and the kill decision flips just past it
    let mut c = config();
    c.start_timeout = 30;
    let mut s = Server::default();
    let now: u64 = 100_000;
    assert!(s.start(&c, now));
    assert!(!s.should_kill(now));
    assert!(!s.should_kill(now + 29_999));
    assert!(s.should_kill(now + 30_000));
    assert!(s.should_kill(now + 31_000));
}

#[test]
fn kill_deadline_cleared_once_started() {
    let mut c = config();
    c.start_timeout = 30;
    let mut s = Server::default();
    let now: u64 = 100_000;
    s.start(&c, now);
    assert!(s.should_kill(now + 31_000));
    // coming online clears the deadline, so the decision reverts to false
    s.update_status(&c, Some(status(0)), now + 5_000);
    assert!(!s.should_kill(now + 31_000));
    assert!(!s.should_kill(u64::MAX));
}

#[test]
fn zero_start_timeout_sets_no_deadline() {
    let mut c = config();
    c.start_timeout = 0;
    let mut s = Server::default();
    assert!(s.start(&c, 1_000));
    assert!(!s.should_kill(u64::MAX));
}

#[test]
fn sleep_after_idle_scenario() {
    // sleep-after of 60 s and no minimum online time: with zero players the
    // server may sleep exactly once 60 s have passed since it came online
    let mut c = config();
    c.sleep_after = 60;
    c.min_online_time = 0;
    let mut s = Server::default();
    s.start(&c, 0);
    let t0: u64 = 10_000;
    s.update_status(&c, Some(status(0)), t0);
    assert_eq!(s.state(), State::Started);
    assert!(!s.should_sleep(&c, t0));
    assert!(!s.should_sleep(&c, t0 + 59_000));
    assert!(s.should_sleep(&c, t0 + 60_000));
    assert!(s.should_sleep(&c, t0 + 61_000));
}

#[test]
fn players_online_block_sleep() {
    let mut c = config();
    c.min_online_time = 0;
    let mut s = Server::default();
    s.start(&c, 0);
    s.update_status(&c, Some(status(3)), 1_000);
    assert_eq!(s.state(), State::Started);
    // however long idle, online players forbid sleeping
    assert!(!s.should_sleep(&c, u64::MAX));
}

#[test]
fn min_online_time_blocks_sleep_right_after_start() {
    let mut c = config();
    c.min_online_time = 120;
    c.sleep_after = 0;
    let mut s = Server::default();
    s.start(&c, 0);
    let t0: u64 = 1_000;
    // zero players, yet freshly started: keep-online holds sleep back
    s.update_status(&c, Some(status(0)), t0);
    assert!(!s.should_sleep(&c, t0));
    assert!(!s.should_sleep(&c, t0 + 120_000));
    assert!(s.should_sleep(&c, t0 + 120_001));
}

#[test]
fn unknown_activity_baseline_never_sleeps() {
    let c = config();
    let mut s = Server::default();
    // force the register online without ever passing through Starting, so
    // no activity baseline exists
    s.update_status(&c, Some(status(0)), 1_000);
    s.update_status(&c, None, 2_000);
    s.update_status(&c, Some(status(0)), 3_000);
    assert_eq!(s.state(), State::Started);
    assert_eq!(s.status(), Some(status(0)));
    // no player was ever seen and no Starting -> Started transition ran,
    // so the activity baseline is unknown and sleep is never granted
    assert!(!s.should_sleep(&c, u64::MAX));
}

#[test]
fn absent_status_while_started_stops_and_keeps_status() {
    let c = config();
    let mut s = Server::default();
    s.start(&c, 0);
    s.update_status(&c, Some(status(5)), 1_000);
    assert_eq!(s.state(), State::Started);
    assert_eq!(s.status(), Some(status(5)));
    s.update_status(&c, None, 2_000);
    assert_eq!(s.state(), State::Stopped);
    // sticky: the cached status survives going offline
    assert_eq!(s.status(), Some(status(5)));
}

#[test]
fn present_status_while_stopped_starts_and_caches() {
    let c = config();
    let mut s = Server::default();
    s.update_status(&c, Some(status(2)), 1_000);
    assert_eq!(s.state(), State::Started);
    assert_eq!(s.status(), Some(status(2)));
    // a newer report overwrites the cache
    s.update_status(&c, Some(status(7)), 2_000);
    assert_eq!(s.status(), Some(status(7)));
}

#[test]
fn absent_status_while_stopped_changes_nothing() {
    let c = config();
    let mut s = Server::default();
    s.update_status(&c, None, 1_000);
    assert_eq!(s.state(), State::Stopped);
    assert_eq!(s.status(), None);
}

#[test]
fn absent_status_while_starting_changes_no_phase() {
    let c = config();
    let mut s = Server::default();
    s.start(&c, 0);
    assert_eq!(s.state(), State::Starting);
    // an unreachable server while still starting is expected: no transition
    s.update_status(&c, None, 1_000);
    assert_eq!(s.state(), State::Starting);
}

#[test]
fn present_status_while_stopping_changes_no_phase() {
    let c = config();
    let mut s = Server::default();
    s.update_status(&c, Some(status(0)), 1_000);
    s.confirm_rcon_stop(&c, 2_000);
    assert_eq!(s.state(), State::Stopping);
    // a late report while stopping moves nothing, but is still cached
    s.update_status(&c, Some(status(4)), 3_000);
    assert_eq!(s.state(), State::Stopping);
    assert_eq!(s.status(), Some(status(4)));
}

#[test]
fn crash_while_started_restarts_automatically() {
    let mut c = config();
    c.wake_on_crash = true;
    let mut s = Server::default();
    assert!(s.start(&c, 0));
    s.set_pid(4242);
    assert!(s.has_process());
    s.update_status(&c, Some(status(0)), 1_000);
    assert_eq!(s.state(), State::Started);
    // the process exits with a failure code while fully online
    let crashed = s.classify_exit(ExitOutcome::Failure);
    assert!(crashed);
    s.clear_pid();
    assert!(!s.has_process());
    let restart = s.finish_exit(&c, crashed, 2_000);
    assert_eq!(s.state(), State::Stopped);
    assert!(restart);
    // the supervisor re-enters Starting without an external start call
    assert!(s.start(&c, 2_500));
    assert_eq!(s.state(), State::Starting);
}

#[test]
fn failure_exit_while_starting_is_no_crash() {
    let mut c = config();
    c.wake_on_crash = true;
    let mut s = Server::default();
    s.start(&c, 0);
    assert_eq!(s.state(), State::Starting);
    let crashed = s.classify_exit(ExitOutcome::Failure);
    assert!(!crashed);
    s.clear_pid();
    let restart = s.finish_exit(&c, crashed, 1_000);
    assert_eq!(s.state(), State::Stopped);
    assert!(!restart);
}

#[test]
fn wait_failure_counts_as_clean_stop() {
    let c = config();
    let mut s = Server::default();
    s.start(&c, 0);
    s.update_status(&c, Some(status(0)), 1_000);
    let crashed = s.classify_exit(ExitOutcome::WaitFailed);
    assert!(!crashed);
    let restart = s.finish_exit(&c, crashed, 2_000);
    assert_eq!(s.state(), State::Stopped);
    assert!(!restart);
}

#[test]
fn success_exit_without_restart_flag() {
    let mut c = config();
    c.wake_on_crash = false;
    let mut s = Server::default();
    s.start(&c, 0);
    s.update_status(&c, Some(status(0)), 1_000);
    let crashed = s.classify_exit(ExitOutcome::Failure);
    assert!(crashed);
    let restart = s.finish_exit(&c, crashed, 2_000);
    assert!(!restart);
}

#[test]
fn rcon_stop_path() {
    let mut c = config();
    c.rcon_enabled = true;
    c.stop_timeout = 150;
    let mut s = Server::default();
    s.start(&c, 0);
    s.set_pid(99);
    assert!(!s.rcon_stop_applicable(&c));
    s.update_status(&c, Some(status(0)), 1_000);
    assert!(s.rcon_stop_applicable(&c));
    assert!(s.confirm_rcon_stop(&c, 2_000));
    assert_eq!(s.state(), State::Stopping);
    // stop timeout of 150 s starts running at confirmation
    assert!(!s.should_kill(2_000 + 149_999));
    assert!(s.should_kill(2_000 + 150_000));
}

#[test]
fn rcon_stop_disabled_in_config() {
    let mut c = config();
    c.rcon_enabled = false;
    let mut s = Server::default();
    s.update_status(&c, Some(status(0)), 1_000);
    assert!(!s.rcon_stop_applicable(&c));
}

#[test]
fn signal_stop_from_starting_and_started() {
    let c = config();
    let mut s = Server::default();
    s.start(&c, 0);
    assert_eq!(s.state(), State::Starting);
    assert!(s.confirm_signal_stop(&c, 1_000));
    assert_eq!(s.state(), State::Stopping);
    // a second confirmation has nothing left to move
    assert!(!s.confirm_signal_stop(&c, 1_500));
    assert_eq!(s.state(), State::Stopping);

    let mut t = Server::default();
    t.update_status(&c, Some(status(0)), 1_000);
    assert_eq!(t.state(), State::Started);
    assert!(t.confirm_signal_stop(&c, 2_000));
    assert_eq!(t.state(), State::Stopping);
}

#[test]
fn signal_stop_on_stopped_server_is_refused() {
    let c = config();
    let mut s = Server::default();
    assert!(!s.confirm_signal_stop(&c, 1_000));
    assert_eq!(s.state(), State::Stopped);
}

#[test]
fn finish_exit_forces_stop_even_mid_stopping() {
    let c = config();
    let mut s = Server::default();
    s.start(&c, 0);
    s.update_status(&c, Some(status(0)), 1_000);
    s.confirm_rcon_stop(&c, 2_000);
    assert_eq!(s.state(), State::Stopping);
    let restart = s.finish_exit(&c, false, 3_000);
    assert_eq!(s.state(), State::Stopped);
    assert!(!restart);
    // leaving Stopping cleared the stop-timeout kill deadline
    assert!(!s.should_kill(u64::MAX));
}
