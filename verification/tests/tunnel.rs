use trusttunnel_keenetic::config::{RoutingSettings, TunnelSettings};
use trusttunnel_keenetic::routing::command::{Device, OsCommand};
use trusttunnel_keenetic::routing::setup::RoutingError;
use trusttunnel_keenetic::tunnel::monitor::{
    ChildPoll, Monitor, MonitorAction, MonitorEvent, MonitorStage,
};
use trusttunnel_keenetic::tunnel::terminate::{kill_child, KillAction, KillEvent};
use trusttunnel_keenetic::tunnel::{
    Observation, Phase, SpawnVerdict, TunnelManager, TunnelStatus, WatchdogVerdict,
    RESTART_SETTLE_MS,
};

fn settings() -> TunnelSettings {
    TunnelSettings {
        hostname: "vpn.example.com".into(),
        addresses: vec!["203.0.113.5:443".into()],
        reconnect_delay: 5,
        ..Default::default()
    }
}

fn routing(failures: u32) -> RoutingSettings {
    RoutingSettings { watchdog_failures: failures, ..Default::default() }
}

fn manager() -> TunnelManager {
    TunnelManager::new(settings(), &routing(3), 0)
}

/// A supervisor whose tunnel runs as process 4242 with active routing via eth3.
fn connected() -> TunnelManager {
    let mut m = manager();
    assert!(matches!(m.start(), Ok(Some(_))));
    assert!(matches!(m.spawned(Ok(4242), 1_000), SpawnVerdict::Adopted { setup: Some(_) }));
    m.routing_setup_done(Ok("eth3".into()));
    m
}

#[test]
fn status_defaults_to_disconnected() {
    let st = TunnelStatus::default();
    assert!(!st.connected);
    assert_eq!(st.uptime_seconds, 0);
    assert_eq!(st.last_error, "");
    assert_eq!(st.pid, None);
}

#[test]
fn start_spawns_and_reports_connected() {
    let mut m = manager();
    let st = m.get_status(10);
    assert!(!st.connected);
    assert_eq!(st.pid, None);

    let req = m.start().unwrap().unwrap();
    assert_eq!(req.program, "/opt/bin/trusttunnel_client");
    assert_eq!(req.config_path, "/opt/etc/trusttunnel/trusttunnel_client.toml");
    assert_eq!(
        req.args,
        vec!["--config", "/opt/etc/trusttunnel/trusttunnel_client.toml", "--loglevel", "info"]
    );
    assert!(req.config.contains("hostname = \"vpn.example.com\""));
    assert!(req.config.contains("addresses = [\"203.0.113.5:443\"]"));
    assert!(!m.is_running());

    match m.spawned(Ok(4242), 1_000) {
        SpawnVerdict::Adopted { setup } => assert_eq!(setup, Some(vec!["203.0.113.5:443".to_string()])),
        other => panic!("unexpected {:?}", other),
    }
    assert!(m.is_running());
    assert!(m.routing_setup_in_progress());
    assert!(!m.routing_active());

    let st = m.get_status(4_500);
    assert!(st.connected);
    assert_eq!(st.pid, Some(4242));
    assert_eq!(st.uptime_seconds, 3);
    assert_eq!(st.last_error, "");

    m.routing_setup_done(Ok("eth3".into()));
    assert!(m.routing_active());
    assert!(!m.routing_setup_in_progress());
    assert_eq!(m.last_wan_interface(), "eth3");
}

#[test]
fn start_needs_an_endpoint() {
    let mut s = settings();
    s.hostname = String::new();
    let mut m = TunnelManager::new(s, &routing(3), 0);
    assert_eq!(m.start().unwrap_err(), "Endpoint hostname and addresses are required");
    let mut s = settings();
    s.addresses = vec![];
    let mut m = TunnelManager::new(s, &routing(3), 0);
    assert_eq!(m.start().unwrap_err(), "Endpoint hostname and addresses are required");
    assert!(!m.is_running());
}

#[test]
fn start_without_endpoint_fails_even_while_a_process_is_awaited() {
    let mut m = manager();
    assert!(matches!(m.start(), Ok(Some(_))));
    let mut s = settings();
    s.hostname = String::new();
    m.update_settings(s);
    m.stop();
    assert_eq!(m.start().unwrap_err(), "Endpoint hostname and addresses are required");
    assert!(m.should_stop());
    assert!(!m.is_running());
    assert_eq!(m.phase(), Phase::Stopping);
    assert!(matches!(m.spawned(Ok(3), 0), SpawnVerdict::Discard(3)));

    let mut m = connected();
    let mut s = settings();
    s.addresses = vec![];
    m.update_settings(s);
    assert!(matches!(m.start(), Ok(None)));
}

#[test]
fn start_is_idempotent() {
    let mut m = connected();
    assert!(matches!(m.start(), Ok(None)));
    assert_eq!(m.get_status(2_000).pid, Some(4242));

    let mut m = manager();
    assert!(matches!(m.start(), Ok(Some(_))));
    assert!(matches!(m.start(), Ok(None)));
}

#[test]
fn spawn_failure_is_reported_and_recorded() {
    let mut m = manager();
    m.start().unwrap();
    match m.spawned(Err("Failed to spawn /opt/bin/trusttunnel_client: not found".into()), 5) {
        SpawnVerdict::Failed(e) => assert!(e.contains("Failed to spawn")),
        other => panic!("unexpected {:?}", other),
    }
    assert!(!m.is_running());
    assert!(m.get_status(5).last_error.contains("Failed to spawn"));
    assert!(matches!(m.start(), Ok(Some(_))));
}

#[test]
fn process_that_arrives_after_stop_is_discarded() {
    let mut m = manager();
    m.start().unwrap();
    let plan = m.stop();
    assert_eq!(plan.terminate, None);
    assert!(matches!(m.spawned(Ok(7), 5), SpawnVerdict::Discard(7)));
    assert!(!m.get_status(5).connected);
    assert!(matches!(m.spawned(Ok(8), 5), SpawnVerdict::Discard(8)));
}

#[test]
fn stop_terminates_and_tears_down_only_what_is_there() {
    let mut m = connected();
    let plan = m.stop();
    assert_eq!(plan.terminate, Some(4242));
    assert_eq!(plan.teardown, Some(vec!["203.0.113.5:443".to_string()]));
    assert!(m.should_stop());
    assert!(!m.is_running());
    assert!(!m.routing_active());
    let st = m.get_status(9_000);
    assert!(!st.connected);
    assert_eq!(st.pid, None);
    assert_eq!(st.uptime_seconds, 0);

    let again = m.stop();
    assert_eq!(again.terminate, None);
    assert_eq!(again.teardown, None);

    let mut m = manager();
    m.start().unwrap();
    m.spawned(Ok(1), 0);
    let plan = m.stop();
    assert_eq!(plan.terminate, Some(1));
    assert_eq!(plan.teardown, None);
}

#[test]
fn restart_stops_then_lets_start_again() {
    let mut m = connected();
    let plan = m.restart();
    assert_eq!(plan.terminate, Some(4242));
    assert_eq!(RESTART_SETTLE_MS, 1000);
    assert!(matches!(m.start(), Ok(Some(_))));
    assert!(!m.should_stop());
}

#[test]
fn routing_setup_is_never_triggered_twice() {
    let mut m = manager();
    assert_eq!(m.spawn_routing_setup(), Some(vec!["203.0.113.5:443".to_string()]));
    assert_eq!(m.spawn_routing_setup(), None);
    assert_eq!(m.spawn_routing_setup(), None);
    m.routing_setup_done(Err(RoutingError::WanUndetected));
    assert!(!m.routing_active());
    assert_eq!(m.get_status(0).last_error, "[routing] setup failed: failed to detect WAN interface");
    assert!(m.spawn_routing_setup().is_some());
    m.routing_setup_abandoned();
    assert!(m.spawn_routing_setup().is_some());

    let off = RoutingSettings { enabled: false, ..Default::default() };
    let mut m = TunnelManager::new(settings(), &off, 0);
    assert_eq!(m.spawn_routing_setup(), None);
    assert!(!m.routing_setup_in_progress());
}

#[test]
fn update_settings_takes_effect_at_the_next_start() {
    let mut m = connected();
    let mut s = settings();
    s.loglevel = "debug".into();
    s.reconnect_delay = 9;
    m.update_settings(s);
    assert_eq!(m.get_status(2_000).pid, Some(4242));
    assert_eq!(m.settings().loglevel, "debug");
    m.stop();
    let req = m.start().unwrap().unwrap();
    assert_eq!(req.args[3], "debug");
}

fn probe(m: &mut TunnelManager, reached: bool) -> WatchdogVerdict {
    m.run_watchdog_check(Observation::Probe(reached))
}

#[test]
fn watchdog_counts_failures_up_to_the_threshold() {
    let mut m = connected();
    assert!(matches!(probe(&mut m, false), WatchdogVerdict::Settled));
    assert_eq!(m.watchdog_failures(), 1);
    assert!(matches!(probe(&mut m, false), WatchdogVerdict::Settled));
    assert_eq!(m.watchdog_failures(), 2);
    assert!(matches!(probe(&mut m, true), WatchdogVerdict::Settled));
    assert_eq!(m.watchdog_failures(), 0);
    assert!(matches!(probe(&mut m, false), WatchdogVerdict::Settled));
    assert!(matches!(probe(&mut m, false), WatchdogVerdict::Settled));
    assert!(m.get_status(0).connected);
    assert!(matches!(probe(&mut m, false), WatchdogVerdict::Restart(Some(4242))));
    assert_eq!(m.watchdog_failures(), 0);
    assert!(!m.get_status(0).connected);
    assert_eq!(
        m.get_status(0).last_error,
        "[watchdog] connectivity lost (3 failures), restarting..."
    );
}

#[test]
fn watchdog_reroutes_on_a_new_upstream_interface() {
    let mut m = connected();
    probe(&mut m, false);
    let same = m.run_watchdog_check(Observation::Routes(Ok("default via 1.1.1.1 dev eth3\n".into())));
    assert!(matches!(same, WatchdogVerdict::GoOn));
    assert_eq!(m.watchdog_failures(), 1);
    let none = m.run_watchdog_check(Observation::Routes(Err("ip failed".into())));
    assert!(matches!(none, WatchdogVerdict::GoOn));
    let changed = m.run_watchdog_check(Observation::Routes(Ok("default via 1.1.1.1 dev ppp0\n".into())));
    match changed {
        WatchdogVerdict::Reroute(wan) => assert_eq!(wan, "ppp0"),
        other => panic!("unexpected {:?}", other),
    }
    assert_eq!(m.last_wan_interface(), "ppp0");
    assert_eq!(m.watchdog_failures(), 0);
    let st = m.get_status(2_000);
    assert!(st.connected);
    assert_eq!(st.pid, Some(4242));
    assert_eq!(st.last_error, "");
    assert!(m.is_running());
    assert!(m.routing_active());
    assert_eq!(m.phase(), Phase::Running);
}

#[test]
fn watchdog_restarts_when_the_device_is_gone() {
    let mut m = connected();
    assert!(matches!(m.run_watchdog_check(Observation::Device(true)), WatchdogVerdict::GoOn));
    assert!(m.get_status(0).connected);
    let v = m.run_watchdog_check(Observation::Device(false));
    assert!(matches!(v, WatchdogVerdict::Restart(Some(4242))));
    assert_eq!(m.phase(), Phase::Crashed);
    assert_eq!(
        m.get_status(0).last_error,
        "[watchdog] OpkgTun0 interface disappeared, restarting..."
    );
    let v = m.run_watchdog_check(Observation::Device(false));
    assert!(matches!(v, WatchdogVerdict::Restart(None)));
}

#[test]
fn full_restart_gives_up_the_process() {
    let mut m = connected();
    assert_eq!(m.full_restart("connectivity lost (3 failures)"), Some(4242));
    assert_eq!(m.watchdog_failures(), 0);
    assert_eq!(
        m.get_status(0).last_error,
        "[watchdog] connectivity lost (3 failures), restarting..."
    );
}

#[test]
fn watchdog_waits_for_its_interval() {
    let mut m = manager();
    assert!(!m.watchdog_check_due(1_000_000));
    let mut m = connected();
    assert!(!m.watchdog_check_due(29_999));
    assert!(m.watchdog_check_due(30_000));
    assert!(!m.watchdog_check_due(59_999));
    assert!(m.watchdog_check_due(60_000));
    let off = RoutingSettings { watchdog_enabled: false, ..Default::default() };
    let mut m = TunnelManager::new(settings(), &off, 0);
    m.routing_setup_done(Ok("eth3".into()));
    assert!(!m.watchdog_check_due(1_000_000));
}

fn begin(m: &mut TunnelManager) -> (Monitor, MonitorAction) {
    m.monitor_loop()
}

#[test]
fn monitor_idles_until_the_tunnel_runs() {
    let mut m = manager();
    let (mut mon, first) = begin(&mut m);
    assert!(matches!(first, MonitorAction::Sleep(500)));
    assert!(matches!(mon.step(&mut m, 500, MonitorEvent::Slept), MonitorAction::Sleep(500)));
    m.start().unwrap();
    m.spawned(Ok(77), 600);
    assert!(matches!(mon.step(&mut m, 1000, MonitorEvent::Slept), MonitorAction::PollChild(77)));
}

/// Answers `Slept` for as long as the monitor waits the reconnect delay;
/// gives the milliseconds waited, the longest pause and the next action.
fn wait_out(mon: &mut Monitor, m: &mut TunnelManager, first: MonitorAction) -> (u64, u64, MonitorAction) {
    let mut action = first;
    let mut total = 0u64;
    let mut longest = 0u64;
    loop {
        match action {
            MonitorAction::Sleep(ms) if mon.stage == MonitorStage::RespawnDelay => {
                total += ms;
                longest = longest.max(ms);
                action = mon.step(m, 0, MonitorEvent::Slept);
            }
            other => return (total, longest, other),
        }
    }
}

#[test]
fn monitor_idles_while_stopped_and_watches_again() {
    let mut m = connected();
    let (mut mon, first) = begin(&mut m);
    assert!(matches!(first, MonitorAction::PollChild(4242)));
    m.stop();
    let a = mon.step(&mut m, 10, MonitorEvent::Child { pid: 4242, poll: ChildPoll::Alive });
    assert!(matches!(a, MonitorAction::Sleep(500)));
    for round in 0..5u64 {
        let a = mon.step(&mut m, 510 + round * 500, MonitorEvent::Slept);
        assert!(matches!(a, MonitorAction::Sleep(500)));
        assert_eq!(mon.stage, MonitorStage::Pause);
    }
    assert!(matches!(m.start(), Ok(Some(_))));
    assert!(matches!(mon.step(&mut m, 3_000, MonitorEvent::Slept), MonitorAction::Sleep(500)));
    assert!(matches!(m.spawned(Ok(99), 3_100), SpawnVerdict::Adopted { .. }));
    assert!(matches!(mon.step(&mut m, 3_500, MonitorEvent::Slept), MonitorAction::PollChild(99)));
    let a = mon.step(&mut m, 3_500, MonitorEvent::Child { pid: 99, poll: ChildPoll::Exited(Some(3)) });
    let st = m.get_status(3_500);
    assert!(!st.connected);
    assert_eq!(st.last_error, "[tunnel] process exited: 3");
    let (waited, longest, next) = wait_out(&mut mon, &mut m, a);
    assert_eq!(waited, 5_000);
    assert_eq!(longest, 500);
    assert!(matches!(next, MonitorAction::Spawn(_)));
}

#[test]
fn process_exit_is_recorded_and_the_process_respawned() {
    let mut m = connected();
    let (mut mon, _) = begin(&mut m);
    let a = mon.step(&mut m, 2_000, MonitorEvent::Child { pid: 4242, poll: ChildPoll::Exited(Some(1)) });
    match a {
        MonitorAction::Teardown(addresses) => assert_eq!(addresses, vec!["203.0.113.5:443"]),
        other => panic!("unexpected {:?}", other),
    }
    let st = m.get_status(2_000);
    assert!(!st.connected);
    assert_eq!(st.pid, None);
    assert!(st.last_error.contains("process exited: 1"));
    assert_eq!(st.last_error, "[tunnel] process exited: 1");
    assert!(!m.routing_active());

    let first = mon.step(&mut m, 2_100, MonitorEvent::Done);
    assert!(matches!(first, MonitorAction::Sleep(500)));
    assert_eq!(mon.remaining_ms, 4_500);
    let (waited, longest, a) = wait_out(&mut mon, &mut m, first);
    assert_eq!(waited, 5_000);
    assert_eq!(longest, 500);
    match a {
        MonitorAction::Spawn(req) => assert_eq!(req.program, "/opt/bin/trusttunnel_client"),
        other => panic!("unexpected {:?}", other),
    }
    let a = mon.step(&mut m, 7_200, MonitorEvent::Spawned(Ok(5000)));
    match a {
        MonitorAction::BeginSetup(addresses) => assert_eq!(addresses, vec!["203.0.113.5:443"]),
        other => panic!("unexpected {:?}", other),
    }
    assert!(matches!(mon.step(&mut m, 7_200, MonitorEvent::Launched(true)), MonitorAction::Sleep(500)));
    let st = m.get_status(8_200);
    assert!(st.connected);
    assert_eq!(st.pid, Some(5000));
    assert_eq!(st.uptime_seconds, 1);
    assert!(m.routing_setup_in_progress());
    assert!(matches!(mon.step(&mut m, 8_000, MonitorEvent::Slept), MonitorAction::PollChild(5000)));
}

#[test]
fn exit_by_signal_is_reported_as_minus_one() {
    let mut m = connected();
    let (mut mon, _) = begin(&mut m);
    mon.step(&mut m, 0, MonitorEvent::Child { pid: 4242, poll: ChildPoll::Exited(None) });
    assert_eq!(m.get_status(0).last_error, "[tunnel] process exited: -1");
}

#[test]
fn failed_respawn_is_recorded_and_tried_again() {
    let mut m = connected();
    let (mut mon, _) = begin(&mut m);
    mon.step(&mut m, 0, MonitorEvent::Child { pid: 4242, poll: ChildPoll::Exited(Some(0)) });
    let first = mon.step(&mut m, 0, MonitorEvent::Done);
    let (_, _, a) = wait_out(&mut mon, &mut m, first);
    assert!(matches!(a, MonitorAction::Spawn(_)));
    let a = mon.step(&mut m, 5_000, MonitorEvent::Spawned(Err("no binary".into())));
    assert!(matches!(a, MonitorAction::Sleep(500)));
    assert_eq!(mon.stage, MonitorStage::Pause);
    assert_eq!(m.get_status(5_000).last_error, "no binary");
    assert!(m.is_running());
    let first = mon.step(&mut m, 5_500, MonitorEvent::Slept);
    assert_eq!(mon.stage, MonitorStage::RespawnDelay);
    let (waited, _, a) = wait_out(&mut mon, &mut m, first);
    assert_eq!(waited, 5_000);
    assert!(matches!(a, MonitorAction::Spawn(_)));
}

#[test]
fn stop_during_the_reconnect_delay_cancels_the_respawn() {
    let mut m = connected();
    let (mut mon, _) = begin(&mut m);
    mon.step(&mut m, 0, MonitorEvent::Child { pid: 4242, poll: ChildPoll::Exited(Some(1)) });
    assert!(matches!(mon.step(&mut m, 0, MonitorEvent::Done), MonitorAction::Sleep(500)));
    assert!(matches!(mon.step(&mut m, 500, MonitorEvent::Slept), MonitorAction::Sleep(500)));
    assert_eq!(mon.stage, MonitorStage::RespawnDelay);
    m.stop();
    let a = mon.step(&mut m, 1_000, MonitorEvent::Slept);
    assert!(matches!(a, MonitorAction::Sleep(500)));
    assert_eq!(mon.stage, MonitorStage::Pause);
    assert_eq!(m.phase(), Phase::Stopped);
    assert_eq!(m.child(), None);
    assert!(!m.routing_setup_in_progress());
    assert!(matches!(mon.step(&mut m, 1_500, MonitorEvent::Slept), MonitorAction::Sleep(500)));
    assert_eq!(mon.stage, MonitorStage::Pause);
}

#[test]
fn new_reconnect_delay_is_waited_at_the_next_loss() {
    let mut m = connected();
    let (mut mon, _) = begin(&mut m);
    let mut s = settings();
    s.reconnect_delay = 2;
    m.update_settings(s);
    mon.step(&mut m, 0, MonitorEvent::Child { pid: 4242, poll: ChildPoll::Exited(Some(1)) });
    let first = mon.step(&mut m, 0, MonitorEvent::Done);
    let (waited, _, a) = wait_out(&mut mon, &mut m, first);
    assert_eq!(waited, 2_000);
    assert!(matches!(a, MonitorAction::Spawn(_)));
    mon.step(&mut m, 0, MonitorEvent::Spawned(Ok(7)));
    mon.step(&mut m, 0, MonitorEvent::Launched(true));

    let mut s = settings();
    s.reconnect_delay = 0;
    m.update_settings(s);
    mon.step(&mut m, 0, MonitorEvent::Slept);
    let first = mon.step(&mut m, 0, MonitorEvent::Child { pid: 7, poll: ChildPoll::Exited(None) });
    assert!(matches!(first, MonitorAction::Sleep(0)));
    let (waited, _, a) = wait_out(&mut mon, &mut m, first);
    assert_eq!(waited, 0);
    assert!(matches!(a, MonitorAction::Spawn(_)));
}

#[test]
fn reconnect_delay_that_is_no_whole_number_of_ticks() {
    let mut s = settings();
    s.reconnect_delay = u64::MAX;
    let mut m = TunnelManager::new(s, &routing(3), 0);
    m.start().unwrap();
    m.spawned(Ok(1), 0);
    let (mut mon, _) = begin(&mut m);
    let a = mon.step(&mut m, 0, MonitorEvent::Child { pid: 1, poll: ChildPoll::Exited(None) });
    assert!(matches!(a, MonitorAction::Sleep(500)));
    assert_eq!(mon.remaining_ms, u64::MAX as u128 * 1000 - 500);
}

#[test]
fn threshold_of_zero_restarts_at_the_first_failure() {
    let mut m = TunnelManager::new(settings(), &routing(0), 0);
    assert!(matches!(probe(&mut m, false), WatchdogVerdict::Restart(None)));
    assert_eq!(
        m.get_status(0).last_error,
        "[watchdog] connectivity lost (1 failures), restarting..."
    );
    assert_eq!(m.watchdog_failures(), 0);
    assert_eq!(m.watchdog_max_failures(), 0);
}

fn watching(m: &mut TunnelManager) -> Monitor {
    let (mut mon, _) = begin(m);
    let a = mon.step(m, 31_000, MonitorEvent::Child { pid: 4242, poll: ChildPoll::Alive });
    assert!(matches!(a, MonitorAction::ProbeDevice(Device::Target)));
    mon
}

fn probe_fails(mon: &mut Monitor, m: &mut TunnelManager, now: u64) -> MonitorAction {
    let a = mon.step(m, now, MonitorEvent::Child { pid: 4242, poll: ChildPoll::Alive });
    assert!(matches!(a, MonitorAction::ProbeDevice(Device::Target)), "{:?}", a);
    let a = mon.step(m, now, MonitorEvent::Present(true));
    assert!(matches!(a, MonitorAction::Run(OsCommand::DefaultRouteShow)));
    let a = mon.step(m, now, MonitorEvent::Command(Ok("default via 1.1.1.1 dev eth3\n".into())));
    match a {
        MonitorAction::Run(OsCommand::Probe { url, timeout_secs }) => {
            assert_eq!(url, "http://connectivitycheck.gstatic.com/generate_204");
            assert_eq!(timeout_secs, 5);
        }
        other => panic!("unexpected {:?}", other),
    }
    mon.step(m, now, MonitorEvent::Probed { result: Err("curl: (7) failed".into()), os_not_found: false })
}

#[test]
fn three_failed_probes_restart_the_tunnel() {
    let mut m = connected();
    let (mut mon, _) = begin(&mut m);
    assert!(matches!(probe_fails(&mut mon, &mut m, 31_000), MonitorAction::Sleep(500)));
    assert_eq!(m.watchdog_failures(), 1);
    assert!(matches!(mon.step(&mut m, 31_500, MonitorEvent::Slept), MonitorAction::PollChild(4242)));
    let a = mon.step(&mut m, 31_500, MonitorEvent::Child { pid: 4242, poll: ChildPoll::Alive });
    assert!(matches!(a, MonitorAction::Sleep(500)));
    mon.step(&mut m, 61_000, MonitorEvent::Slept);
    assert!(matches!(probe_fails(&mut mon, &mut m, 61_000), MonitorAction::Sleep(500)));
    assert_eq!(m.watchdog_failures(), 2);
    mon.step(&mut m, 91_000, MonitorEvent::Slept);
    let a = probe_fails(&mut mon, &mut m, 91_000);
    assert!(matches!(a, MonitorAction::Terminate(4242)), "{:?}", a);
    assert_eq!(m.watchdog_failures(), 0);
    let st = m.get_status(91_000);
    assert!(!st.connected);
    assert_eq!(st.last_error, "[watchdog] connectivity lost (3 failures), restarting...");
    let a = mon.step(&mut m, 91_100, MonitorEvent::Done);
    assert!(matches!(a, MonitorAction::Teardown(_)));
    let first = mon.step(&mut m, 91_200, MonitorEvent::Done);
    let (waited, _, a) = wait_out(&mut mon, &mut m, first);
    assert_eq!(waited, 5_000);
    assert!(matches!(a, MonitorAction::Spawn(_)));
}

#[test]
fn a_probe_that_goes_through_resets_the_count() {
    let mut m = connected();
    let (mut mon, _) = begin(&mut m);
    probe_fails(&mut mon, &mut m, 31_000);
    assert_eq!(m.watchdog_failures(), 1);
    mon.step(&mut m, 61_000, MonitorEvent::Slept);
    mon.step(&mut m, 61_000, MonitorEvent::Child { pid: 4242, poll: ChildPoll::Unknown });
    mon.step(&mut m, 61_000, MonitorEvent::Present(true));
    mon.step(&mut m, 61_000, MonitorEvent::Command(Err("ip failed".into())));
    let a = mon.step(&mut m, 61_000, MonitorEvent::Probed { result: Ok(String::new()), os_not_found: false });
    assert!(matches!(a, MonitorAction::Sleep(500)));
    assert_eq!(m.watchdog_failures(), 0);
    assert!(m.get_status(61_000).connected);
}

#[test]
fn missing_device_restarts_at_once() {
    let mut m = connected();
    let mut mon = watching(&mut m);
    let a = mon.step(&mut m, 31_000, MonitorEvent::Present(false));
    assert!(matches!(a, MonitorAction::Terminate(4242)));
    assert_eq!(
        m.get_status(31_000).last_error,
        "[watchdog] OpkgTun0 interface disappeared, restarting..."
    );
}

#[test]
fn wan_change_reroutes_without_restart() {
    let mut m = connected();
    let mut mon = watching(&mut m);
    mon.step(&mut m, 31_000, MonitorEvent::Present(true));
    probe(&mut m, false);
    let a = mon.step(&mut m, 31_000, MonitorEvent::Command(Ok("default via 1.1.1.1 dev ppp0\n".into())));
    match a {
        MonitorAction::Reroute { addresses, wan } => {
            assert_eq!(addresses, vec!["203.0.113.5:443"]);
            assert_eq!(wan, "ppp0");
        }
        other => panic!("unexpected {:?}", other),
    }
    assert_eq!(m.last_wan_interface(), "ppp0");
    assert_eq!(m.watchdog_failures(), 0);
    let st = m.get_status(31_000);
    assert!(st.connected);
    assert_eq!(st.pid, Some(4242));
    assert!(m.is_running());
    assert!(m.routing_active());
    assert!(matches!(mon.step(&mut m, 31_100, MonitorEvent::Done), MonitorAction::Sleep(500)));
    assert!(matches!(mon.step(&mut m, 31_600, MonitorEvent::Slept), MonitorAction::PollChild(4242)));
}

#[test]
fn watchdog_probes_directly_without_the_tool() {
    let mut m = connected();
    let mut mon = watching(&mut m);
    mon.step(&mut m, 31_000, MonitorEvent::Present(true));
    mon.step(&mut m, 31_000, MonitorEvent::Command(Ok("default via 1.1.1.1 dev eth3\n".into())));
    let a = mon.step(
        &mut m,
        31_000,
        MonitorEvent::Probed { result: Err("sh: curl: not found".into()), os_not_found: false },
    );
    match a {
        MonitorAction::Http { url, timeout_secs } => {
            assert_eq!(url, "http://connectivitycheck.gstatic.com/generate_204");
            assert_eq!(timeout_secs, 5);
        }
        other => panic!("unexpected {:?}", other),
    }
    assert!(matches!(mon.step(&mut m, 31_000, MonitorEvent::Http(Some(503))), MonitorAction::Sleep(500)));
    assert_eq!(m.watchdog_failures(), 1);
}

#[test]
fn stale_answers_end_the_round() {
    let mut m = connected();
    let (mut mon, _) = begin(&mut m);
    let a = mon.step(&mut m, 0, MonitorEvent::Child { pid: 1, poll: ChildPoll::Exited(Some(1)) });
    assert!(matches!(a, MonitorAction::Sleep(500)));
    assert!(m.get_status(0).connected);
    mon.step(&mut m, 500, MonitorEvent::Slept);
    assert!(matches!(mon.step(&mut m, 500, MonitorEvent::Http(None)), MonitorAction::Sleep(500)));
    assert!(m.get_status(500).connected);
}

#[test]
fn termination_asks_first_then_kills() {
    let mut t = kill_child(4242);
    assert_eq!(t.pending(), KillAction::Signal(4242));
    assert_eq!(t.step(KillEvent::Performed), KillAction::Poll(4242));
    assert_eq!(t.step(KillEvent::Polled(false)), KillAction::Sleep(100));
    assert_eq!(t.step(KillEvent::Performed), KillAction::Poll(4242));
    assert_eq!(t.step(KillEvent::Polled(true)), KillAction::Kill(4242));
    assert_eq!(t.step(KillEvent::Performed), KillAction::Reap(4242));
    assert_eq!(t.step(KillEvent::Performed), KillAction::Done);
    assert_eq!(t.step(KillEvent::Performed), KillAction::Done);
}

#[test]
fn stubborn_process_is_killed_after_five_seconds() {
    let mut t = kill_child(9);
    let mut slept = 0u64;
    let mut polls = 0u32;
    let mut action = t.step(KillEvent::Performed);
    loop {
        match action {
            KillAction::Poll(9) => {
                polls += 1;
                action = t.step(KillEvent::Polled(false));
            }
            KillAction::Sleep(ms) => {
                slept += ms;
                action = t.step(KillEvent::Performed);
            }
            KillAction::Kill(9) => break,
            other => panic!("unexpected {:?}", other),
        }
    }
    assert_eq!(polls, 50);
    assert_eq!(slept, 5_000);
    assert_eq!(t.step(KillEvent::Performed), KillAction::Reap(9));
    assert_eq!(t.step(KillEvent::Performed), KillAction::Done);
}

#[test]
fn phases_follow_the_life_of_the_tunnel() {
    let mut m = manager();
    assert_eq!(m.phase(), Phase::Stopped);
    m.start().unwrap();
    assert_eq!(m.phase(), Phase::Starting);
    m.spawned(Ok(10), 0);
    assert_eq!(m.phase(), Phase::Running);
    m.child_exited(10, Some(1));
    assert_eq!(m.phase(), Phase::Crashed);
    assert!(m.respawn().is_some());
    assert_eq!(m.phase(), Phase::Reconnecting);
    assert!(m.respawn().is_none());
    m.spawned(Err("x".into()), 0);
    assert_eq!(m.phase(), Phase::Crashed);
    m.respawn();
    m.stop();
    assert_eq!(m.phase(), Phase::Stopping);
    assert!(matches!(m.spawned(Ok(11), 0), SpawnVerdict::Discard(11)));
    assert_eq!(m.phase(), Phase::Stopped);
    assert!(m.respawn().is_none());
    m.start().unwrap();
    m.spawned(Ok(12), 0);
    assert_eq!(m.full_restart("test"), Some(12));
    assert_eq!(m.phase(), Phase::Crashed);
    m.stop();
    assert_eq!(m.phase(), Phase::Stopped);
}

#[test]
fn start_during_a_pending_spawn_lets_it_through() {
    let mut m = manager();
    m.start().unwrap();
    m.stop();
    assert_eq!(m.phase(), Phase::Stopping);
    assert!(matches!(m.start(), Ok(None)));
    assert_eq!(m.phase(), Phase::Starting);
    assert!(matches!(m.spawned(Ok(5), 0), SpawnVerdict::Adopted { .. }));
    assert_eq!(m.phase(), Phase::Running);
}
