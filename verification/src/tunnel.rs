//! The tunnel supervisor: what it knows of the tunnel client's process and
//! of the routing, and how each call and each observation changes that.
pub mod laws;
pub mod monitor;
pub mod terminate;

use crate::config::{
    client_toml, clone_strings, generate_client_toml, RoutingSettings, RoutingSettingsView,
    TunnelSettings, TunnelSettingsView,
};
use crate::decimal::{decimal, push_decimal, push_signed_decimal, signed_decimal};
use crate::routing::command::push_arg;
use crate::routing::outcome::text_result;
use crate::routing::parse::{current_wan_interface, option_text, wan_of};
use crate::routing::setup::{error_message, RoutingError, RoutingErrorView};
use crate::text::{chars_of, extend_chars, str_eq, string_of, strings};
use vstd::prelude::*;

verus! {

/// What a caller is told of the tunnel.
#[derive(Debug)]
pub struct TunnelStatus {
    pub connected: bool,
    pub uptime_seconds: u64,
    pub last_error: String,
    pub pid: Option<u32>,
}

pub struct TunnelStatusView {
    pub connected: bool,
    pub uptime_seconds: u64,
    pub last_error: Seq<char>,
    pub pid: Option<u32>,
}

impl View for TunnelStatus {
    type V = TunnelStatusView;

    open spec fn view(&self) -> TunnelStatusView {
        TunnelStatusView {
            connected: self.connected,
            uptime_seconds: self.uptime_seconds,
            last_error: self.last_error@,
            pid: self.pid,
        }
    }
}

impl Default for TunnelStatus {
    fn default() -> (r: Self)
        ensures
            r@ == (TunnelStatusView {
                connected: false,
                uptime_seconds: 0,
                last_error: Seq::empty(),
                pid: None,
            }),
    {
        TunnelStatus { connected: false, uptime_seconds: 0, last_error: String::new(), pid: None }
    }
}

/// The process of the tunnel client that the supervisor holds: its
/// process number and the time at which it was started.
#[derive(Clone, Copy, PartialEq, Eq, Debug, Structural)]
pub struct Child {
    pub pid: u32,
    pub since_ms: u64,
}

/// Who asked for the process that is being started.
#[derive(Clone, Copy, PartialEq, Eq, Debug, Structural)]
pub enum SpawnKind {
    /// A call of `start`.
    Start,
    /// The monitor, after the process was lost.
    Respawn,
}

/// What it takes to start the tunnel client: the configuration to write
/// and where, the program and its arguments.
#[derive(Debug)]
pub struct SpawnRequest {
    pub program: String,
    pub config_path: String,
    pub config: String,
    pub args: Vec<String>,
}

pub struct SpawnRequestView {
    pub program: Seq<char>,
    pub config_path: Seq<char>,
    pub config: Seq<char>,
    pub args: Seq<Seq<char>>,
}

impl View for SpawnRequest {
    type V = SpawnRequestView;

    open spec fn view(&self) -> SpawnRequestView {
        SpawnRequestView {
            program: self.program@,
            config_path: self.config_path@,
            config: self.config@,
            args: strings(self.args@),
        }
    }
}

/// The program of the tunnel client.
pub open spec fn client_bin() -> Seq<char> {
    "/opt/bin/trusttunnel_client"@
}

/// The file from which the tunnel client reads its configuration.
pub open spec fn client_toml_path() -> Seq<char> {
    "/opt/etc/trusttunnel/trusttunnel_client.toml"@
}

/// The request to start the tunnel client with the settings `s`.
pub open spec fn spawn_request(s: TunnelSettingsView) -> SpawnRequestView {
    SpawnRequestView {
        program: client_bin(),
        config_path: client_toml_path(),
        config: client_toml(s),
        args: seq!["--config"@, client_toml_path(), "--loglevel"@, s.loglevel],
    }
}

/// What has to be done to stop the tunnel: the process to terminate, and
/// the endpoints whose routing is to be torn down.
#[derive(Debug)]
pub struct StopPlan {
    pub terminate: Option<u32>,
    pub teardown: Option<Vec<String>>,
}

pub struct StopPlanView {
    pub terminate: Option<u32>,
    pub teardown: Option<Seq<Seq<char>>>,
}

/// The texts of an optional list of strings.
pub open spec fn option_strings(v: Option<Vec<String>>) -> Option<Seq<Seq<char>>> {
    match v {
        Some(list) => Some(strings(list@)),
        None => None,
    }
}

impl View for StopPlan {
    type V = StopPlanView;

    open spec fn view(&self) -> StopPlanView {
        StopPlanView { terminate: self.terminate, teardown: option_strings(self.teardown) }
    }
}

/// What became of a process that was started for the supervisor.
#[derive(Debug)]
pub enum SpawnVerdict {
    /// The supervisor holds the process now; where `setup` names
    /// endpoints, the routing is to be set up for them in the background.
    Adopted { setup: Option<Vec<String>> },
    /// No process came to be; the text says why.
    Failed(String),
    /// The supervisor does not want the process: it is to be terminated.
    Discard(u32),
}

pub enum SpawnVerdictView {
    Adopted { setup: Option<Seq<Seq<char>>> },
    Failed(Seq<char>),
    Discard(u32),
}

impl View for SpawnVerdict {
    type V = SpawnVerdictView;

    open spec fn view(&self) -> SpawnVerdictView {
        match *self {
            SpawnVerdict::Adopted { setup } => SpawnVerdictView::Adopted {
                setup: option_strings(setup),
            },
            SpawnVerdict::Failed(e) => SpawnVerdictView::Failed(e@),
            SpawnVerdict::Discard(pid) => SpawnVerdictView::Discard(pid),
        }
    }
}

/// The supervisor of the tunnel.
#[derive(Debug)]
pub struct TunnelManager {
    settings: TunnelSettings,
    last_error: String,
    child: Option<Child>,
    spawning: Option<SpawnKind>,
    running: bool,
    should_stop: bool,
    routing_enabled: bool,
    routing_active: bool,
    routing_setup_in_progress: bool,
    watchdog_enabled: bool,
    watchdog_interval: u64,
    watchdog_max_failures: u32,
    watchdog_check_url: String,
    watchdog_check_timeout: u64,
    watchdog_failures: u32,
    last_watchdog_check: u64,
    last_wan_interface: String,
}

/// The mathematical content of a [`TunnelManager`].
pub struct ManagerView {
    /// The settings that the next start of the tunnel client uses.
    pub settings: TunnelSettingsView,
    /// The most recent error.
    pub last_error: Seq<char>,
    /// The process of the tunnel client that the supervisor holds.
    pub child: Option<Child>,
    /// Whether a process is being started, and for whom.
    pub spawning: Option<SpawnKind>,
    /// Whether the tunnel is meant to run.
    pub running: bool,
    /// Whether the supervisor has been told to stop.
    pub should_stop: bool,
    /// Whether the supervisor manages routes at all.
    pub routing_enabled: bool,
    /// Whether a routing setup has completed and was not torn down since.
    pub routing_active: bool,
    /// Whether a routing setup is under way.
    pub routing_setup_in_progress: bool,
    pub watchdog_enabled: bool,
    /// The seconds between two checks of the watchdog.
    pub watchdog_interval: u64,
    /// The number of failed probes in a row at which the tunnel restarts.
    pub watchdog_max_failures: u32,
    pub watchdog_check_url: Seq<char>,
    /// The seconds that a probe of the watchdog may take.
    pub watchdog_check_timeout: u64,
    /// The number of probes that failed in a row.
    pub watchdog_failures: u32,
    /// When the watchdog checked last.
    pub last_watchdog_check: u64,
    /// The upstream interface that the servers' host routes go through.
    pub last_wan_interface: Seq<char>,
}

impl View for TunnelManager {
    type V = ManagerView;

    closed spec fn view(&self) -> ManagerView {
        ManagerView {
            settings: self.settings@,
            last_error: self.last_error@,
            child: self.child,
            spawning: self.spawning,
            running: self.running,
            should_stop: self.should_stop,
            routing_enabled: self.routing_enabled,
            routing_active: self.routing_active,
            routing_setup_in_progress: self.routing_setup_in_progress,
            watchdog_enabled: self.watchdog_enabled,
            watchdog_interval: self.watchdog_interval,
            watchdog_max_failures: self.watchdog_max_failures,
            watchdog_check_url: self.watchdog_check_url@,
            watchdog_check_timeout: self.watchdog_check_timeout,
            watchdog_failures: self.watchdog_failures,
            last_watchdog_check: self.last_watchdog_check,
            last_wan_interface: self.last_wan_interface@,
        }
    }
}

/// The phase that the tunnel is in.
#[derive(Clone, Copy, PartialEq, Eq, Debug, Structural)]
pub enum Phase {
    /// The tunnel is not meant to run and nothing is under way.
    Stopped,
    /// A process is being started for a tunnel that does not run yet.
    Starting,
    /// The supervisor holds the process of the tunnel client.
    Running,
    /// The tunnel is meant to run, but its process is lost.
    Crashed,
    /// A process is being started in place of one that was lost.
    Reconnecting,
    /// The supervisor was told to stop while a process was being started;
    /// the process will be discarded when it arrives.
    Stopping,
}

/// The phase of a supervisor.
pub open spec fn phase_of(m: ManagerView) -> Phase {
    if m.child is Some {
        Phase::Running
    } else if m.spawning is Some {
        if m.should_stop {
            Phase::Stopping
        } else if m.running {
            Phase::Reconnecting
        } else {
            Phase::Starting
        }
    } else if m.running {
        Phase::Crashed
    } else {
        Phase::Stopped
    }
}

/// A supervisor that was just made, at the time `now_ms`: stopped, with
/// no process and no routing.
pub open spec fn fresh(
    settings: TunnelSettingsView,
    routing: RoutingSettingsView,
    now_ms: u64,
) -> ManagerView {
    ManagerView {
        settings,
        last_error: Seq::empty(),
        child: None,
        spawning: None,
        running: false,
        should_stop: false,
        routing_enabled: routing.enabled,
        routing_active: false,
        routing_setup_in_progress: false,
        watchdog_enabled: routing.watchdog_enabled,
        watchdog_interval: routing.watchdog_interval,
        watchdog_max_failures: routing.watchdog_failures,
        watchdog_check_url: routing.watchdog_check_url,
        watchdog_check_timeout: routing.watchdog_check_timeout,
        watchdog_failures: 0,
        last_watchdog_check: now_ms,
        last_wan_interface: Seq::empty(),
    }
}

/// The milliseconds from `since_ms` to `now_ms`; none where the clock went
/// back.
pub open spec fn since(since_ms: u64, now_ms: u64) -> u64 {
    if now_ms >= since_ms {
        (now_ms - since_ms) as u64
    } else {
        0
    }
}

/// What a caller is told of the tunnel at the time `now_ms`. The tunnel is
/// connected while the supervisor holds its process; the uptime is counted
/// from the start of that process.
pub open spec fn status_of(m: ManagerView, now_ms: u64) -> TunnelStatusView {
    TunnelStatusView {
        connected: m.child is Some,
        uptime_seconds: match m.child {
            Some(c) => since(c.since_ms, now_ms) / 1000,
            None => 0,
        },
        last_error: m.last_error,
        pid: match m.child {
            Some(c) => Some(c.pid),
            None => None,
        },
    }
}

/// Whether the settings name an endpoint: a host name and an address.
pub open spec fn endpoint_configured(s: TunnelSettingsView) -> bool {
    s.hostname.len() > 0 && s.addresses.len() > 0
}

pub open spec fn config_error() -> Seq<char> {
    "Endpoint hostname and addresses are required"@
}

/// What `start` does. Where the tunnel runs, nothing. Else, without an
/// endpoint, an error, and nothing changes. Else, where a process is being
/// started already, that start is let through; and where none is, a
/// process is asked for.
pub open spec fn start_spec(m: ManagerView) -> (
    ManagerView,
    Result<Option<SpawnRequestView>, Seq<char>>,
) {
    if m.running {
        (m, Ok(None))
    } else if !endpoint_configured(m.settings) {
        (m, Err(config_error()))
    } else if m.spawning is Some {
        (ManagerView { should_stop: false, ..m }, Ok(None))
    } else {
        (
            ManagerView { should_stop: false, spawning: Some(SpawnKind::Start), ..m },
            Ok(Some(spawn_request(m.settings))),
        )
    }
}

/// What an answer of `start` holds.
pub open spec fn start_answer(r: Result<Option<SpawnRequest>, String>) -> Result<
    Option<SpawnRequestView>,
    Seq<char>,
> {
    match r {
        Ok(Some(request)) => Ok(Some(request@)),
        Ok(None) => Ok(None),
        Err(e) => Err(e@),
    }
}

/// What triggering a routing setup does: nothing where routing is not
/// managed or a setup is under way; else the setup is marked as under way
/// and the endpoints are handed out for it.
pub open spec fn trigger_setup_spec(m: ManagerView) -> (ManagerView, Option<Seq<Seq<char>>>) {
    if !m.routing_enabled || m.routing_setup_in_progress {
        (m, None)
    } else {
        (ManagerView { routing_setup_in_progress: true, ..m }, Some(m.settings.addresses))
    }
}

/// What the outcome of starting a process does. A process that was not
/// asked for, or that arrives after the supervisor was told to stop or
/// while it holds another, is discarded. A failure is recorded. Else the
/// process is adopted: the tunnel runs, the last error is cleared, and a
/// routing setup is triggered.
pub open spec fn spawned_spec(m: ManagerView, result: Result<u32, Seq<char>>, now_ms: u64) -> (
    ManagerView,
    SpawnVerdictView,
) {
    let m0 = ManagerView { spawning: None, ..m };
    match result {
        Err(e) => (ManagerView { last_error: e, ..m0 }, SpawnVerdictView::Failed(e)),
        Ok(pid) => if m.spawning is None || m.should_stop || m.child is Some {
            (m0, SpawnVerdictView::Discard(pid))
        } else {
            let m1 = ManagerView {
                child: Some(Child { pid, since_ms: now_ms }),
                last_error: Seq::empty(),
                running: true,
                watchdog_failures: if m.spawning == Some(SpawnKind::Respawn) {
                    0
                } else {
                    m.watchdog_failures
                },
                ..m0
            };
            (trigger_setup_spec(m1).0, SpawnVerdictView::Adopted { setup: trigger_setup_spec(m1).1 })
        },
    }
}

/// The process number or the text that the outcome of a start holds.
pub open spec fn spawn_result(r: Result<u32, String>) -> Result<u32, Seq<char>> {
    match r {
        Ok(p) => Ok(p),
        Err(e) => Err(e@),
    }
}

/// What the end of a routing setup holds.
pub open spec fn setup_result(r: Result<String, RoutingError>) -> Result<
    Seq<char>,
    RoutingErrorView,
> {
    match r {
        Ok(w) => Ok(w@),
        Err(e) => Err(e@),
    }
}

pub open spec fn setup_failure_text(e: RoutingErrorView) -> Seq<char> {
    "[routing] setup failed: "@ + error_message(e)
}

/// What the end of a routing setup does: no setup is under way any more;
/// a setup that succeeded makes the routing active and its upstream
/// interface known; one that failed is recorded as the last error.
pub open spec fn setup_done_spec(m: ManagerView, result: Result<Seq<char>, RoutingErrorView>) -> ManagerView {
    match result {
        Ok(wan) => ManagerView {
            routing_setup_in_progress: false,
            routing_active: true,
            last_wan_interface: wan,
            ..m
        },
        Err(e) => ManagerView {
            routing_setup_in_progress: false,
            last_error: setup_failure_text(e),
            ..m
        },
    }
}

/// What tearing the routing down does, where it is active: it is active
/// no more, and the endpoints are handed out for the teardown.
pub open spec fn teardown_spec(m: ManagerView) -> (ManagerView, Option<Seq<Seq<char>>>) {
    if m.routing_active {
        (ManagerView { routing_active: false, ..m }, Some(m.settings.addresses))
    } else {
        (m, None)
    }
}

/// What giving the process up does: the supervisor holds none any more,
/// and the process that it held is handed out to be terminated.
pub open spec fn kill_spec(m: ManagerView) -> (ManagerView, Option<u32>) {
    (
        ManagerView { child: None, ..m },
        match m.child {
            Some(c) => Some(c.pid),
            None => None,
        },
    )
}

/// What `stop` does.
pub open spec fn stop_spec(m: ManagerView) -> (ManagerView, StopPlanView) {
    let flagged = ManagerView { should_stop: true, running: false, ..m };
    let killed = kill_spec(flagged);
    let torn = teardown_spec(killed.0);
    (torn.0, StopPlanView { terminate: killed.1, teardown: torn.1 })
}

/// The exit code to report: that of the process, or -1 where a signal
/// ended it.
pub open spec fn exit_code(code: Option<i32>) -> int {
    match code {
        Some(c) => c as int,
        None => -1,
    }
}

pub open spec fn exit_text(code: Option<i32>) -> Seq<char> {
    "[tunnel] process exited: "@ + signed_decimal(exit_code(code))
}

/// What seeing the process `pid` gone does, where the supervisor holds it:
/// the supervisor holds none any more and the exit is recorded.
pub open spec fn child_exited_spec(m: ManagerView, pid: u32, code: Option<i32>) -> ManagerView {
    if m.child is Some && m.child->0.pid == pid {
        ManagerView { child: None, last_error: exit_text(code), ..m }
    } else {
        m
    }
}

/// Whether the supervisor may start a process again after one was lost:
/// the tunnel is meant to run, the supervisor was not told to stop, and it
/// neither holds nor awaits a process.
pub open spec fn may_respawn(m: ManagerView) -> bool {
    m.running && !m.should_stop && m.child is None && m.spawning is None
}

pub open spec fn option_request(r: Option<SpawnRequest>) -> Option<SpawnRequestView> {
    match r {
        Some(request) => Some(request@),
        None => None,
    }
}

/// What asking for a process after one was lost does.
pub open spec fn respawn_spec(m: ManagerView) -> (ManagerView, Option<SpawnRequestView>) {
    if may_respawn(m) {
        (
            ManagerView { spawning: Some(SpawnKind::Respawn), ..m },
            Some(spawn_request(m.settings)),
        )
    } else {
        (m, None)
    }
}

/// Whether the watchdog is to check at the time `now_ms`: it is enabled,
/// the routing is active, and the interval since its last check is over.
pub open spec fn watchdog_due(m: ManagerView, now_ms: u64) -> bool {
    m.watchdog_enabled && m.routing_active && since(m.last_watchdog_check, now_ms) / 1000
        >= m.watchdog_interval
}

pub open spec fn watchdog_due_spec(m: ManagerView, now_ms: u64) -> (ManagerView, bool) {
    if watchdog_due(m, now_ms) {
        (ManagerView { last_watchdog_check: now_ms, ..m }, true)
    } else {
        (m, false)
    }
}

pub open spec fn restart_text(reason: Seq<char>) -> Seq<char> {
    "[watchdog] "@ + reason + ", restarting..."@
}

/// What a full restart does at its outset: the reason is recorded, the
/// count of failed probes starts over, and the process is given up.
pub open spec fn full_restart_spec(m: ManagerView, reason: Seq<char>) -> (
    ManagerView,
    Option<u32>,
) {
    kill_spec(ManagerView { last_error: restart_text(reason), watchdog_failures: 0, ..m })
}

/// The upstream interface to move the server routes to, given the listing
/// of default routes: the one that the listing names, where one was known
/// before and this one is another.
pub open spec fn wan_change(m: ManagerView, table: Result<Seq<char>, Seq<char>>) -> Option<
    Seq<char>,
> {
    match wan_of(table) {
        Some(w) => if m.last_wan_interface.len() > 0 && w != m.last_wan_interface {
            Some(w)
        } else {
            None
        },
        None => None,
    }
}

/// What seeing the listing of default routes does: where the upstream
/// interface changed, the new one is remembered and the count of failed
/// probes starts over.
pub open spec fn wan_seen_spec(m: ManagerView, table: Result<Seq<char>, Seq<char>>) -> (
    ManagerView,
    Option<Seq<char>>,
) {
    match wan_change(m, table) {
        Some(w) => (
            ManagerView { last_wan_interface: w, watchdog_failures: 0, ..m },
            Some(w),
        ),
        None => (m, None),
    }
}

/// The count of failed probes after one more failed: one more, up to the
/// largest count that can be kept.
pub open spec fn bumped(m: ManagerView) -> u32 {
    if m.watchdog_failures < u32::MAX {
        (m.watchdog_failures + 1) as u32
    } else {
        m.watchdog_failures
    }
}

pub open spec fn lost_text(fails: u32) -> Seq<char> {
    "connectivity lost ("@ + decimal(fails as nat) + " failures)"@
}

/// What the outcome of a probe does: a probe that went through resets the
/// count of failed probes; one that failed raises it, and where the count
/// reaches the threshold, the reason for a full restart is given.
pub open spec fn probe_spec(m: ManagerView, reached: bool) -> (ManagerView, Option<Seq<char>>) {
    if reached {
        (ManagerView { watchdog_failures: 0, ..m }, None)
    } else {
        (
            ManagerView { watchdog_failures: bumped(m), ..m },
            if bumped(m) >= m.watchdog_max_failures {
                Some(lost_text(bumped(m)))
            } else {
                None
            },
        )
    }
}

/// What the watchdog saw at one of its looks.
#[derive(Debug)]
pub enum Observation {
    /// Whether the tunnel device exists.
    Device(bool),
    /// How the listing of default routes ended.
    Routes(Result<String, String>),
    /// Whether the probe through the tunnel went through.
    Probe(bool),
}

pub enum ObservationView {
    Device(bool),
    Routes(Result<Seq<char>, Seq<char>>),
    Probe(bool),
}

impl View for Observation {
    type V = ObservationView;

    open spec fn view(&self) -> ObservationView {
        match *self {
            Observation::Device(alive) => ObservationView::Device(alive),
            Observation::Routes(table) => ObservationView::Routes(text_result(table)),
            Observation::Probe(reached) => ObservationView::Probe(reached),
        }
    }
}

/// What the watchdog makes of a look.
#[derive(Debug)]
pub enum WatchdogVerdict {
    /// Nothing is wrong so far: the next look follows, at the routes after
    /// the device, at the probe after the routes.
    GoOn,
    /// The check is over and nothing is to be done.
    Settled,
    /// The upstream interface has changed: the servers' host routes are to
    /// be moved to this one. The tunnel is not restarted.
    Reroute(String),
    /// A full restart has begun: the process, where one was held, is to be
    /// terminated, then the tunnel client is started again.
    Restart(Option<u32>),
}

pub enum WatchdogVerdictView {
    GoOn,
    Settled,
    Reroute(Seq<char>),
    Restart(Option<u32>),
}

impl View for WatchdogVerdict {
    type V = WatchdogVerdictView;

    open spec fn view(&self) -> WatchdogVerdictView {
        match *self {
            WatchdogVerdict::GoOn => WatchdogVerdictView::GoOn,
            WatchdogVerdict::Settled => WatchdogVerdictView::Settled,
            WatchdogVerdict::Reroute(wan) => WatchdogVerdictView::Reroute(wan@),
            WatchdogVerdict::Restart(pid) => WatchdogVerdictView::Restart(pid),
        }
    }
}

/// The reason for a restart where the tunnel device is gone.
pub open spec fn device_gone() -> Seq<char> {
    "OpkgTun0 interface disappeared"@
}

/// What the watchdog does at a look. A missing tunnel device begins a
/// full restart. A change of the upstream interface is answered by moving
/// the server routes, not by a restart: the new interface is remembered
/// and the count of failed probes starts over, and nothing else changes.
/// A probe that went through resets the count; one that failed raises it,
/// and where the count reaches the threshold a full restart begins.
pub open spec fn watchdog_spec(m: ManagerView, o: ObservationView) -> (
    ManagerView,
    WatchdogVerdictView,
) {
    match o {
        ObservationView::Device(alive) => if alive {
            (m, WatchdogVerdictView::GoOn)
        } else {
            (
                full_restart_spec(m, device_gone()).0,
                WatchdogVerdictView::Restart(full_restart_spec(m, device_gone()).1),
            )
        },
        ObservationView::Routes(table) => match wan_seen_spec(m, table).1 {
            Some(wan) => (wan_seen_spec(m, table).0, WatchdogVerdictView::Reroute(wan)),
            None => (m, WatchdogVerdictView::GoOn),
        },
        ObservationView::Probe(reached) => match probe_spec(m, reached).1 {
            Some(reason) => (
                full_restart_spec(probe_spec(m, reached).0, reason).0,
                WatchdogVerdictView::Restart(
                    full_restart_spec(probe_spec(m, reached).0, reason).1,
                ),
            ),
            None => (probe_spec(m, reached).0, WatchdogVerdictView::Settled),
        },
    }
}

/// Milliseconds to let the system settle between the two halves of a
/// restart.
pub const RESTART_SETTLE_MS: u64 = 1000;

impl TunnelManager {
    /// Makes a supervisor for the given settings, at the time `now_ms` of a
    /// clock that does not go back.
    pub fn new(settings: TunnelSettings, routing: &RoutingSettings, now_ms: u64) -> (r: Self)
        ensures
            r@ == fresh(settings@, routing@, now_ms),
    {
        TunnelManager {
            settings,
            last_error: String::new(),
            child: None,
            spawning: None,
            running: false,
            should_stop: false,
            routing_enabled: routing.enabled,
            routing_active: false,
            routing_setup_in_progress: false,
            watchdog_enabled: routing.watchdog_enabled,
            watchdog_interval: routing.watchdog_interval,
            watchdog_max_failures: routing.watchdog_failures,
            watchdog_check_url: routing.watchdog_check_url.clone(),
            watchdog_check_timeout: routing.watchdog_check_timeout,
            watchdog_failures: 0,
            last_watchdog_check: now_ms,
            last_wan_interface: String::new(),
        }
    }

    /// What is to be told of the tunnel at the time `now_ms`.
    pub fn get_status(&self, now_ms: u64) -> (r: TunnelStatus)
        ensures
            r@ == status_of(self@, now_ms),
    {
        match self.child {
            Some(c) => {
                let elapsed: u64 = if now_ms >= c.since_ms {
                    now_ms - c.since_ms
                } else {
                    0
                };
                TunnelStatus {
                    connected: true,
                    uptime_seconds: elapsed / 1000,
                    last_error: self.last_error.clone(),
                    pid: Some(c.pid),
                }
            },
            None => TunnelStatus {
                connected: false,
                uptime_seconds: 0,
                last_error: self.last_error.clone(),
                pid: None,
            },
        }
    }

    /// Replaces the settings. They take effect when the tunnel client is
    /// next started.
    pub fn update_settings(&mut self, new: TunnelSettings)
        ensures
            final(self)@ == (ManagerView { settings: new@, ..old(self)@ }),
    {
        self.settings = new;
    }

    /// A copy of the settings.
    pub fn settings(&self) -> (r: TunnelSettings)
        ensures
            r@ == self@.settings,
    {
        self.settings.duplicate()
    }

    /// Whether the tunnel is meant to run.
    pub fn is_running(&self) -> (r: bool)
        ensures
            r == self@.running,
    {
        self.running
    }

    /// Whether the supervisor has been told to stop.
    pub fn should_stop(&self) -> (r: bool)
        ensures
            r == self@.should_stop,
    {
        self.should_stop
    }

    /// Whether a routing setup has completed and was not torn down since.
    pub fn routing_active(&self) -> (r: bool)
        ensures
            r == self@.routing_active,
    {
        self.routing_active
    }

    /// Whether a routing setup is under way.
    pub fn routing_setup_in_progress(&self) -> (r: bool)
        ensures
            r == self@.routing_setup_in_progress,
    {
        self.routing_setup_in_progress
    }

    /// The number of probes that failed in a row.
    pub fn watchdog_failures(&self) -> (r: u32)
        ensures
            r == self@.watchdog_failures,
    {
        self.watchdog_failures
    }

    /// The number of failed probes in a row at which the tunnel restarts.
    pub fn watchdog_max_failures(&self) -> (r: u32)
        ensures
            r == self@.watchdog_max_failures,
    {
        self.watchdog_max_failures
    }

    /// The upstream interface that the servers' host routes go through.
    pub fn last_wan_interface(&self) -> (r: String)
        ensures
            r@ == self@.last_wan_interface,
    {
        self.last_wan_interface.clone()
    }

    /// The phase that the tunnel is in.
    pub fn phase(&self) -> (r: Phase)
        ensures
            r == phase_of(self@),
    {
        if self.child.is_some() {
            Phase::Running
        } else if self.spawning.is_some() {
            if self.should_stop {
                Phase::Stopping
            } else if self.running {
                Phase::Reconnecting
            } else {
                Phase::Starting
            }
        } else if self.running {
            Phase::Crashed
        } else {
            Phase::Stopped
        }
    }

    /// The process that the supervisor holds.
    pub fn child(&self) -> (r: Option<Child>)
        ensures
            r == self@.child,
    {
        self.child
    }

    fn request(&self) -> (r: SpawnRequest)
        ensures
            r@ == spawn_request(self@.settings),
    {
        let mut args: Vec<String> = Vec::new();
        push_arg(&mut args, "--config");
        push_arg(&mut args, "/opt/etc/trusttunnel/trusttunnel_client.toml");
        push_arg(&mut args, "--loglevel");
        push_arg(&mut args, self.settings.loglevel.as_str());
        let r = SpawnRequest {
            program: "/opt/bin/trusttunnel_client".to_owned(),
            config_path: "/opt/etc/trusttunnel/trusttunnel_client.toml".to_owned(),
            config: generate_client_toml(&self.settings),
            args,
        };
        assert(r@.args =~= spawn_request(self@.settings).args);
        r
    }

    /// Starts the tunnel. `Ok(None)` says that nothing is to be done;
    /// `Ok(Some(..))` asks for a process, whose start is to be reported
    /// with [`TunnelManager::spawned`]; an error says that the tunnel does
    /// not run and the settings name no endpoint.
    pub fn start(&mut self) -> (r: Result<Option<SpawnRequest>, String>)
        ensures
            final(self)@ == start_spec(old(self)@).0,
            start_answer(r) == start_spec(old(self)@).1,
    {
        if self.running {
            return Ok(None);
        }
        if self.settings.hostname.as_str().is_empty() || self.settings.addresses.len() == 0 {
            return Err("Endpoint hostname and addresses are required".to_owned());
        }
        if self.spawning.is_some() {
            self.should_stop = false;
            return Ok(None);
        }
        self.should_stop = false;
        self.spawning = Some(SpawnKind::Start);
        Ok(Some(self.request()))
    }

    /// Triggers a routing setup unless one is under way.
    pub fn spawn_routing_setup(&mut self) -> (r: Option<Vec<String>>)
        ensures
            final(self)@ == trigger_setup_spec(old(self)@).0,
            option_strings(r) == trigger_setup_spec(old(self)@).1,
    {
        if !self.routing_enabled || self.routing_setup_in_progress {
            return None;
        }
        self.routing_setup_in_progress = true;
        Some(clone_strings(&self.settings.addresses))
    }

    /// Takes the outcome of starting a process: its process number, or why
    /// it did not start.
    pub fn spawned(&mut self, result: Result<u32, String>, now_ms: u64) -> (r: SpawnVerdict)
        ensures
            final(self)@ == spawned_spec(old(self)@, spawn_result(result), now_ms).0,
            r@ == spawned_spec(old(self)@, spawn_result(result), now_ms).1,
    {
        let kind = self.spawning;
        self.spawning = None;
        match result {
            Err(e) => {
                self.last_error = e.clone();
                SpawnVerdict::Failed(e)
            },
            Ok(pid) => {
                if kind.is_none() || self.should_stop || self.child.is_some() {
                    SpawnVerdict::Discard(pid)
                } else {
                    self.child = Some(Child { pid, since_ms: now_ms });
                    self.last_error = String::new();
                    self.running = true;
                    match kind {
                        Some(SpawnKind::Respawn) => {
                            self.watchdog_failures = 0;
                        },
                        _ => {},
                    }
                    let setup = self.spawn_routing_setup();
                    SpawnVerdict::Adopted { setup }
                }
            },
        }
    }

    /// Takes the end of a routing setup: the upstream interface that it
    /// found, or why it failed.
    pub fn routing_setup_done(&mut self, result: Result<String, RoutingError>)
        ensures
            final(self)@ == setup_done_spec(old(self)@, setup_result(result)),
    {
        self.routing_setup_in_progress = false;
        match result {
            Ok(wan) => {
                self.routing_active = true;
                self.last_wan_interface = wan;
            },
            Err(e) => {
                let mut text = chars_of("[routing] setup failed: ");
                let m = e.message();
                let tail = chars_of(m.as_str());
                extend_chars(&mut text, &tail);
                self.last_error = string_of(&text);
            },
        }
    }

    /// Takes note that a routing setup could not even be begun.
    pub fn routing_setup_abandoned(&mut self)
        ensures
            final(self)@ == (ManagerView { routing_setup_in_progress: false, ..old(self)@ }),
    {
        self.routing_setup_in_progress = false;
    }

    /// Hands out the endpoints for a teardown, where the routing is
    /// active, and marks it as active no more.
    pub fn teardown_if_active(&mut self) -> (r: Option<Vec<String>>)
        ensures
            final(self)@ == teardown_spec(old(self)@).0,
            option_strings(r) == teardown_spec(old(self)@).1,
    {
        if self.routing_active {
            self.routing_active = false;
            Some(clone_strings(&self.settings.addresses))
        } else {
            None
        }
    }

    /// Gives up the process that the supervisor holds, to be terminated.
    pub fn kill_child(&mut self) -> (r: Option<u32>)
        ensures
            final(self)@ == kill_spec(old(self)@).0,
            r == kill_spec(old(self)@).1,
    {
        let r = match self.child {
            Some(c) => Some(c.pid),
            None => None,
        };
        self.child = None;
        r
    }

    /// Stops the tunnel: the supervisor is told to stop, gives up its
    /// process and, where the routing is active, has it torn down.
    pub fn stop(&mut self) -> (r: StopPlan)
        ensures
            final(self)@ == stop_spec(old(self)@).0,
            r@ == stop_spec(old(self)@).1,
    {
        self.should_stop = true;
        self.running = false;
        let terminate = self.kill_child();
        let teardown = self.teardown_if_active();
        StopPlan { terminate, teardown }
    }

    /// Begins a restart: the tunnel is stopped as by `stop`. Once the plan
    /// is carried out and [`RESTART_SETTLE_MS`] have passed, `start`
    /// completes the restart.
    pub fn restart(&mut self) -> (r: StopPlan)
        ensures
            final(self)@ == stop_spec(old(self)@).0,
            r@ == stop_spec(old(self)@).1,
    {
        self.stop()
    }

    /// Takes note that the process `pid` has ended with `code`.
    pub fn child_exited(&mut self, pid: u32, code: Option<i32>)
        ensures
            final(self)@ == child_exited_spec(old(self)@, pid, code),
    {
        let held = match self.child {
            Some(c) => c.pid == pid,
            None => false,
        };
        if held {
            self.child = None;
            let mut text = chars_of("[tunnel] process exited: ");
            let c: i32 = match code {
                Some(c) => c,
                None => -1,
            };
            push_signed_decimal(&mut text, c);
            self.last_error = string_of(&text);
        }
    }

    /// Whether a process may be started again after one was lost.
    pub fn may_respawn(&self) -> (r: bool)
        ensures
            r == may_respawn(self@),
    {
        self.running && !self.should_stop && self.child.is_none() && self.spawning.is_none()
    }

    /// Asks for a process after one was lost, where that is in order.
    pub fn respawn(&mut self) -> (r: Option<SpawnRequest>)
        ensures
            final(self)@ == respawn_spec(old(self)@).0,
            option_request(r) == respawn_spec(old(self)@).1,
    {
        if self.running && !self.should_stop && self.child.is_none() && self.spawning.is_none() {
            self.spawning = Some(SpawnKind::Respawn);
            Some(self.request())
        } else {
            None
        }
    }

    /// Tells whether the watchdog is to check now, and notes the time of
    /// the check where it is.
    pub fn watchdog_check_due(&mut self, now_ms: u64) -> (r: bool)
        ensures
            final(self)@ == watchdog_due_spec(old(self)@, now_ms).0,
            r == watchdog_due_spec(old(self)@, now_ms).1,
    {
        if !self.watchdog_enabled || !self.routing_active {
            return false;
        }
        let elapsed: u64 = if now_ms >= self.last_watchdog_check {
            now_ms - self.last_watchdog_check
        } else {
            0
        };
        if elapsed / 1000 < self.watchdog_interval {
            return false;
        }
        self.last_watchdog_check = now_ms;
        true
    }

    /// Begins a full restart for the given reason.
    pub fn full_restart(&mut self, reason: &str) -> (r: Option<u32>)
        ensures
            final(self)@ == full_restart_spec(old(self)@, reason@).0,
            r == full_restart_spec(old(self)@, reason@).1,
    {
        let mut text = chars_of("[watchdog] ");
        let why = chars_of(reason);
        extend_chars(&mut text, &why);
        let tail = chars_of(", restarting...");
        extend_chars(&mut text, &tail);
        self.last_error = string_of(&text);
        self.watchdog_failures = 0;
        self.kill_child()
    }

    /// Takes the listing of default routes and tells the upstream
    /// interface to move the server routes to, where it changed.
    pub fn reroute(&mut self, route_table: &Result<String, String>) -> (r: Option<String>)
        ensures
            final(self)@ == wan_seen_spec(old(self)@, text_result(*route_table)).0,
            option_text(r) == wan_seen_spec(old(self)@, text_result(*route_table)).1,
    {
        match current_wan_interface(route_table) {
            Some(w) => {
                if !self.last_wan_interface.as_str().is_empty() && !str_eq(
                    w.as_str(),
                    self.last_wan_interface.as_str(),
                ) {
                    self.last_wan_interface = w.clone();
                    self.watchdog_failures = 0;
                    Some(w)
                } else {
                    None
                }
            },
            None => None,
        }
    }

    /// Takes the outcome of a probe of the watchdog and tells the reason
    /// for a full restart, where one is due.
    fn note_probe(&mut self, reached: bool) -> (r: Option<String>)
        ensures
            final(self)@ == probe_spec(old(self)@, reached).0,
            option_text(r) == probe_spec(old(self)@, reached).1,
    {
        if reached {
            self.watchdog_failures = 0;
            return None;
        }
        let fails: u32 = if self.watchdog_failures < u32::MAX {
            self.watchdog_failures + 1
        } else {
            self.watchdog_failures
        };
        self.watchdog_failures = fails;
        if fails >= self.watchdog_max_failures {
            let mut text = chars_of("connectivity lost (");
            push_decimal(&mut text, fails as u64);
            let tail = chars_of(" failures)");
            extend_chars(&mut text, &tail);
            Some(string_of(&text))
        } else {
            None
        }
    }

    /// Takes what the watchdog saw at one of its looks and tells what is
    /// to be done. The looks of one check follow each other while the
    /// verdict is `GoOn`: at the device, at the routes, at the probe.
    pub fn run_watchdog_check(&mut self, observation: Observation) -> (r: WatchdogVerdict)
        ensures
            final(self)@ == watchdog_spec(old(self)@, observation@).0,
            r@ == watchdog_spec(old(self)@, observation@).1,
    {
        match observation {
            Observation::Device(alive) => {
                if alive {
                    WatchdogVerdict::GoOn
                } else {
                    WatchdogVerdict::Restart(self.full_restart("OpkgTun0 interface disappeared"))
                }
            },
            Observation::Routes(table) => match self.reroute(&table) {
                Some(wan) => WatchdogVerdict::Reroute(wan),
                None => WatchdogVerdict::GoOn,
            },
            Observation::Probe(reached) => match self.note_probe(reached) {
                Some(reason) => WatchdogVerdict::Restart(self.full_restart(reason.as_str())),
                None => WatchdogVerdict::Settled,
            },
        }
    }

    /// The address that the watchdog probes and the seconds a probe may
    /// take.
    pub fn watchdog_probe(&self) -> (r: (String, u64))
        ensures
            r.0@ == self@.watchdog_check_url,
            r.1 == self@.watchdog_check_timeout,
    {
        (self.watchdog_check_url.clone(), self.watchdog_check_timeout)
    }

    /// The seconds to wait before a lost process is started again.
    pub fn reconnect_delay(&self) -> (r: u64)
        ensures
            r == self@.settings.reconnect_delay,
    {
        self.settings.reconnect_delay
    }

    /// The endpoints of the tunnel.
    pub fn addresses(&self) -> (r: Vec<String>)
        ensures
            strings(r@) == self@.settings.addresses,
    {
        clone_strings(&self.settings.addresses)
    }
}

} // verus!
