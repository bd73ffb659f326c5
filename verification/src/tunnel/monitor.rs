//! The monitor: the loop that watches the tunnel client's process and runs
//! the watchdog, as a machine that names one action at a time.
use crate::routing::command::{Device, OsCommand, OsCommandView};
use crate::routing::outcome::{
    check_connectivity, check_connectivity_directly, direct_verdict, probe_verdict, text_result,
    Reach,
};
use crate::text::strings;
use crate::tunnel::{
    child_exited_spec, may_respawn, respawn_spec, spawn_result, spawned_spec, teardown_spec,
    watchdog_due_spec, watchdog_spec, ManagerView, Observation, ObservationView, SpawnRequest,
    SpawnRequestView, SpawnVerdict, WatchdogVerdict, WatchdogVerdictView,
    SpawnVerdictView, TunnelManager,
};
use vstd::prelude::*;

verus! {

/// The pause at the end of each round of the monitor, in milliseconds.
pub const MONITOR_TICK_MS: u64 = 500;

/// What a look at the process showed.
#[derive(Clone, Copy, PartialEq, Eq, Debug, Structural)]
pub enum ChildPoll {
    /// The process has ended, with this exit code unless a signal ended it.
    Exited(Option<i32>),
    /// The process lives.
    Alive,
    /// The look failed.
    Unknown,
}

/// Where the monitor stands. Each stage waits for the answer to the one
/// action that it named; no stage is the last.
#[derive(Clone, Copy, PartialEq, Eq, Debug, Structural)]
pub enum MonitorStage {
    /// Pausing at the end of a round.
    Pause,
    /// Looking at the process.
    Poll,
    /// Having the routing torn down before the process is started again.
    RespawnTeardown,
    /// Waiting a slice of the reconnect delay.
    RespawnDelay,
    /// Having the process started.
    Spawn,
    /// Having a routing setup begun in the background.
    BeginSetup,
    /// Having a process terminated that the supervisor does not want.
    Discard,
    /// Looking whether the tunnel device is there.
    WatchTun,
    /// Having the default routes listed.
    WatchWan,
    /// Having the server routes moved to another upstream interface.
    Reroute,
    /// Having the probe made.
    WatchProbe,
    /// Having the probe made without the probing tool.
    WatchHttp,
    /// Having the process terminated for a full restart.
    RestartKill,
}

/// An answer from the outside to the action that the monitor named.
#[derive(Debug)]
pub enum MonitorEvent {
    /// The pause is over.
    Slept,
    /// What a look at the process `pid` showed.
    Child { pid: u32, poll: ChildPoll },
    /// The teardown, the termination or the rerouting was carried out.
    Done,
    /// How starting the process went.
    Spawned(Result<u32, String>),
    /// Whether the routing setup could be begun.
    Launched(bool),
    /// Whether the tunnel device exists.
    Present(bool),
    /// How the listing of default routes ended.
    Command(Result<String, String>),
    /// How the probe ended, and whether the operating system's last error
    /// says that something was not found.
    Probed { result: Result<String, String>, os_not_found: bool },
    /// The status that the request without the probing tool was answered
    /// with, if an answer came.
    Http(Option<u16>),
}

pub enum MonitorEventView {
    Slept,
    Child { pid: u32, poll: ChildPoll },
    Done,
    Spawned(Result<u32, Seq<char>>),
    Launched(bool),
    Present(bool),
    Command(Result<Seq<char>, Seq<char>>),
    Probed { result: Result<Seq<char>, Seq<char>>, os_not_found: bool },
    Http(Option<u16>),
}

impl View for MonitorEvent {
    type V = MonitorEventView;

    open spec fn view(&self) -> MonitorEventView {
        match *self {
            MonitorEvent::Slept => MonitorEventView::Slept,
            MonitorEvent::Child { pid, poll } => MonitorEventView::Child { pid, poll },
            MonitorEvent::Done => MonitorEventView::Done,
            MonitorEvent::Spawned(r) => MonitorEventView::Spawned(spawn_result(r)),
            MonitorEvent::Launched(ok) => MonitorEventView::Launched(ok),
            MonitorEvent::Present(b) => MonitorEventView::Present(b),
            MonitorEvent::Command(r) => MonitorEventView::Command(text_result(r)),
            MonitorEvent::Probed { result, os_not_found } => MonitorEventView::Probed {
                result: text_result(result),
                os_not_found,
            },
            MonitorEvent::Http(s) => MonitorEventView::Http(s),
        }
    }
}

/// What the monitor asks the outside to do next.
#[derive(Debug)]
pub enum MonitorAction {
    /// Pause for so many milliseconds; answer `Slept`.
    Sleep(u64),
    /// Look at the process; answer `Child`.
    PollChild(u32),
    /// Tear the routing down for these endpoints; answer `Done`.
    Teardown(Vec<String>),
    /// Terminate the process; answer `Done`.
    Terminate(u32),
    /// Write the configuration and start the tunnel client; answer
    /// `Spawned`.
    Spawn(SpawnRequest),
    /// Begin a routing setup for these endpoints in the background, and
    /// report its end to the supervisor; answer `Launched`.
    BeginSetup(Vec<String>),
    /// Look whether the kernel knows the device; answer `Present`.
    ProbeDevice(Device),
    /// Run the command; answer `Command`, or `Probed` for a probe.
    Run(OsCommand),
    /// Request the address without the probing tool; answer `Http`.
    Http { url: String, timeout_secs: u64 },
    /// Move the host routes of these endpoints to the upstream interface
    /// `wan`; answer `Done`.
    Reroute { addresses: Vec<String>, wan: String },
}

pub enum MonitorActionView {
    Sleep(u64),
    PollChild(u32),
    Teardown(Seq<Seq<char>>),
    Terminate(u32),
    Spawn(SpawnRequestView),
    BeginSetup(Seq<Seq<char>>),
    ProbeDevice(Device),
    Run(OsCommandView),
    Http { url: Seq<char>, timeout_secs: u64 },
    Reroute { addresses: Seq<Seq<char>>, wan: Seq<char> },
}

impl View for MonitorAction {
    type V = MonitorActionView;

    open spec fn view(&self) -> MonitorActionView {
        match *self {
            MonitorAction::Sleep(ms) => MonitorActionView::Sleep(ms),
            MonitorAction::PollChild(p) => MonitorActionView::PollChild(p),
            MonitorAction::Teardown(a) => MonitorActionView::Teardown(strings(a@)),
            MonitorAction::Terminate(p) => MonitorActionView::Terminate(p),
            MonitorAction::Spawn(r) => MonitorActionView::Spawn(r@),
            MonitorAction::BeginSetup(a) => MonitorActionView::BeginSetup(strings(a@)),
            MonitorAction::ProbeDevice(d) => MonitorActionView::ProbeDevice(d),
            MonitorAction::Run(c) => MonitorActionView::Run(c@),
            MonitorAction::Http { url, timeout_secs } => MonitorActionView::Http {
                url: url@,
                timeout_secs,
            },
            MonitorAction::Reroute { addresses, wan } => MonitorActionView::Reroute {
                addresses: strings(addresses@),
                wan: wan@,
            },
        }
    }
}

/// The monitor of one supervisor.
#[derive(Clone, Copy, PartialEq, Eq, Debug, Structural)]
pub struct Monitor {
    /// The stage that the monitor is in.
    pub stage: MonitorStage,
    /// The milliseconds of the reconnect delay that are still to be
    /// waited.
    pub remaining_ms: u128,
}

/// What a step of the monitor comes to: the monitor and the supervisor
/// after it, and the action that the monitor names.
pub struct Outcome {
    pub monitor: Monitor,
    pub manager: ManagerView,
    pub action: MonitorActionView,
}

/// The end of a round: the monitor pauses.
pub open spec fn pause(mon: Monitor, m: ManagerView) -> Outcome {
    Outcome {
        monitor: Monitor { stage: MonitorStage::Pause, ..mon },
        manager: m,
        action: MonitorActionView::Sleep(MONITOR_TICK_MS),
    }
}

/// The reconnect delay of a supervisor in milliseconds.
pub open spec fn reconnect_ms(m: ManagerView) -> u128 {
    (m.settings.reconnect_delay * 1000) as u128
}

/// The next slice of a wait of which `remaining_ms` are left: a tick, or
/// what is left where that is less.
pub open spec fn slice_ms(remaining_ms: u128) -> u64 {
    if remaining_ms < MONITOR_TICK_MS {
        remaining_ms as u64
    } else {
        MONITOR_TICK_MS
    }
}

/// The monitor waits the next slice of the reconnect delay.
pub open spec fn wait_on(mon: Monitor, m: ManagerView) -> Outcome {
    Outcome {
        monitor: Monitor {
            stage: MonitorStage::RespawnDelay,
            remaining_ms: (mon.remaining_ms - slice_ms(mon.remaining_ms)) as u128,
        },
        manager: m,
        action: MonitorActionView::Sleep(slice_ms(mon.remaining_ms)),
    }
}

/// What follows the loss of the process: the routing is torn down where it
/// is active, then the reconnect delay is waited, slice by slice, as the
/// settings give it at the time of the loss.
pub open spec fn lost(mon: Monitor, m: ManagerView) -> Outcome {
    match teardown_spec(m).1 {
        Some(addresses) => Outcome {
            monitor: Monitor {
                stage: MonitorStage::RespawnTeardown,
                remaining_ms: reconnect_ms(m),
            },
            manager: teardown_spec(m).0,
            action: MonitorActionView::Teardown(addresses),
        },
        None => wait_on(Monitor { remaining_ms: reconnect_ms(m), ..mon }, m),
    }
}

/// The beginning of a round. The monitor idles where the supervisor was
/// told to stop or the tunnel is not meant to run; else it looks at the
/// process, and without one sets out to start one.
pub open spec fn tick(mon: Monitor, m: ManagerView) -> Outcome {
    if m.should_stop || !m.running {
        pause(mon, m)
    } else {
        match m.child {
            Some(c) => Outcome {
                monitor: Monitor { stage: MonitorStage::Poll, ..mon },
                manager: m,
                action: MonitorActionView::PollChild(c.pid),
            },
            None => lost(mon, m),
        }
    }
}

/// What follows a slice of the reconnect delay. The wait ends at once
/// where no process is to be started any more, as after a stop; where
/// the delay is over, a process is asked for; else the next slice is
/// waited.
pub open spec fn after_slice(mon: Monitor, m: ManagerView) -> Outcome {
    if !may_respawn(m) {
        pause(mon, m)
    } else if mon.remaining_ms == 0 {
        Outcome {
            monitor: Monitor { stage: MonitorStage::Spawn, ..mon },
            manager: respawn_spec(m).0,
            action: MonitorActionView::Spawn(respawn_spec(m).1->0),
        }
    } else {
        wait_on(mon, m)
    }
}

/// What follows a verdict of the watchdog on the supervisor `m`, where
/// `next` is what follows if the check goes on. A restart has the process
/// terminated, where one was held, and is then treated as a loss; a change
/// of the upstream interface has the server routes moved; a check that is
/// over ends the round.
pub open spec fn after_verdict(
    mon: Monitor,
    m: ManagerView,
    v: WatchdogVerdictView,
    next: Outcome,
) -> Outcome {
    match v {
        WatchdogVerdictView::GoOn => next,
        WatchdogVerdictView::Settled => pause(mon, m),
        WatchdogVerdictView::Reroute(wan) => Outcome {
            monitor: Monitor { stage: MonitorStage::Reroute, ..mon },
            manager: m,
            action: MonitorActionView::Reroute { addresses: m.settings.addresses, wan },
        },
        WatchdogVerdictView::Restart(Some(pid)) => Outcome {
            monitor: Monitor { stage: MonitorStage::RestartKill, ..mon },
            manager: m,
            action: MonitorActionView::Terminate(pid),
        },
        WatchdogVerdictView::Restart(None) => lost(mon, m),
    }
}

/// What follows a look of the watchdog.
pub open spec fn watched(mon: Monitor, m: ManagerView, o: ObservationView, next: Outcome) -> Outcome {
    after_verdict(mon, watchdog_spec(m, o).0, watchdog_spec(m, o).1, next)
}

/// What the monitor `mon` of the supervisor `m` does when, at the time
/// `now_ms`, the answer `e` arrives. An answer that does not fit the
/// action under way ends the round.
pub open spec fn monitor_next(mon: Monitor, m: ManagerView, now_ms: u64, e: MonitorEventView) -> Outcome {
    match (mon.stage, e) {
        (MonitorStage::Pause, MonitorEventView::Slept) => tick(mon, m),
        (MonitorStage::Poll, MonitorEventView::Child { pid, poll }) => if !(m.child is Some
            && m.child->0.pid == pid) {
            pause(mon, m)
        } else {
            match poll {
                ChildPoll::Exited(code) => if m.running && !m.should_stop {
                    lost(mon, child_exited_spec(m, pid, code))
                } else {
                    pause(mon, child_exited_spec(m, pid, code))
                },
                _ => if watchdog_due_spec(m, now_ms).1 {
                    Outcome {
                        monitor: Monitor { stage: MonitorStage::WatchTun, ..mon },
                        manager: watchdog_due_spec(m, now_ms).0,
                        action: MonitorActionView::ProbeDevice(Device::Target),
                    }
                } else {
                    pause(mon, m)
                },
            }
        },
        (MonitorStage::RespawnTeardown, MonitorEventView::Done) => wait_on(mon, m),
        (MonitorStage::RespawnDelay, MonitorEventView::Slept) => after_slice(mon, m),
        (MonitorStage::Spawn, MonitorEventView::Spawned(result)) => match spawned_spec(
            m,
            result,
            now_ms,
        ).1 {
            SpawnVerdictView::Adopted { setup: Some(addresses) } => Outcome {
                monitor: Monitor { stage: MonitorStage::BeginSetup, ..mon },
                manager: spawned_spec(m, result, now_ms).0,
                action: MonitorActionView::BeginSetup(addresses),
            },
            SpawnVerdictView::Discard(pid) => Outcome {
                monitor: Monitor { stage: MonitorStage::Discard, ..mon },
                manager: spawned_spec(m, result, now_ms).0,
                action: MonitorActionView::Terminate(pid),
            },
            _ => pause(mon, spawned_spec(m, result, now_ms).0),
        },
        (MonitorStage::BeginSetup, MonitorEventView::Launched(ok)) => if ok {
            pause(mon, m)
        } else {
            pause(mon, ManagerView { routing_setup_in_progress: false, ..m })
        },
        (MonitorStage::Discard, MonitorEventView::Done) => pause(mon, m),
        (MonitorStage::WatchTun, MonitorEventView::Present(alive)) => watched(
            mon,
            m,
            ObservationView::Device(alive),
            Outcome {
                monitor: Monitor { stage: MonitorStage::WatchWan, ..mon },
                manager: m,
                action: MonitorActionView::Run(OsCommandView::DefaultRouteShow),
            },
        ),
        (MonitorStage::WatchWan, MonitorEventView::Command(table)) => watched(
            mon,
            m,
            ObservationView::Routes(table),
            Outcome {
                monitor: Monitor { stage: MonitorStage::WatchProbe, ..mon },
                manager: m,
                action: MonitorActionView::Run(
                    OsCommandView::Probe {
                        url: m.watchdog_check_url,
                        timeout_secs: m.watchdog_check_timeout,
                    },
                ),
            },
        ),
        (MonitorStage::Reroute, MonitorEventView::Done) => pause(mon, m),
        (MonitorStage::WatchProbe, MonitorEventView::Probed { result, os_not_found }) => match probe_verdict(
            result,
            os_not_found,
        ) {
            Reach::Reached => watched(mon, m, ObservationView::Probe(true), pause(mon, m)),
            Reach::Unreachable => watched(mon, m, ObservationView::Probe(false), pause(mon, m)),
            Reach::AskDirectly => Outcome {
                monitor: Monitor { stage: MonitorStage::WatchHttp, ..mon },
                manager: m,
                action: MonitorActionView::Http {
                    url: m.watchdog_check_url,
                    timeout_secs: m.watchdog_check_timeout,
                },
            },
        },
        (MonitorStage::WatchHttp, MonitorEventView::Http(status)) => watched(
            mon,
            m,
            ObservationView::Probe(direct_verdict(status)),
            pause(mon, m),
        ),
        (MonitorStage::RestartKill, MonitorEventView::Done) => lost(mon, m),
        _ => pause(mon, m),
    }
}

/// The monitor at its outset.
pub open spec fn monitor_start(m: ManagerView) -> Outcome {
    tick(Monitor { stage: MonitorStage::Pause, remaining_ms: 0 }, m)
}

impl Monitor {
    fn rest(&mut self) -> (action: MonitorAction)
        ensures
            *final(self) == (Monitor { stage: MonitorStage::Pause, ..*old(self) }),
            action@ == MonitorActionView::Sleep(MONITOR_TICK_MS),
    {
        self.stage = MonitorStage::Pause;
        MonitorAction::Sleep(MONITOR_TICK_MS)
    }

    fn wait_slice(&mut self) -> (action: MonitorAction)
        ensures
            forall|m: ManagerView|
                #![trigger wait_on(*old(self), m)]
                *final(self) == wait_on(*old(self), m).monitor && action@ == wait_on(
                    *old(self),
                    m,
                ).action,
    {
        let slice: u64 = if self.remaining_ms < MONITOR_TICK_MS as u128 {
            self.remaining_ms as u64
        } else {
            MONITOR_TICK_MS
        };
        self.stage = MonitorStage::RespawnDelay;
        self.remaining_ms = self.remaining_ms - slice as u128;
        MonitorAction::Sleep(slice)
    }

    fn on_loss(&mut self, manager: &mut TunnelManager) -> (action: MonitorAction)
        ensures
            *final(self) == lost(*old(self), old(manager)@).monitor,
            final(manager)@ == lost(*old(self), old(manager)@).manager,
            action@ == lost(*old(self), old(manager)@).action,
    {
        let ghost before = manager@;
        let delay: u128 = manager.reconnect_delay() as u128 * 1000;
        match manager.teardown_if_active() {
            Some(addresses) => {
                self.stage = MonitorStage::RespawnTeardown;
                self.remaining_ms = delay;
                MonitorAction::Teardown(addresses)
            },
            None => {
                self.remaining_ms = delay;
                let ghost waiting = *self;
                let action = self.wait_slice();
                assert(*self == wait_on(waiting, before).monitor);
                action
            },
        }
    }

    fn on_slice(&mut self, manager: &mut TunnelManager) -> (action: MonitorAction)
        ensures
            *final(self) == after_slice(*old(self), old(manager)@).monitor,
            final(manager)@ == after_slice(*old(self), old(manager)@).manager,
            action@ == after_slice(*old(self), old(manager)@).action,
    {
        let ghost before = manager@;
        if !manager.may_respawn() {
            self.rest()
        } else if self.remaining_ms == 0 {
            match manager.respawn() {
                Some(request) => {
                    self.stage = MonitorStage::Spawn;
                    MonitorAction::Spawn(request)
                },
                None => self.rest(),
            }
        } else {
            let ghost waiting = *self;
            let action = self.wait_slice();
            assert(*self == wait_on(waiting, before).monitor);
            action
        }
    }

    fn begin_round(&mut self, manager: &mut TunnelManager) -> (action: MonitorAction)
        ensures
            *final(self) == tick(*old(self), old(manager)@).monitor,
            final(manager)@ == tick(*old(self), old(manager)@).manager,
            action@ == tick(*old(self), old(manager)@).action,
    {
        if manager.should_stop() || !manager.is_running() {
            self.rest()
        } else {
            match manager.child() {
                Some(c) => {
                    self.stage = MonitorStage::Poll;
                    MonitorAction::PollChild(c.pid)
                },
                None => self.on_loss(manager),
            }
        }
    }

    fn follow(&mut self, manager: &mut TunnelManager, v: WatchdogVerdict) -> (action:
        MonitorAction)
        ensures
            *final(self) == after_verdict(
                *old(self),
                old(manager)@,
                v@,
                pause(*old(self), old(manager)@),
            ).monitor,
            final(manager)@ == after_verdict(
                *old(self),
                old(manager)@,
                v@,
                pause(*old(self), old(manager)@),
            ).manager,
            action@ == after_verdict(
                *old(self),
                old(manager)@,
                v@,
                pause(*old(self), old(manager)@),
            ).action,
    {
        match v {
            WatchdogVerdict::GoOn => self.rest(),
            WatchdogVerdict::Settled => self.rest(),
            WatchdogVerdict::Reroute(wan) => {
                self.stage = MonitorStage::Reroute;
                MonitorAction::Reroute { addresses: manager.addresses(), wan }
            },
            WatchdogVerdict::Restart(Some(pid)) => {
                self.stage = MonitorStage::RestartKill;
                MonitorAction::Terminate(pid)
            },
            WatchdogVerdict::Restart(None) => self.on_loss(manager),
        }
    }

    fn judge(&mut self, manager: &mut TunnelManager, reached: bool) -> (action: MonitorAction)
        ensures
            *final(self) == watched(
                *old(self),
                old(manager)@,
                ObservationView::Probe(reached),
                pause(*old(self), old(manager)@),
            ).monitor,
            final(manager)@ == watched(
                *old(self),
                old(manager)@,
                ObservationView::Probe(reached),
                pause(*old(self), old(manager)@),
            ).manager,
            action@ == watched(
                *old(self),
                old(manager)@,
                ObservationView::Probe(reached),
                pause(*old(self), old(manager)@),
            ).action,
    {
        let v = manager.run_watchdog_check(Observation::Probe(reached));
        self.follow(manager, v)
    }

    fn after_poll(&mut self, manager: &mut TunnelManager, now_ms: u64, pid: u32, poll: ChildPoll)
        -> (action: MonitorAction)
        requires
            old(self).stage == MonitorStage::Poll,
        ensures
            *final(self) == monitor_next(
                *old(self),
                old(manager)@,
                now_ms,
                MonitorEventView::Child { pid, poll },
            ).monitor,
            final(manager)@ == monitor_next(
                *old(self),
                old(manager)@,
                now_ms,
                MonitorEventView::Child { pid, poll },
            ).manager,
            action@ == monitor_next(
                *old(self),
                old(manager)@,
                now_ms,
                MonitorEventView::Child { pid, poll },
            ).action,
    {
        let held = match manager.child() {
            Some(c) => c.pid == pid,
            None => false,
        };
        if !held {
            return self.rest();
        }
        match poll {
            ChildPoll::Exited(code) => {
                let go_on = manager.is_running() && !manager.should_stop();
                manager.child_exited(pid, code);
                if go_on {
                    self.on_loss(manager)
                } else {
                    self.rest()
                }
            },
            _ => {
                if manager.watchdog_check_due(now_ms) {
                    self.stage = MonitorStage::WatchTun;
                    MonitorAction::ProbeDevice(Device::Target)
                } else {
                    self.rest()
                }
            },
        }
    }

    fn after_spawn(&mut self, manager: &mut TunnelManager, now_ms: u64, result: Result<u32, String>)
        -> (action: MonitorAction)
        requires
            old(self).stage == MonitorStage::Spawn,
        ensures
            *final(self) == monitor_next(
                *old(self),
                old(manager)@,
                now_ms,
                MonitorEventView::Spawned(spawn_result(result)),
            ).monitor,
            final(manager)@ == monitor_next(
                *old(self),
                old(manager)@,
                now_ms,
                MonitorEventView::Spawned(spawn_result(result)),
            ).manager,
            action@ == monitor_next(
                *old(self),
                old(manager)@,
                now_ms,
                MonitorEventView::Spawned(spawn_result(result)),
            ).action,
    {
        match manager.spawned(result, now_ms) {
            SpawnVerdict::Adopted { setup: Some(addresses) } => {
                self.stage = MonitorStage::BeginSetup;
                MonitorAction::BeginSetup(addresses)
            },
            SpawnVerdict::Discard(pid) => {
                self.stage = MonitorStage::Discard;
                MonitorAction::Terminate(pid)
            },
            _ => self.rest(),
        }
    }

    fn after_device(&mut self, manager: &mut TunnelManager, now_ms: u64, alive: bool) -> (action:
        MonitorAction)
        requires
            old(self).stage == MonitorStage::WatchTun,
        ensures
            *final(self) == monitor_next(
                *old(self),
                old(manager)@,
                now_ms,
                MonitorEventView::Present(alive),
            ).monitor,
            final(manager)@ == monitor_next(
                *old(self),
                old(manager)@,
                now_ms,
                MonitorEventView::Present(alive),
            ).manager,
            action@ == monitor_next(
                *old(self),
                old(manager)@,
                now_ms,
                MonitorEventView::Present(alive),
            ).action,
    {
        match manager.run_watchdog_check(Observation::Device(alive)) {
            WatchdogVerdict::GoOn => {
                self.stage = MonitorStage::WatchWan;
                MonitorAction::Run(OsCommand::DefaultRouteShow)
            },
            v => self.follow(manager, v),
        }
    }

    fn after_status(&mut self, manager: &mut TunnelManager, now_ms: u64, status: Option<u16>) -> (action:
        MonitorAction)
        requires
            old(self).stage == MonitorStage::WatchHttp,
        ensures
            *final(self) == monitor_next(
                *old(self),
                old(manager)@,
                now_ms,
                MonitorEventView::Http(status),
            ).monitor,
            final(manager)@ == monitor_next(
                *old(self),
                old(manager)@,
                now_ms,
                MonitorEventView::Http(status),
            ).manager,
            action@ == monitor_next(
                *old(self),
                old(manager)@,
                now_ms,
                MonitorEventView::Http(status),
            ).action,
    {
        let reached = check_connectivity_directly(status);
        self.judge(manager, reached)
    }

    fn after_wan(
        &mut self,
        manager: &mut TunnelManager,
        now_ms: u64,
        table: Result<String, String>,
    ) -> (action: MonitorAction)
        requires
            old(self).stage == MonitorStage::WatchWan,
        ensures
            *final(self) == monitor_next(
                *old(self),
                old(manager)@,
                now_ms,
                MonitorEventView::Command(text_result(table)),
            ).monitor,
            final(manager)@ == monitor_next(
                *old(self),
                old(manager)@,
                now_ms,
                MonitorEventView::Command(text_result(table)),
            ).manager,
            action@ == monitor_next(
                *old(self),
                old(manager)@,
                now_ms,
                MonitorEventView::Command(text_result(table)),
            ).action,
    {
        match manager.run_watchdog_check(Observation::Routes(table)) {
            WatchdogVerdict::GoOn => {
                self.stage = MonitorStage::WatchProbe;
                let (url, timeout_secs) = manager.watchdog_probe();
                MonitorAction::Run(OsCommand::Probe { url, timeout_secs })
            },
            v => self.follow(manager, v),
        }
    }

    fn after_probe(
        &mut self,
        manager: &mut TunnelManager,
        now_ms: u64,
        result: Result<String, String>,
        os_not_found: bool,
    ) -> (action: MonitorAction)
        requires
            old(self).stage == MonitorStage::WatchProbe,
        ensures
            *final(self) == monitor_next(
                *old(self),
                old(manager)@,
                now_ms,
                MonitorEventView::Probed { result: text_result(result), os_not_found },
            ).monitor,
            final(manager)@ == monitor_next(
                *old(self),
                old(manager)@,
                now_ms,
                MonitorEventView::Probed { result: text_result(result), os_not_found },
            ).manager,
            action@ == monitor_next(
                *old(self),
                old(manager)@,
                now_ms,
                MonitorEventView::Probed { result: text_result(result), os_not_found },
            ).action,
    {
        match check_connectivity(&result, os_not_found) {
            Reach::Reached => self.judge(manager, true),
            Reach::Unreachable => self.judge(manager, false),
            Reach::AskDirectly => {
                self.stage = MonitorStage::WatchHttp;
                let (url, timeout_secs) = manager.watchdog_probe();
                MonitorAction::Http { url, timeout_secs }
            },
        }
    }

    /// Takes the answer `event` to the action under way, at the time
    /// `now_ms`, and names the action that comes next.
    pub fn step(&mut self, manager: &mut TunnelManager, now_ms: u64, event: MonitorEvent) -> (action:
        MonitorAction)
        ensures
            *final(self) == monitor_next(*old(self), old(manager)@, now_ms, event@).monitor,
            final(manager)@ == monitor_next(*old(self), old(manager)@, now_ms, event@).manager,
            action@ == monitor_next(*old(self), old(manager)@, now_ms, event@).action,
    {
        match event {
            MonitorEvent::Slept => {
                if self.stage == MonitorStage::Pause {
                    self.begin_round(manager)
                } else if self.stage == MonitorStage::RespawnDelay {
                    self.on_slice(manager)
                } else {
                    self.rest()
                }
            },
            MonitorEvent::Child { pid, poll } => {
                if self.stage == MonitorStage::Poll {
                    self.after_poll(manager, now_ms, pid, poll)
                } else {
                    self.rest()
                }
            },
            MonitorEvent::Done => {
                if self.stage == MonitorStage::RespawnTeardown {
                    let ghost waiting = *self;
                    let action = self.wait_slice();
                    assert(*self == wait_on(waiting, manager@).monitor);
                    action
                } else if self.stage == MonitorStage::RestartKill {
                    self.on_loss(manager)
                } else {
                    self.rest()
                }
            },
            MonitorEvent::Spawned(result) => {
                if self.stage == MonitorStage::Spawn {
                    self.after_spawn(manager, now_ms, result)
                } else {
                    self.rest()
                }
            },
            MonitorEvent::Launched(ok) => {
                if self.stage == MonitorStage::BeginSetup && !ok {
                    manager.routing_setup_abandoned();
                }
                self.rest()
            },
            MonitorEvent::Present(alive) => {
                if self.stage == MonitorStage::WatchTun {
                    self.after_device(manager, now_ms, alive)
                } else {
                    self.rest()
                }
            },
            MonitorEvent::Command(table) => {
                if self.stage == MonitorStage::WatchWan {
                    self.after_wan(manager, now_ms, table)
                } else {
                    self.rest()
                }
            },
            MonitorEvent::Probed { result, os_not_found } => {
                if self.stage == MonitorStage::WatchProbe {
                    self.after_probe(manager, now_ms, result, os_not_found)
                } else {
                    self.rest()
                }
            },
            MonitorEvent::Http(status) => {
                if self.stage == MonitorStage::WatchHttp {
                    self.after_status(manager, now_ms, status)
                } else {
                    self.rest()
                }
            },
        }
    }
}

impl TunnelManager {
    /// Begins the monitor of this supervisor and names its first action.
    /// The monitor is a machine: [`Monitor::step`] takes the answer to the
    /// action under way and names the next one, for as long as the daemon
    /// lives. While the supervisor is stopped the monitor idles, and it
    /// looks at the process again once the tunnel has been started anew.
    pub fn monitor_loop(&mut self) -> (r: (Monitor, MonitorAction))
        ensures
            r.0 == monitor_start(old(self)@).monitor,
            final(self)@ == monitor_start(old(self)@).manager,
            r.1@ == monitor_start(old(self)@).action,
    {
        let mut monitor = Monitor { stage: MonitorStage::Pause, remaining_ms: 0 };
        let action = monitor.begin_round(self);
        (monitor, action)
    }
}

} // verus!
