//! What holds of the supervisor whatever is asked of it and whatever
//! happens to it.
use crate::config::{RoutingSettingsView, TunnelSettingsView};
use crate::routing::command::ServerIpView;
use crate::routing::kernel::{is_route_command, lemma_reroute_commands};
use crate::routing::reroute_plan;
use crate::routing::setup::RoutingErrorView;
use crate::tunnel::monitor::{
    after_verdict, lost, monitor_next, pause, reconnect_ms, wait_on, watched, ChildPoll, Monitor,
    MonitorActionView, MonitorEventView, MonitorStage, Outcome, MONITOR_TICK_MS,
};
use crate::tunnel::{
    config_error, watchdog_spec, ObservationView, WatchdogVerdictView,
    endpoint_configured, may_respawn, spawn_request, status_of, Child, SpawnRequestView,
    TunnelStatusView, phase_of, Phase, fresh, child_exited_spec, full_restart_spec, probe_spec, respawn_spec, setup_done_spec, spawned_spec,
    start_spec, stop_spec, teardown_spec, trigger_setup_spec, wan_change, wan_seen_spec,
    watchdog_due_spec, ManagerView, SpawnVerdictView, StopPlanView,
};
use vstd::prelude::*;

verus! {

/// Something that is asked of the supervisor or that happens to it.
#[allow(inconsistent_fields)]
pub enum Call {
    Start,
    Spawned { result: Result<u32, Seq<char>>, now_ms: u64 },
    Stop,
    ChildExited { pid: u32, code: Option<i32> },
    Respawn,
    FullRestart { reason: Seq<char> },
    TriggerSetup,
    SetupDone { result: Result<Seq<char>, RoutingErrorView> },
    SetupAbandoned,
    Teardown,
    WanSeen { table: Result<Seq<char>, Seq<char>> },
    Probed { reached: bool },
    WatchdogDue { now_ms: u64 },
    Watched { observation: ObservationView },
    UpdateSettings { settings: TunnelSettingsView },
}

/// The supervisor together with what goes on outside of it on its behalf.
pub struct World {
    pub manager: ManagerView,
    /// The processes of the tunnel client that are alive and have not been
    /// handed out to be terminated.
    pub processes: Set<u32>,
    /// How many routing setups are under way.
    pub setups: nat,
}

/// The supervisor after a call.
pub open spec fn manager_after(m: ManagerView, call: Call) -> ManagerView {
    match call {
        Call::Start => start_spec(m).0,
        Call::Spawned { result, now_ms } => spawned_spec(m, result, now_ms).0,
        Call::Stop => stop_spec(m).0,
        Call::ChildExited { pid, code } => child_exited_spec(m, pid, code),
        Call::Respawn => respawn_spec(m).0,
        Call::FullRestart { reason } => full_restart_spec(m, reason).0,
        Call::TriggerSetup => trigger_setup_spec(m).0,
        Call::SetupDone { result } => setup_done_spec(m, result),
        Call::SetupAbandoned => ManagerView { routing_setup_in_progress: false, ..m },
        Call::Teardown => teardown_spec(m).0,
        Call::WanSeen { table } => wan_seen_spec(m, table).0,
        Call::Probed { reached } => probe_spec(m, reached).0,
        Call::WatchdogDue { now_ms } => watchdog_due_spec(m, now_ms).0,
        Call::Watched { observation } => watchdog_spec(m, observation).0,
        Call::UpdateSettings { settings } => ManagerView { settings, ..m },
    }
}

/// The processes after a call: a process that was started and adopted is
/// one more; a process that ended, or that the supervisor handed out to be
/// terminated, is one less.
pub open spec fn processes_after(w: World, call: Call) -> Set<u32> {
    match call {
        Call::Spawned { result, now_ms } => match spawned_spec(w.manager, result, now_ms).1 {
            SpawnVerdictView::Adopted { .. } => w.processes.insert(result->Ok_0),
            _ => w.processes,
        },
        Call::Stop => match stop_spec(w.manager).1.terminate {
            Some(pid) => w.processes.remove(pid),
            None => w.processes,
        },
        Call::ChildExited { pid, code } => w.processes.remove(pid),
        Call::FullRestart { reason } => match full_restart_spec(w.manager, reason).1 {
            Some(pid) => w.processes.remove(pid),
            None => w.processes,
        },
        Call::Watched { observation } => match watchdog_spec(w.manager, observation).1 {
            WatchdogVerdictView::Restart(Some(pid)) => w.processes.remove(pid),
            _ => w.processes,
        },
        _ => w.processes,
    }
}

/// The number of setups under way after a call: a setup that is triggered
/// and for which endpoints are handed out is one more; one that ends or
/// could not be begun is one less.
pub open spec fn setups_after(w: World, call: Call) -> nat {
    match call {
        Call::Spawned { result, now_ms } => match spawned_spec(w.manager, result, now_ms).1 {
            SpawnVerdictView::Adopted { setup: Some(_) } => w.setups + 1,
            _ => w.setups,
        },
        Call::TriggerSetup => if trigger_setup_spec(w.manager).1 is Some {
            w.setups + 1
        } else {
            w.setups
        },
        Call::SetupDone { .. } | Call::SetupAbandoned => (w.setups - 1) as nat,
        _ => w.setups,
    }
}

/// Whether a call can happen: a process that has just been started has a
/// number that no living process has, and a setup can only end or fail to
/// begin where one is under way.
pub open spec fn can_happen(w: World, call: Call) -> bool {
    match call {
        Call::Spawned { result, .. } => result is Ok ==> !w.processes.contains(result->Ok_0),
        Call::SetupDone { .. } | Call::SetupAbandoned => w.setups > 0,
        _ => true,
    }
}

/// The world after a call.
pub open spec fn world_after(w: World, call: Call) -> World {
    World {
        manager: manager_after(w.manager, call),
        processes: processes_after(w, call),
        setups: setups_after(w, call),
    }
}

/// The world after a series of calls, of which those that cannot happen
/// are left out.
pub open spec fn world_after_all(w: World, calls: Seq<Call>) -> World
    decreases calls.len(),
{
    if calls.len() == 0 {
        w
    } else {
        let before = world_after_all(w, calls.drop_last());
        if can_happen(before, calls.last()) {
            world_after(before, calls.last())
        } else {
            before
        }
    }
}

/// What holds of the world at every moment. The processes alive are none
/// but the one that the supervisor holds; the supervisor holds a process
/// only while the tunnel is meant to run, and awaits one only while it
/// holds none; and the setups under way are one where the supervisor marks
/// a setup as under way, else none.
pub open spec fn in_order(w: World) -> bool {
    &&& w.processes == match w.manager.child {
        Some(c) => set![c.pid],
        None => Set::<u32>::empty(),
    }
    &&& (w.manager.child is Some ==> w.manager.running)
    &&& w.setups == (if w.manager.routing_setup_in_progress {
        1nat
    } else {
        0nat
    })
}

/// The world of a supervisor that holds no process and has no setup under
/// way.
pub open spec fn at_rest(m: ManagerView) -> World {
    World { manager: m, processes: Set::empty(), setups: 0 }
}

/// A call keeps the world in order.
pub proof fn lemma_call_keeps_order(w: World, call: Call)
    requires
        in_order(w),
        can_happen(w, call),
    ensures
        in_order(world_after(w, call)),
{
    let after = world_after(w, call);
    match w.manager.child {
        Some(c) => {
            assert(after.processes =~= match after.manager.child {
                Some(c2) => set![c2.pid],
                None => Set::<u32>::empty(),
            });
        },
        None => {
            assert(after.processes =~= match after.manager.child {
                Some(c2) => set![c2.pid],
                None => Set::<u32>::empty(),
            });
        },
    }
}

/// Whatever is asked of the supervisor and whatever happens to it, in any
/// order: at most one process of the tunnel client is alive at any moment,
/// and at most one routing setup is under way.
pub proof fn lemma_one_process_one_setup(m: ManagerView, calls: Seq<Call>)
    requires
        m.child is None,
        !m.routing_setup_in_progress,
    ensures
        in_order(world_after_all(at_rest(m), calls)),
        world_after_all(at_rest(m), calls).processes.finite(),
        world_after_all(at_rest(m), calls).processes.len() <= 1,
        world_after_all(at_rest(m), calls).setups <= 1,
    decreases calls.len(),
{
    if calls.len() > 0 {
        lemma_one_process_one_setup(m, calls.drop_last());
        let before = world_after_all(at_rest(m), calls.drop_last());
        if can_happen(before, calls.last()) {
            lemma_call_keeps_order(before, calls.last());
        }
    }
    let w = world_after_all(at_rest(m), calls);
    match w.manager.child {
        Some(c) => {
            assert(w.processes =~= Set::<u32>::empty().insert(c.pid));
        },
        None => {},
    }
}

/// What holds of a supervisor at every moment: it holds a process only
/// while the tunnel is meant to run, it awaits a process only while it
/// holds none, and once told to stop the tunnel is not meant to run.
pub open spec fn healthy(m: ManagerView) -> bool {
    &&& (m.child is Some ==> m.running)
    &&& (m.spawning is Some ==> m.child is None)
    &&& (m.should_stop ==> !m.running)
}

/// Whether the phase `q` may follow the phase `p` at once.
pub open spec fn may_follow(p: Phase, q: Phase) -> bool {
    p == q || match p {
        Phase::Stopped => q == Phase::Starting,
        Phase::Starting => q == Phase::Running || q == Phase::Stopped || q == Phase::Stopping,
        Phase::Running => q == Phase::Crashed || q == Phase::Stopped,
        Phase::Crashed => q == Phase::Reconnecting || q == Phase::Stopped,
        Phase::Reconnecting => q == Phase::Running || q == Phase::Crashed || q == Phase::Stopping,
        Phase::Stopping => q == Phase::Stopped || q == Phase::Starting,
    }
}

/// A supervisor is healthy from the first and stays so, and its phases
/// follow each other in order: a stopped tunnel starts; a starting one
/// comes to run, or fails or is stopped; a running one crashes or is
/// stopped; a crashed one reconnects or is stopped; a reconnecting one
/// comes to run, crashes again or is stopped.
pub proof fn lemma_phases_in_order(
    m: ManagerView,
    call: Call,
    settings: TunnelSettingsView,
    routing: RoutingSettingsView,
    now_ms: u64,
)
    requires
        healthy(m),
    ensures
        healthy(manager_after(m, call)),
        may_follow(phase_of(m), phase_of(manager_after(m, call))),
        healthy(fresh(settings, routing, now_ms)),
        phase_of(fresh(settings, routing, now_ms)) == Phase::Stopped,
{
}

/// What a look of the watchdog leaves of the supervisor. All but the
/// process, the last error, the upstream interface and the count of
/// failed probes stays. The process is given up exactly where a restart
/// begins, and it is the process that the verdict hands out.
pub proof fn lemma_watchdog_gives_up_only_on_restart(m: ManagerView, o: ObservationView)
    ensures
        ({
            let after = watchdog_spec(m, o).0;
            let v = watchdog_spec(m, o).1;
            &&& after.running == m.running
            &&& after.should_stop == m.should_stop
            &&& after.spawning == m.spawning
            &&& after.settings == m.settings
            &&& after.routing_active == m.routing_active
            &&& after.routing_setup_in_progress == m.routing_setup_in_progress
            &&& v is Restart ==> after.child is None && v == WatchdogVerdictView::Restart(
                match m.child {
                    Some(c) => Some(c.pid),
                    None => None,
                },
            )
            &&& !(v is Restart) ==> after.child == m.child
            &&& healthy(m) ==> healthy(after) && may_follow(phase_of(m), phase_of(after))
        }),
{
}

proof fn lemma_after_verdict(mon: Monitor, m: ManagerView, v: WatchdogVerdictView, next: Outcome)
    ensures
        ({
            let o = after_verdict(mon, m, v, next);
            &&& !(v is GoOn) ==> o.manager.child == m.child && o.manager.running == m.running
                && o.manager.should_stop == m.should_stop && o.manager.spawning == m.spawning
                && o.manager.routing_setup_in_progress == m.routing_setup_in_progress
            &&& v is GoOn ==> o == next
            &&& o.action is Terminate ==> v is GoOn || v == WatchdogVerdictView::Restart(
                Some(o.action->Terminate_0),
            )
            &&& !(v is GoOn) ==> !(o.action is BeginSetup) && !(o.action is Spawn)
        }),
{
}

proof fn lemma_phases_watching(mon: Monitor, m: ManagerView, o: ObservationView, next: Outcome)
    requires
        healthy(m),
        next.manager == m,
    ensures
        healthy(watched(mon, m, o, next).manager),
        may_follow(phase_of(m), phase_of(watched(mon, m, o, next).manager)),
{
    lemma_watchdog_gives_up_only_on_restart(m, o);
    lemma_after_verdict(mon, watchdog_spec(m, o).0, watchdog_spec(m, o).1, next);
}

proof fn lemma_phases_at_watch(mon: Monitor, m: ManagerView, now_ms: u64, e: MonitorEventView)
    requires
        healthy(m),
        mon.stage == MonitorStage::WatchTun || mon.stage == MonitorStage::WatchWan || mon.stage
            == MonitorStage::WatchProbe || mon.stage == MonitorStage::WatchHttp,
    ensures
        healthy(monitor_next(mon, m, now_ms, e).manager),
        may_follow(phase_of(m), phase_of(monitor_next(mon, m, now_ms, e).manager)),
{
    assert forall|o: ObservationView, next: Outcome| next.manager == m implies healthy(
        #[trigger] watched(mon, m, o, next).manager,
    ) && may_follow(phase_of(m), phase_of(watched(mon, m, o, next).manager)) by {
        lemma_phases_watching(mon, m, o, next);
    }
}

proof fn lemma_phases_elsewhere(mon: Monitor, m: ManagerView, now_ms: u64, e: MonitorEventView)
    requires
        healthy(m),
        !(mon.stage == MonitorStage::WatchTun || mon.stage == MonitorStage::WatchWan || mon.stage
            == MonitorStage::WatchProbe || mon.stage == MonitorStage::WatchHttp),
    ensures
        healthy(monitor_next(mon, m, now_ms, e).manager),
        may_follow(phase_of(m), phase_of(monitor_next(mon, m, now_ms, e).manager)),
{
}

/// A step of the monitor keeps the supervisor healthy and its phases in
/// order.
pub proof fn lemma_monitor_phases_in_order(
    mon: Monitor,
    m: ManagerView,
    now_ms: u64,
    e: MonitorEventView,
)
    requires
        healthy(m),
    ensures
        healthy(monitor_next(mon, m, now_ms, e).manager),
        may_follow(phase_of(m), phase_of(monitor_next(mon, m, now_ms, e).manager)),
{
    if mon.stage == MonitorStage::WatchTun || mon.stage == MonitorStage::WatchWan || mon.stage
        == MonitorStage::WatchProbe || mon.stage == MonitorStage::WatchHttp {
        lemma_phases_at_watch(mon, m, now_ms, e);
    } else {
        lemma_phases_elsewhere(mon, m, now_ms, e);
    }
}

/// A process is asked for only where the supervisor neither holds nor
/// awaits one, and a process that arrives is adopted only where the
/// supervisor holds none.
pub proof fn lemma_spawn_only_when_free(m: ManagerView, result: Result<u32, Seq<char>>, now_ms: u64)
    ensures
        start_spec(m).1 matches Ok(Some(_)) ==> m.spawning is None && !m.running
            && endpoint_configured(m.settings),
        respawn_spec(m).1 is Some ==> m.spawning is None && m.child is None,
        spawned_spec(m, result, now_ms).1 is Adopted ==> m.child is None && m.spawning is Some
            && !m.should_stop,
        result is Ok && !(spawned_spec(m, result, now_ms).1 is Adopted) ==> spawned_spec(
            m,
            result,
            now_ms,
        ).1 == SpawnVerdictView::Discard(result->Ok_0),
{
}

/// Stopping twice does no more than stopping once: after a stop, another
/// stop changes nothing, terminates nothing and tears nothing down.
pub proof fn lemma_stop_idempotent(m: ManagerView)
    ensures
        stop_spec(stop_spec(m).0).0 == stop_spec(m).0,
        stop_spec(stop_spec(m).0).1 == (StopPlanView { terminate: None, teardown: None }),
        stop_spec(m).1.teardown is Some <==> m.routing_active,
        stop_spec(m).1.terminate is Some <==> m.child is Some,
{
}

/// The routing becomes active by nothing but a setup that succeeded.
pub proof fn lemma_active_only_by_success(m: ManagerView, call: Call)
    requires
        !m.routing_active,
        manager_after(m, call).routing_active,
    ensures
        call matches Call::SetupDone { result } && result is Ok,
{
}

/// A routing setup that fails leaves the tunnel as it is: the process is
/// kept, the tunnel stays meant to run, and only the error is recorded.
pub proof fn lemma_setup_failure_keeps_tunnel(m: ManagerView, e: RoutingErrorView)
    ensures
        setup_done_spec(m, Err(e)).child == m.child,
        setup_done_spec(m, Err(e)).running == m.running,
        setup_done_spec(m, Err(e)).should_stop == m.should_stop,
        setup_done_spec(m, Err(e)).routing_active == m.routing_active,
        !setup_done_spec(m, Err(e)).routing_setup_in_progress,
{
}

/// While a setup is under way, no other is triggered.
pub proof fn lemma_no_second_setup(m: ManagerView)
    ensures
        trigger_setup_spec(m).1 is Some ==> !m.routing_setup_in_progress
            && trigger_setup_spec(m).0.routing_setup_in_progress,
        m.routing_setup_in_progress ==> trigger_setup_spec(m).1 is None,
        trigger_setup_spec(trigger_setup_spec(m).0).1 is None || !m.routing_enabled
            || trigger_setup_spec(m).1 is None,
{
}

/// The supervisor after so many probes in a row have failed.
pub open spec fn after_failures(m: ManagerView, k: nat) -> ManagerView
    decreases k,
{
    if k == 0 {
        m
    } else {
        probe_spec(after_failures(m, (k - 1) as nat), false).0
    }
}

/// The count of failed probes reaches the threshold at the failure whose
/// number is the threshold, and at none before. Beginning from a count of
/// zero, after `k` failures in a row, `k` below the threshold, the count
/// is `k` and no restart was called for; the next failure calls for a
/// restart exactly where `k + 1` is the threshold. A restart begins with
/// the count at zero again, and so does a probe that goes through.
pub proof fn lemma_threshold_exact(m: ManagerView, k: nat)
    requires
        m.watchdog_failures == 0,
        k < m.watchdog_max_failures,
    ensures
        after_failures(m, k).watchdog_failures == k,
        after_failures(m, k).watchdog_max_failures == m.watchdog_max_failures,
        probe_spec(after_failures(m, k), false).1 is Some <==> k + 1 == m.watchdog_max_failures,
        probe_spec(after_failures(m, k), true).0.watchdog_failures == 0,
        probe_spec(after_failures(m, k), true).1 is None,
        forall|reason: Seq<char>|
            (#[trigger] full_restart_spec(
                probe_spec(after_failures(m, k), false).0,
                reason,
            )).0.watchdog_failures == 0,
    decreases k,
{
    if k > 0 {
        lemma_threshold_exact(m, (k - 1) as nat);
    }
}

/// A change of the upstream interface is answered by moving the server
/// routes, not by a restart. Where the watchdog, having listed the default
/// routes, finds another upstream interface than the one known, the
/// monitor asks for the server routes to be moved to it and, once that is
/// done, ends the round. The process of the tunnel client is not touched,
/// the tunnel stays meant to run, nothing is terminated and nothing is
/// started; and the commands that move the routes are host-route commands
/// all.
pub proof fn lemma_wan_change_reroutes(
    mon: Monitor,
    m: ManagerView,
    now_ms: u64,
    table: Result<Seq<char>, Seq<char>>,
)
    requires
        mon.stage == MonitorStage::WatchWan,
        wan_change(m, table) is Some,
    ensures
        ({
            let o = monitor_next(mon, m, now_ms, MonitorEventView::Command(table));
            let done = monitor_next(o.monitor, o.manager, now_ms, MonitorEventView::Done);
            &&& o.action == (MonitorActionView::Reroute {
                addresses: m.settings.addresses,
                wan: wan_change(m, table)->0,
            })
            &&& o.manager.child == m.child
            &&& o.manager.running == m.running
            &&& o.manager.should_stop == m.should_stop
            &&& o.manager.spawning == m.spawning
            &&& o.manager.routing_active == m.routing_active
            &&& o.manager.last_wan_interface == wan_change(m, table)->0
            &&& o.manager.watchdog_failures == 0
            &&& done.monitor.stage == MonitorStage::Pause
            &&& done.manager == o.manager
        }),
        forall|ips: Seq<ServerIpView>, i: int|
            0 <= i < reroute_plan(ips, wan_change(m, table)->0).len() ==> is_route_command(
                #[trigger] reroute_plan(ips, wan_change(m, table)->0)[i],
            ),
{
    assert forall|ips: Seq<ServerIpView>, i: int|
        0 <= i < reroute_plan(ips, wan_change(m, table)->0).len() implies is_route_command(
        #[trigger] reroute_plan(ips, wan_change(m, table)->0)[i],
    ) by {
        lemma_reroute_commands(ips, wan_change(m, table)->0);
    }
}

/// Whether an answer fits the action that the monitor waits for at a
/// stage.
pub open spec fn answer_fits(stage: MonitorStage, e: MonitorEventView) -> bool {
    match stage {
        MonitorStage::Pause | MonitorStage::RespawnDelay => e is Slept,
        MonitorStage::Poll => e is Child,
        MonitorStage::RespawnTeardown | MonitorStage::Discard | MonitorStage::Reroute
        | MonitorStage::RestartKill => e is Done,
        MonitorStage::Spawn => e is Spawned,
        MonitorStage::BeginSetup => e is Launched,
        MonitorStage::WatchTun => e is Present,
        MonitorStage::WatchWan => e is Command,
        MonitorStage::WatchProbe => e is Probed,
        MonitorStage::WatchHttp => e is Http,
    }
}

/// The processes after a step of the monitor: a process that the answer
/// reports as started is one more, one that it reports as ended is one
/// less, and so is one that the monitor asks to have terminated.
pub open spec fn processes_after_step(
    processes: Set<u32>,
    e: MonitorEventView,
    action: MonitorActionView,
) -> Set<u32> {
    let seen = match e {
        MonitorEventView::Spawned(Ok(pid)) => processes.insert(pid),
        MonitorEventView::Child { pid, poll: ChildPoll::Exited(_) } => processes.remove(pid),
        _ => processes,
    };
    match action {
        MonitorActionView::Terminate(pid) => seen.remove(pid),
        _ => seen,
    }
}

/// The setups under way after a step of the monitor.
pub open spec fn setups_after_step(
    setups: nat,
    stage: MonitorStage,
    e: MonitorEventView,
    action: MonitorActionView,
) -> nat {
    let begun = if action is BeginSetup {
        setups + 1
    } else {
        setups
    };
    if stage == MonitorStage::BeginSetup && e == MonitorEventView::Launched(false) {
        (begun - 1) as nat
    } else {
        begun
    }
}

/// The world after a step of the monitor that came to `o`.
pub open spec fn world_after_step(w: World, stage: MonitorStage, e: MonitorEventView, o: Outcome) -> World {
    World {
        manager: o.manager,
        processes: processes_after_step(w.processes, e, o.action),
        setups: setups_after_step(w.setups, stage, e, o.action),
    }
}

proof fn lemma_order_watching(
    w: World,
    mon: Monitor,
    e: MonitorEventView,
    o: ObservationView,
    next: Outcome,
)
    requires
        in_order(w),
        next.manager == w.manager,
        !(next.action is Terminate),
        !(next.action is BeginSetup),
        !(e is Spawned),
        !(e is Child),
        mon.stage != MonitorStage::BeginSetup,
    ensures
        in_order(world_after_step(w, mon.stage, e, watched(mon, w.manager, o, next))),
{
    let m = w.manager;
    lemma_watchdog_gives_up_only_on_restart(m, o);
    lemma_after_verdict(mon, watchdog_spec(m, o).0, watchdog_spec(m, o).1, next);
    let r = watched(mon, m, o, next);
    assert(processes_after_step(w.processes, e, r.action) =~= match r.manager.child {
        Some(c) => set![c.pid],
        None => Set::<u32>::empty(),
    });
}

proof fn lemma_order_at_watch(w: World, mon: Monitor, now_ms: u64, e: MonitorEventView)
    requires
        in_order(w),
        answer_fits(mon.stage, e),
        mon.stage == MonitorStage::WatchTun || mon.stage == MonitorStage::WatchWan || mon.stage
            == MonitorStage::WatchProbe || mon.stage == MonitorStage::WatchHttp,
    ensures
        in_order(
            world_after_step(w, mon.stage, e, monitor_next(mon, w.manager, now_ms, e)),
        ),
{
    assert forall|o: ObservationView, next: Outcome|
        next.manager == w.manager && !(next.action is Terminate) && !(next.action
            is BeginSetup) implies in_order(
        world_after_step(w, mon.stage, e, #[trigger] watched(mon, w.manager, o, next)),
    ) by {
        lemma_order_watching(w, mon, e, o, next);
    }
}

proof fn lemma_order_elsewhere(w: World, mon: Monitor, now_ms: u64, e: MonitorEventView)
    requires
        in_order(w),
        answer_fits(mon.stage, e),
        e matches MonitorEventView::Spawned(Ok(pid)) ==> !w.processes.contains(pid),
        mon.stage == MonitorStage::BeginSetup ==> w.setups > 0,
        !(mon.stage == MonitorStage::WatchTun || mon.stage == MonitorStage::WatchWan || mon.stage
            == MonitorStage::WatchProbe || mon.stage == MonitorStage::WatchHttp),
    ensures
        in_order(
            world_after_step(w, mon.stage, e, monitor_next(mon, w.manager, now_ms, e)),
        ),
{
    let o = monitor_next(mon, w.manager, now_ms, e);
    assert(processes_after_step(w.processes, e, o.action) =~= match o.manager.child {
        Some(c) => set![c.pid],
        None => Set::<u32>::empty(),
    });
}

/// A step of the monitor keeps the world in order: it never leaves two
/// processes alive nor two setups under way.
pub proof fn lemma_monitor_keeps_order(w: World, mon: Monitor, now_ms: u64, e: MonitorEventView)
    requires
        in_order(w),
        answer_fits(mon.stage, e),
        e matches MonitorEventView::Spawned(Ok(pid)) ==> !w.processes.contains(pid),
        mon.stage == MonitorStage::BeginSetup ==> w.setups > 0,
    ensures
        in_order(
            world_after_step(w, mon.stage, e, monitor_next(mon, w.manager, now_ms, e)),
        ),
{
    if mon.stage == MonitorStage::WatchTun || mon.stage == MonitorStage::WatchWan || mon.stage
        == MonitorStage::WatchProbe || mon.stage == MonitorStage::WatchHttp {
        lemma_order_at_watch(w, mon, now_ms, e);
    } else {
        lemma_order_elsewhere(w, mon, now_ms, e);
    }
}

/// The monitor never ends, and a stop does not end its watch. At the
/// beginning of a round, whatever came before, it looks at the process
/// where the tunnel is meant to run and a process is held; while the
/// supervisor is stopped it idles and touches nothing.
pub proof fn lemma_monitor_polls_again(mon: Monitor, m: ManagerView, now_ms: u64)
    requires
        mon.stage == MonitorStage::Pause,
    ensures
        m.running && !m.should_stop && m.child is Some ==> monitor_next(
            mon,
            m,
            now_ms,
            MonitorEventView::Slept,
        ).action == MonitorActionView::PollChild(m.child->0.pid) && monitor_next(
            mon,
            m,
            now_ms,
            MonitorEventView::Slept,
        ).monitor.stage == MonitorStage::Poll,
        m.should_stop || !m.running ==> monitor_next(mon, m, now_ms, MonitorEventView::Slept)
            == pause(mon, m),
{
}

/// Supervision goes on after a restart. Let the tunnel be stopped, let the
/// monitor make a round meanwhile, and let the tunnel then be started and
/// its new process be reported: at its next round the monitor looks at
/// that process, and where the process is then found ended, the exit is
/// recorded and a respawn is set under way.
pub proof fn lemma_supervision_survives_restart(
    mon: Monitor,
    m: ManagerView,
    pid: u32,
    code: Option<i32>,
    now_ms: u64,
)
    requires
        mon.stage == MonitorStage::Pause,
        m.spawning is None,
        endpoint_configured(m.settings),
    ensures
        ({
            let stopped = stop_spec(m).0;
            let idle = monitor_next(mon, stopped, now_ms, MonitorEventView::Slept);
            let started = start_spec(idle.manager);
            let adopted = spawned_spec(started.0, Ok(pid), now_ms);
            let round = monitor_next(idle.monitor, adopted.0, now_ms, MonitorEventView::Slept);
            let seen = monitor_next(
                round.monitor,
                round.manager,
                now_ms,
                MonitorEventView::Child { pid, poll: ChildPoll::Exited(code) },
            );
            &&& idle.monitor.stage == MonitorStage::Pause
            &&& started.1 == Ok::<Option<SpawnRequestView>, Seq<char>>(
                Some(spawn_request(m.settings)),
            )
            &&& adopted.1 is Adopted
            &&& round.action == MonitorActionView::PollChild(pid)
            &&& seen.manager.child is None
            &&& !status_of(seen.manager, now_ms).connected
            &&& seen.monitor.stage == MonitorStage::RespawnTeardown || seen.monitor.stage
                == MonitorStage::RespawnDelay
        }),
{
}

/// The reconnect delay is waited in slices, none longer than a tick, and
/// nothing of it is lost: each slice and what is left after it make up
/// what was left before, and a slice is empty only where nothing is left.
pub proof fn lemma_wait_in_slices(mon: Monitor, m: ManagerView)
    ensures
        wait_on(mon, m).action == MonitorActionView::Sleep(
            (mon.remaining_ms - wait_on(mon, m).monitor.remaining_ms) as u64,
        ),
        mon.remaining_ms - wait_on(mon, m).monitor.remaining_ms <= MONITOR_TICK_MS,
        wait_on(mon, m).monitor.remaining_ms <= mon.remaining_ms,
        mon.remaining_ms > 0 ==> wait_on(mon, m).monitor.remaining_ms < mon.remaining_ms,
        mon.remaining_ms >= MONITOR_TICK_MS ==> wait_on(mon, m).action
            == MonitorActionView::Sleep(MONITOR_TICK_MS),
        wait_on(mon, m).manager == m,
{
}

/// While the reconnect delay is waited, every action is a pause of one
/// tick at most.
pub proof fn lemma_wait_pauses_are_short(mon: Monitor, m: ManagerView, now_ms: u64, e: MonitorEventView)
    requires
        monitor_next(mon, m, now_ms, e).monitor.stage == MonitorStage::RespawnDelay,
    ensures
        monitor_next(mon, m, now_ms, e).action is Sleep,
        monitor_next(mon, m, now_ms, e).action->Sleep_0 <= MONITOR_TICK_MS,
{
    match mon.stage {
        MonitorStage::Poll => {
            assert(monitor_next(mon, m, now_ms, e).action is Sleep);
        },
        MonitorStage::Pause => {
            assert(monitor_next(mon, m, now_ms, e).action is Sleep);
        },
        _ => {
            assert(monitor_next(mon, m, now_ms, e).action is Sleep);
        },
    }
}

/// A stop ends the reconnect wait at the next check point. Where, after a
/// slice of the wait, the supervisor was told to stop or the tunnel is
/// not meant to run, the monitor waits no further slice: it asks for no
/// process, leaves the supervisor as it is, and ends the round. So after a
/// stop at most the slice under way is waited. And a process is asked for
/// only where one may be started and nothing of the delay is left.
pub proof fn lemma_stop_ends_wait(mon: Monitor, m: ManagerView, now_ms: u64)
    requires
        mon.stage == MonitorStage::RespawnDelay,
    ensures
        m.should_stop || !m.running ==> monitor_next(mon, m, now_ms, MonitorEventView::Slept)
            == pause(mon, m),
        monitor_next(mon, m, now_ms, MonitorEventView::Slept).action is Spawn ==> may_respawn(m)
            && mon.remaining_ms == 0,
        may_respawn(m) && mon.remaining_ms > 0 ==> monitor_next(
            mon,
            m,
            now_ms,
            MonitorEventView::Slept,
        ) == wait_on(mon, m),
{
}

/// The reconnect delay is that of the settings at the time of the loss.
/// Whatever the monitor waited before, after a loss it sets out to wait
/// the delay that the supervisor's settings then name, so that new
/// settings take effect at the next respawn.
pub proof fn lemma_wait_follows_settings(mon: Monitor, m: ManagerView, settings: TunnelSettingsView)
    ensures
        ({
            let renewed = ManagerView { settings, ..m };
            let o = lost(mon, renewed);
            if renewed.routing_active {
                o.monitor.stage == MonitorStage::RespawnTeardown && o.monitor.remaining_ms
                    == 1000 * settings.reconnect_delay
            } else {
                o == wait_on(Monitor { remaining_ms: reconnect_ms(renewed), ..mon }, renewed)
                    && o.action is Sleep && o.action->Sleep_0 + o.monitor.remaining_ms == 1000
                    * settings.reconnect_delay
            }
        }),
{
}

/// What a started process comes to. A process that is adopted is the one
/// process that the supervisor holds, where it held none: the tunnel is
/// connected under its process number, without an error, from this
/// moment. A process that did not start leaves the supervisor without a
/// new process, and the reason is recorded.
pub proof fn lemma_spawn_outcome(m: ManagerView, pid: u32, reason: Seq<char>, now_ms: u64)
    ensures
        spawned_spec(m, Ok(pid), now_ms).1 is Adopted ==> m.child is None && status_of(
            spawned_spec(m, Ok(pid), now_ms).0,
            now_ms,
        ) == (TunnelStatusView {
            connected: true,
            uptime_seconds: 0,
            last_error: Seq::empty(),
            pid: Some(pid),
        }) && spawned_spec(m, Ok(pid), now_ms).0.running,
        spawned_spec(m, Err(reason), now_ms).0.child == m.child,
        spawned_spec(m, Err(reason), now_ms).0.running == m.running,
        spawned_spec(m, Err(reason), now_ms).0.last_error == reason,
        spawned_spec(m, Err(reason), now_ms).1 == SpawnVerdictView::Failed(reason),
{
}

/// Moving to another upstream interface touches nothing else. Where the
/// listing of default routes names another upstream interface than the
/// one known, that one is remembered and the count of failed probes
/// starts over; the process, the status, the routing and all else stay as
/// they are. Where it names none or the same, nothing changes at all.
pub proof fn lemma_reroute_touches_nothing_else(
    m: ManagerView,
    table: Result<Seq<char>, Seq<char>>,
    now_ms: u64,
)
    ensures
        wan_change(m, table) is Some ==> wan_seen_spec(m, table).0 == (ManagerView {
            last_wan_interface: wan_change(m, table)->0,
            watchdog_failures: 0,
            ..m
        }) && wan_seen_spec(m, table).1 == wan_change(m, table),
        wan_change(m, table) is None ==> wan_seen_spec(m, table).0 == m && wan_seen_spec(
            m,
            table,
        ).1 is None,
        status_of(wan_seen_spec(m, table).0, now_ms) == status_of(m, now_ms),
{
}

/// What a start comes to. A stopped supervisor whose settings name an
/// endpoint asks for one process, with the path of the configuration and
/// the log level as its arguments; a second start while that process is
/// awaited asks for none. Once the process is reported the tunnel runs,
/// the supervisor is not told to stop, and, where routing is managed and
/// no setup is under way, the setup for the endpoints is handed out
/// without being waited for.
pub proof fn lemma_start_outcome(m: ManagerView, pid: u32, now_ms: u64)
    requires
        !m.running,
        m.spawning is None,
        m.child is None,
        endpoint_configured(m.settings),
    ensures
        ({
            let started = start_spec(m);
            let again = start_spec(started.0);
            let adopted = spawned_spec(started.0, Ok(pid), now_ms);
            &&& started.1 == Ok::<Option<SpawnRequestView>, Seq<char>>(
                Some(spawn_request(m.settings)),
            )
            &&& spawn_request(m.settings).args == seq![
                "--config"@,
                spawn_request(m.settings).config_path,
                "--loglevel"@,
                m.settings.loglevel,
            ]
            &&& again.1 == Ok::<Option<SpawnRequestView>, Seq<char>>(None)
            &&& adopted.0.running
            &&& !adopted.0.should_stop
            &&& adopted.0.child == Some(Child { pid, since_ms: now_ms })
            &&& m.routing_enabled && !m.routing_setup_in_progress ==> adopted.1
                == (SpawnVerdictView::Adopted { setup: Some(m.settings.addresses) })
                && adopted.0.routing_setup_in_progress
        }),
{
}


/// A start fails exactly where the tunnel does not run and the settings
/// name no endpoint, be a process awaited or not; it then changes nothing:
/// no process is asked for, the tunnel stays as it is. With an endpoint it
/// never fails, and a tunnel that runs is never looked at.
pub proof fn lemma_start_needs_endpoint(m: ManagerView)
    ensures
        !m.running && !endpoint_configured(m.settings) ==> start_spec(m) == (
            m,
            Err::<Option<SpawnRequestView>, Seq<char>>(config_error()),
        ),
        start_spec(m).1 is Err <==> !m.running && !endpoint_configured(m.settings),
        m.running ==> start_spec(m) == (m, Ok::<Option<SpawnRequestView>, Seq<char>>(None)),
{
}

/// What the watchdog makes of its looks. Where the listing of default
/// routes names another upstream interface than the one known, the verdict
/// is to move the server routes there, and no restart: the new interface
/// is remembered, the count of failed probes is zero, and the process,
/// the status and the routing are untouched; the probe is not asked for
/// at this look. Where the upstream interface is the same or unknown, the
/// check goes on and nothing changes. A missing device begins a restart
/// that hands out the process held.
pub proof fn lemma_watchdog_reroutes_not_restarts(
    m: ManagerView,
    table: Result<Seq<char>, Seq<char>>,
    now_ms: u64,
)
    ensures
        wan_change(m, table) is Some ==> watchdog_spec(m, ObservationView::Routes(table)) == (
            ManagerView {
                last_wan_interface: wan_change(m, table)->0,
                watchdog_failures: 0,
                ..m
            },
            WatchdogVerdictView::Reroute(wan_change(m, table)->0),
        ),
        wan_change(m, table) is None ==> watchdog_spec(m, ObservationView::Routes(table)) == (
            m,
            WatchdogVerdictView::GoOn,
        ),
        status_of(watchdog_spec(m, ObservationView::Routes(table)).0, now_ms) == status_of(
            m,
            now_ms,
        ),
        watchdog_spec(m, ObservationView::Device(true)) == (m, WatchdogVerdictView::GoOn),
        watchdog_spec(m, ObservationView::Device(false)).1 == WatchdogVerdictView::Restart(
            match m.child {
                Some(c) => Some(c.pid),
                None => None,
            },
        ),
        watchdog_spec(m, ObservationView::Device(false)).0.child is None,
{
}

} // verus!
