//! A model of what the kernel knows, and what the routing controller's
//! commands do to it: the ground on which the laws of the setup and the
//! teardown are stated.
use crate::routing::command::{host_prefix, Device, OsCommandView, ServerIpView};
use crate::routing::command::NdmCommandView;
use crate::routing::outcome::{direct_verdict, probe_verdict, Reach};
use crate::routing::parse::{route_visible, wan_of};
use crate::routing::setup::{
    action_of, next, ActionView, EventView, RoutingErrorView, SetupView, Stage,
};
use crate::routing::{reroute_plan, teardown_plan};
use vstd::prelude::*;

verus! {

/// What the kernel knows: which device goes by which name, and the
/// destinations of its host routes.
pub struct Kernel {
    pub names: Map<Device, nat>,
    pub routes: Set<Seq<char>>,
}

/// Whether the kernel can carry a command out. A renaming needs its source
/// and a free target name; deleting, raising and lowering need the device;
/// a host route can be deleted where it is and added where it is not.
pub open spec fn can_succeed(k: Kernel, c: OsCommandView) -> bool {
    match c {
        OsCommandView::LinkDelete(d) => k.names.contains_key(d),
        OsCommandView::LinkDown(d) => k.names.contains_key(d),
        OsCommandView::LinkUp(d) => k.names.contains_key(d),
        OsCommandView::LinkRename { from, to } => k.names.contains_key(from)
            && !k.names.contains_key(to),
        OsCommandView::AddrShow(d) => k.names.contains_key(d),
        OsCommandView::LinkShow(d) => k.names.contains_key(d),
        OsCommandView::HostRouteDelete { v6, addr } => k.routes.contains(host_prefix(v6, addr)),
        OsCommandView::HostRouteAdd { v6, addr, wan } => !k.routes.contains(host_prefix(v6, addr)),
        _ => true,
    }
}

/// The kernel after it carried a command out.
pub open spec fn effect(k: Kernel, c: OsCommandView) -> Kernel {
    match c {
        OsCommandView::LinkDelete(d) => Kernel { names: k.names.remove(d), ..k },
        OsCommandView::LinkRename { from, to } => Kernel {
            names: k.names.remove(from).insert(to, k.names[from]),
            ..k
        },
        OsCommandView::HostRouteDelete { v6, addr } => Kernel {
            routes: k.routes.remove(host_prefix(v6, addr)),
            ..k
        },
        OsCommandView::HostRouteAdd { v6, addr, wan } => Kernel {
            routes: k.routes.insert(host_prefix(v6, addr)),
            ..k
        },
        _ => k,
    }
}

/// The kernel after a command was run and succeeded or not: a command that
/// fails changes nothing.
pub open spec fn after(k: Kernel, c: OsCommandView, ok: bool) -> Kernel {
    if ok {
        effect(k, c)
    } else {
        k
    }
}

/// The kernel after the commands of a plan were run in order, where `oks`
/// tells of each whether it succeeded.
pub open spec fn after_all(k: Kernel, plan: Seq<OsCommandView>, oks: Seq<bool>) -> Kernel
    decreases plan.len(),
{
    if plan.len() == 0 || oks.len() != plan.len() {
        k
    } else {
        after(after_all(k, plan.drop_last(), oks.drop_last()), plan.last(), oks.last())
    }
}

/// Whether the kernel can have answered the commands of a plan as `oks`
/// tells: any command may fail, but one succeeds only where the kernel
/// could carry it out.
pub open spec fn answers_fit(k: Kernel, plan: Seq<OsCommandView>, oks: Seq<bool>) -> bool
    decreases plan.len(),
{
    if oks.len() != plan.len() {
        false
    } else if plan.len() == 0 {
        true
    } else {
        &&& answers_fit(k, plan.drop_last(), oks.drop_last())
        &&& oks.last() ==> can_succeed(
            after_all(k, plan.drop_last(), oks.drop_last()),
            plan.last(),
        )
    }
}

/// Whether the kernel holds neither the renamed tunnel device nor a host
/// route to one of the servers.
pub open spec fn nothing_to_tear_down(k: Kernel, ips: Seq<ServerIpView>) -> bool {
    &&& !k.names.contains_key(Device::Target)
    &&& forall|j: int| 0 <= j < ips.len() ==> !k.routes.contains(#[trigger] host_prefix(ips[j].v6, ips[j].text))
}

/// Where neither the tunnel device nor any of the host routes exists, the
/// teardown changes nothing: each of its commands fails, and no failure of
/// a command of the teardown is an error.
pub proof fn lemma_teardown_without_state(k: Kernel, ips: Seq<ServerIpView>, oks: Seq<bool>)
    requires
        nothing_to_tear_down(k, ips),
        answers_fit(k, teardown_plan(ips), oks),
    ensures
        after_all(k, teardown_plan(ips), oks) == k,
        forall|i: int| 0 <= i < oks.len() ==> !oks[i],
{
    lemma_prefix_unchanged(k, ips, teardown_plan(ips), oks);
}

proof fn lemma_prefix_unchanged(
    k: Kernel,
    ips: Seq<ServerIpView>,
    plan: Seq<OsCommandView>,
    oks: Seq<bool>,
)
    requires
        nothing_to_tear_down(k, ips),
        forall|i: int| 0 <= i < plan.len() ==> #[trigger] plan[i] == teardown_plan(ips)[i],
        plan.len() <= teardown_plan(ips).len(),
        answers_fit(k, plan, oks),
    ensures
        after_all(k, plan, oks) == k,
        forall|i: int| 0 <= i < oks.len() ==> !oks[i],
    decreases plan.len(),
{
    if plan.len() > 0 {
        lemma_prefix_unchanged(k, ips, plan.drop_last(), oks.drop_last());
        let i = plan.len() - 1;
        let c = plan.last();
        assert(c == teardown_plan(ips)[i]);
        if i < ips.len() {
            assert(!k.routes.contains(host_prefix(ips[i].v6, ips[i].text)));
        }
        assert(!can_succeed(k, c));
        assert forall|j: int| 0 <= j < oks.len() implies !oks[j] by {
            if j < oks.len() - 1 {
                assert(oks.drop_last()[j] == oks[j]);
            }
        }
    }
}

/// The command that a setup waits to have run, if it waits for one.
pub open spec fn command_under_way(s: SetupView) -> Option<OsCommandView> {
    match action_of(s) {
        ActionView::Run(c) => Some(c),
        _ => None,
    }
}

/// The two-phase renaming keeps the target name owned. Let the target name
/// be taken by an old device while the raw device waits beside it, and let
/// the setup stand where it parks the old device. Then, whatever the
/// renamings give, as long as a rollback that is tried succeeds: the setup
/// first asks to park the old device; where that fails it ends, the old
/// device untouched; where the raw device then takes the target name, the
/// setup goes on to drop the parked device; and where it does not, the
/// setup asks to rename the parked device back, ends with the message of
/// the renaming that failed, and the old device owns the target name
/// again, the parking name being free. Where the parked device is dropped,
/// the parking name is free as well.
pub proof fn lemma_two_phase_rename(
    s: SetupView,
    k: Kernel,
    now_ms: u64,
    park: Result<Seq<char>, Seq<char>>,
    second: Result<Seq<char>, Seq<char>>,
    undo: Seq<char>,
)
    requires
        s.stage == Stage::ParkOccupant,
        s.retry_wait is None,
        k.names.contains_key(Device::Raw),
        k.names.contains_key(Device::Target),
        !k.names.contains_key(Device::Backup),
    ensures
        ({
            let old_device = k.names[Device::Target];
            let new_device = k.names[Device::Raw];
            let park_cmd = OsCommandView::LinkRename { from: Device::Target, to: Device::Backup };
            let move_cmd = OsCommandView::LinkRename { from: Device::Raw, to: Device::Target };
            let undo_cmd = OsCommandView::LinkRename { from: Device::Backup, to: Device::Target };
            let s1 = next(s, now_ms, EventView::Command(park));
            let k1 = after(k, park_cmd, park is Ok);
            let s2 = next(s1, now_ms, EventView::Command(second));
            let k2 = after(k1, move_cmd, second is Ok);
            let s3 = next(s2, now_ms, EventView::Command(Ok(undo)));
            let k3 = after(k2, undo_cmd, true);
            &&& command_under_way(s) == Some(park_cmd)
            &&& park is Err ==> {
                &&& s1.stage == Stage::Finished
                &&& s1.failure == Some(RoutingErrorView::Command(park->Err_0))
                &&& k1.names.contains_key(Device::Target)
                &&& k1.names[Device::Target] == old_device
            }
            &&& park is Ok ==> {
                &&& command_under_way(s1) == Some(move_cmd)
                &&& can_succeed(k1, move_cmd)
            }
            &&& park is Ok && second is Ok ==> {
                &&& s2.stage == Stage::DropOccupant
                &&& command_under_way(s2) == Some(OsCommandView::LinkDelete(Device::Backup))
                &&& k2.names.contains_key(Device::Target)
                &&& k2.names[Device::Target] == new_device
                &&& can_succeed(k2, OsCommandView::LinkDelete(Device::Backup))
                &&& !after(k2, OsCommandView::LinkDelete(Device::Backup), true).names.contains_key(
                    Device::Backup,
                )
            }
            &&& park is Ok && second is Err ==> {
                &&& command_under_way(s2) == Some(undo_cmd)
                &&& can_succeed(k2, undo_cmd)
                &&& s3.stage == Stage::Finished
                &&& s3.failure == Some(RoutingErrorView::Command(second->Err_0))
                &&& k3.names.contains_key(Device::Target)
                &&& k3.names[Device::Target] == old_device
                &&& !k3.names.contains_key(Device::Backup)
                &&& k3.names.contains_key(Device::Raw)
            }
        }),
{
}

/// Moving the servers' host routes to another upstream interface touches
/// neither the names of the devices nor any route but the servers' own.
pub proof fn lemma_reroute_keeps_devices(
    k: Kernel,
    ips: Seq<ServerIpView>,
    wan: Seq<char>,
    oks: Seq<bool>,
)
    ensures
        after_all(k, reroute_plan(ips, wan), oks).names == k.names,
{
    lemma_routes_only(k, reroute_plan(ips, wan), oks);
    lemma_reroute_commands(ips, wan);
}

/// Each command of a rerouting deletes or adds a host route.
pub proof fn lemma_reroute_commands(ips: Seq<ServerIpView>, wan: Seq<char>)
    ensures
        reroute_plan(ips, wan).len() == 2 * ips.len(),
        forall|i: int|
            0 <= i < reroute_plan(ips, wan).len() ==> is_route_command(
                #[trigger] reroute_plan(ips, wan)[i],
            ),
    decreases ips.len(),
{
    if ips.len() > 0 {
        lemma_reroute_commands(ips.drop_last(), wan);
    }
}

pub open spec fn is_route_command(c: OsCommandView) -> bool {
    c is HostRouteDelete || c is HostRouteAdd
}

proof fn lemma_routes_only(k: Kernel, plan: Seq<OsCommandView>, oks: Seq<bool>)
    ensures
        (forall|i: int| 0 <= i < plan.len() ==> is_route_command(#[trigger] plan[i])) ==> after_all(
            k,
            plan,
            oks,
        ).names == k.names,
    decreases plan.len(),
{
    if plan.len() > 0 && oks.len() == plan.len() {
        lemma_routes_only(k, plan.drop_last(), oks.drop_last());
        if forall|i: int| 0 <= i < plan.len() ==> is_route_command(#[trigger] plan[i]) {
            assert forall|i: int| 0 <= i < plan.drop_last().len() implies is_route_command(
                #[trigger] plan.drop_last()[i],
            ) by {
                assert(plan.drop_last()[i] == plan[i]);
            }
            assert(is_route_command(plan[plan.len() - 1]));
        }
    }
}


/// Once the upstream interface is found, the servers get their host
/// routes through it. Where the listing of default routes names an
/// upstream interface, it is remembered, and for the first server its old
/// host route is asked to be deleted; without a server the default route
/// is set at once. Where the listing names none, the setup fails.
pub proof fn lemma_wan_found(s: SetupView, now_ms: u64, table: Result<Seq<char>, Seq<char>>)
    requires
        s.stage == Stage::DetectWan,
        s.retry_wait is None,
    ensures
        ({
            let after = next(s, now_ms, EventView::Command(table));
            &&& wan_of(table) is None ==> after.stage == Stage::Finished && after.failure == Some(
                RoutingErrorView::WanUndetected,
            )
            &&& wan_of(table) is Some ==> after.wan == wan_of(table)->0
            &&& wan_of(table) is Some && s.servers.len() > 0 ==> action_of(after)
                == ActionView::Run(
                OsCommandView::HostRouteDelete { v6: s.servers[0].v6, addr: s.servers[0].text },
            ) && after.next_server == 1
            &&& wan_of(table) is Some && s.servers.len() == 0 ==> action_of(after)
                == ActionView::Control(NdmCommandView::DefaultRoute)
        }),
{
}

/// Each server's host route is deleted, then added through the upstream
/// interface, whatever the deleting gave; then the next server follows,
/// and after the last one the default route through the tunnel is set.
/// Neither command can end the setup.
pub proof fn lemma_host_route_pair(
    s: SetupView,
    now_ms: u64,
    deleted: Result<Seq<char>, Seq<char>>,
    added: Result<Seq<char>, Seq<char>>,
)
    requires
        s.stage == Stage::RouteDelete,
        s.retry_wait is None,
    ensures
        ({
            let s1 = next(s, now_ms, EventView::Command(deleted));
            let s2 = next(s1, now_ms, EventView::Command(added));
            &&& action_of(s) == ActionView::Run(
                OsCommandView::HostRouteDelete { v6: s.route_v6, addr: s.route_addr },
            )
            &&& action_of(s1) == ActionView::Run(
                OsCommandView::HostRouteAdd { v6: s.route_v6, addr: s.route_addr, wan: s.wan },
            )
            &&& s2.wan == s.wan
            &&& s.next_server < s.servers.len() ==> action_of(s2) == ActionView::Run(
                OsCommandView::HostRouteDelete {
                    v6: s.servers[s.next_server as int].v6,
                    addr: s.servers[s.next_server as int].text,
                },
            ) && s2.next_server == s.next_server + 1
            &&& s.next_server >= s.servers.len() ==> action_of(s2) == ActionView::Control(
                NdmCommandView::DefaultRoute,
            )
        }),
{
}

/// The default route through the tunnel has to be set; the IPv6 default
/// route may fail. Once the default route is set, the IPv6 one is tried,
/// and whatever that gives, be it after the last attempt, the setup goes
/// on to look for the route in the kernel's table and does not fail.
pub proof fn lemma_default_routes(s: SetupView, now_ms: u64, r: Result<Seq<char>, Seq<char>>)
    requires
        s.retry_wait is None,
    ensures
        s.stage == Stage::DefaultRoute ==> action_of(s) == ActionView::Control(
            NdmCommandView::DefaultRoute,
        ),
        s.stage == Stage::DefaultRoute && r is Ok ==> action_of(
            next(s, now_ms, EventView::Control(r)),
        ) == ActionView::Control(NdmCommandView::DefaultRouteV6),
        s.stage == Stage::DefaultRouteV6 ==> next(s, now_ms, EventView::Control(r)).stage
            != Stage::Finished && (next(s, now_ms, EventView::Control(r)).stage
            == Stage::VerifyRoute || next(s, now_ms, EventView::Control(r)).retry_wait is Some),
        s.stage == Stage::DefaultRouteV6 && next(s, now_ms, EventView::Control(r)).stage
            == Stage::VerifyRoute ==> action_of(next(s, now_ms, EventView::Control(r)))
            == ActionView::Run(OsCommandView::DefaultRouteShow),
{
}

/// A setup ends well only where traffic can flow: the kernel shows the
/// default route through the tunnel, or a probe through the tunnel went
/// through. It then gives the upstream interface that it found.
pub proof fn lemma_success_needs_route(s: SetupView, now_ms: u64, e: EventView)
    requires
        s.stage != Stage::Finished,
        next(s, now_ms, e).stage == Stage::Finished,
        next(s, now_ms, e).failure is None,
    ensures
        ({
            ||| s.stage == Stage::VerifyRoute && (e matches EventView::Command(Ok(out))
                && route_visible(out))
            ||| s.stage == Stage::Probe && (e matches EventView::Probed { result, os_not_found }
                && probe_verdict(result, os_not_found) == Reach::Reached)
            ||| s.stage == Stage::ProbeFallback && (e matches EventView::Http(status)
                && direct_verdict(status))
        }),
        action_of(next(s, now_ms, e)) == ActionView::Finished(Ok(s.wan)),
{
}

} // verus!
