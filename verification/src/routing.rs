//! The routing controller: the commands it runs, how it reads what they
//! print, the setup as a machine, and the plans that tear the routes down
//! or move them to another upstream interface.
pub mod command;
pub mod kernel;
pub mod outcome;
pub mod parse;
pub mod setup;

use crate::routing::command::{Device, OsCommand, OsCommandView, ServerIp, ServerIpView};
use vstd::prelude::*;

verus! {

/// The views of a list of commands.
pub open spec fn commands(v: Seq<OsCommand>) -> Seq<OsCommandView> {
    v.map_values(|c: OsCommand| c@)
}

/// The commands that undo the routing: each server's host route is
/// deleted, then the tunnel device is brought down.
pub open spec fn teardown_plan(ips: Seq<ServerIpView>) -> Seq<OsCommandView> {
    Seq::new(
        ips.len() + 1,
        |i: int|
            if i < ips.len() {
                OsCommandView::HostRouteDelete { v6: ips[i].v6, addr: ips[i].text }
            } else {
                OsCommandView::LinkDown(Device::Target)
            },
    )
}

/// Plans the teardown of the routing for a tunnel with the given servers.
/// The commands are to be run in order, all of them: a command that fails,
/// as each does where what it removes is already gone, neither stops the
/// teardown nor makes it an error.
pub fn teardown_routing(server_addresses: &Vec<ServerIp>) -> (plan: Vec<OsCommand>)
    ensures
        commands(plan@) == teardown_plan(command::server_ips(server_addresses@)),
{
    let mut plan: Vec<OsCommand> = Vec::new();
    let mut i: usize = 0;
    while i < server_addresses.len()
        invariant
            i <= server_addresses.len(),
            plan.len() == i,
            forall|j: int|
                0 <= j < i ==> (#[trigger] plan@[j])@ == (OsCommandView::HostRouteDelete {
                    v6: server_addresses@[j].v6,
                    addr: server_addresses@[j].text@,
                }),
        decreases server_addresses.len() - i,
    {
        plan.push(
            OsCommand::HostRouteDelete {
                v6: server_addresses[i].v6,
                addr: server_addresses[i].text.clone(),
            },
        );
        i += 1;
    }
    plan.push(OsCommand::LinkDown(Device::Target));
    assert(commands(plan@) =~= teardown_plan(command::server_ips(server_addresses@)));
    plan
}

/// The commands that move the servers' host routes to the upstream
/// interface `wan`: for each server in turn, its old host route is deleted
/// and a new one added.
pub open spec fn reroute_plan(ips: Seq<ServerIpView>, wan: Seq<char>) -> Seq<OsCommandView>
    decreases ips.len(),
{
    if ips.len() == 0 {
        Seq::empty()
    } else {
        reroute_plan(ips.drop_last(), wan).push(
            OsCommandView::HostRouteDelete { v6: ips.last().v6, addr: ips.last().text },
        ).push(OsCommandView::HostRouteAdd { v6: ips.last().v6, addr: ips.last().text, wan })
    }
}

/// Plans how the servers' host routes move to the upstream interface
/// `new_wan`. Nothing else is touched: not the tunnel device, not its
/// address, not the default route. The commands are to be run in order, all
/// of them; a failure stops nothing.
pub fn reroute_server_via_wan(server_addresses: &Vec<ServerIp>, new_wan: &str) -> (plan: Vec<
    OsCommand,
>)
    ensures
        commands(plan@) == reroute_plan(command::server_ips(server_addresses@), new_wan@),
{
    let mut plan: Vec<OsCommand> = Vec::new();
    let mut i: usize = 0;
    let ghost ips = command::server_ips(server_addresses@);
    assert(commands(plan@) =~= reroute_plan(ips.take(0), new_wan@));
    while i < server_addresses.len()
        invariant
            i <= server_addresses.len(),
            ips == command::server_ips(server_addresses@),
            commands(plan@) == reroute_plan(ips.take(i as int), new_wan@),
        decreases server_addresses.len() - i,
    {
        let ghost before = plan@;
        let del = OsCommand::HostRouteDelete {
            v6: server_addresses[i].v6,
            addr: server_addresses[i].text.clone(),
        };
        let add = OsCommand::HostRouteAdd {
            v6: server_addresses[i].v6,
            addr: server_addresses[i].text.clone(),
            wan: new_wan.to_owned(),
        };
        plan.push(del);
        plan.push(add);
        assert(ips.take(i + 1).drop_last() == ips.take(i as int));
        assert(ips.take(i + 1).last() == server_addresses@[i as int]@);
        assert(commands(plan@) =~= commands(before).push(del@).push(add@));
        i += 1;
    }
    assert(ips.take(server_addresses.len() as int) == ips);
    plan
}

} // verus!
