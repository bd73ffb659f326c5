//! The routing setup as a machine: each answer from the outside moves it to
//! its next stage, and each stage names the one thing to do next.
use crate::routing::command::{
    server_ips, Device, NdmCommand, NdmCommandView, OsCommand, OsCommandView, ServerIp,
    ServerIpView,
};
use crate::routing::outcome::{
    check_connectivity, check_connectivity_directly, direct_verdict, ndmc, probe_verdict,
    retry_decision, text_result, Reach, Retry,
};
use crate::routing::parse::{
    current_wan_interface, default_route_via_target, get_tun_ip_mask, get_tun_mtu, interface_index,
    ip_mask_of, mtu_of, parse_ndm_interface_index, route_visible, wan_of,
};
use crate::text::{chars_mention, chars_of, chars_to_lower, contains, to_lower};
use vstd::prelude::*;

verus! {

/// How long the raw device may take to appear, in milliseconds.
pub const TUN_WAIT_TIMEOUT_MS: u64 = 30000;

/// The pause between two looks for the raw device.
pub const TUN_POLL_INTERVAL_MS: u64 = 500;

/// The pause after the raw device appeared, before it is touched.
pub const TUN_SETTLE_MS: u64 = 500;

/// How long the raw device may take to show again after a name conflict.
pub const TUN_RENAME_RETRY_TIMEOUT_MS: u64 = 3000;

/// The pause between two looks for the raw device after a name conflict.
pub const TUN_RENAME_RETRY_POLL_INTERVAL_MS: u64 = 100;

/// How long the kernel may take to show the default route.
pub const NDM_VERIFY_TIMEOUT_MS: u64 = 5000;

/// The pause between two looks at the kernel's routing table.
pub const NDM_VERIFY_POLL_INTERVAL_MS: u64 = 300;

/// How long the management layer may take to bind the kernel device.
pub const NDM_BIND_VERIFY_TIMEOUT_MS: u64 = 5000;

/// The pause between two looks at the binding.
pub const NDM_BIND_VERIFY_POLL_INTERVAL_MS: u64 = 300;

/// The seconds that the reachability probe of the setup may take.
pub const SETUP_PROBE_TIMEOUT_SECS: u64 = 5;

/// The address that the reachability probe of the setup asks for.
pub open spec fn setup_probe_url() -> Seq<char> {
    "http://connectivitycheck.gstatic.com/generate_204"@
}

/// Why a routing setup failed.
#[derive(Debug)]
pub enum RoutingError {
    /// The raw device did not appear in time.
    DeviceTimeout,
    /// The raw device was gone when a name conflict was to be resolved.
    DeviceLost,
    /// Neither the raw device nor the renamed one exists.
    DeviceMissing,
    /// A command of the operating system that had to succeed failed.
    Command(String),
    /// The control tool kept failing in passing until no attempt was left.
    TransientControl(String),
    /// The control tool failed in a way that does not pass.
    FatalControl(String),
    /// No upstream interface could be found.
    WanUndetected,
    /// The kernel does not show the default route and no traffic flows.
    RouteVerification,
}

pub enum RoutingErrorView {
    DeviceTimeout,
    DeviceLost,
    DeviceMissing,
    Command(Seq<char>),
    TransientControl(Seq<char>),
    FatalControl(Seq<char>),
    WanUndetected,
    RouteVerification,
}

impl View for RoutingError {
    type V = RoutingErrorView;

    open spec fn view(&self) -> RoutingErrorView {
        match *self {
            RoutingError::DeviceTimeout => RoutingErrorView::DeviceTimeout,
            RoutingError::DeviceLost => RoutingErrorView::DeviceLost,
            RoutingError::DeviceMissing => RoutingErrorView::DeviceMissing,
            RoutingError::Command(e) => RoutingErrorView::Command(e@),
            RoutingError::TransientControl(e) => RoutingErrorView::TransientControl(e@),
            RoutingError::FatalControl(e) => RoutingErrorView::FatalControl(e@),
            RoutingError::WanUndetected => RoutingErrorView::WanUndetected,
            RoutingError::RouteVerification => RoutingErrorView::RouteVerification,
        }
    }
}

/// The message that tells of an error.
pub open spec fn error_message(e: RoutingErrorView) -> Seq<char> {
    match e {
        RoutingErrorView::DeviceTimeout => "tun0 did not appear within 30s"@,
        RoutingErrorView::DeviceLost =>
            "tun0 disappeared before rename retry after opkgtun0 conflict"@,
        RoutingErrorView::DeviceMissing => "neither tun0 nor opkgtun0 exists after wait stage"@,
        RoutingErrorView::Command(m) => m,
        RoutingErrorView::TransientControl(m) => m,
        RoutingErrorView::FatalControl(m) => m,
        RoutingErrorView::WanUndetected => "failed to detect WAN interface"@,
        RoutingErrorView::RouteVerification =>
            "default route via opkgtun0 is not active in kernel routing table and connectivity probe failed"@,
    }
}

impl RoutingError {
    pub fn duplicate(&self) -> (r: Self)
        ensures
            r@ == self@,
    {
        match self {
            RoutingError::DeviceTimeout => RoutingError::DeviceTimeout,
            RoutingError::DeviceLost => RoutingError::DeviceLost,
            RoutingError::DeviceMissing => RoutingError::DeviceMissing,
            RoutingError::Command(e) => RoutingError::Command(e.clone()),
            RoutingError::TransientControl(e) => RoutingError::TransientControl(e.clone()),
            RoutingError::FatalControl(e) => RoutingError::FatalControl(e.clone()),
            RoutingError::WanUndetected => RoutingError::WanUndetected,
            RoutingError::RouteVerification => RoutingError::RouteVerification,
        }
    }

    /// The message that tells of this error.
    pub fn message(&self) -> (r: String)
        ensures
            r@ == error_message(self@),
    {
        match self {
            RoutingError::DeviceTimeout => "tun0 did not appear within 30s".to_owned(),
            RoutingError::DeviceLost =>
                "tun0 disappeared before rename retry after opkgtun0 conflict".to_owned(),
            RoutingError::DeviceMissing =>
                "neither tun0 nor opkgtun0 exists after wait stage".to_owned(),
            RoutingError::Command(m) => m.clone(),
            RoutingError::TransientControl(m) => m.clone(),
            RoutingError::FatalControl(m) => m.clone(),
            RoutingError::WanUndetected => "failed to detect WAN interface".to_owned(),
            RoutingError::RouteVerification =>
                "default route via opkgtun0 is not active in kernel routing table and connectivity probe failed".to_owned(),
        }
    }
}

/// Where a routing setup stands. Each stage but the last waits for the
/// answer to the one action that it names.
#[derive(Clone, Copy, PartialEq, Eq, Debug, Structural)]
pub enum Stage {
    /// Looking whether the raw device exists.
    WaitRaw,
    /// Pausing before the next look for the raw device.
    WaitRawSleep,
    /// Pausing once the raw device has appeared.
    Settle,
    /// Deleting a parked device that an interrupted run left behind.
    ClearBackup,
    /// Creating the interface object in the management layer.
    CreateObject,
    /// Looking whether the raw device is still there.
    ProbeRaw,
    /// Looking whether the target name is taken.
    ProbeTarget,
    /// Bringing the raw device down.
    RawDown,
    /// Renaming the raw device to the target name.
    Rename,
    /// Looking whether the target name is taken, after the renaming failed.
    ProbeConflict,
    /// Looking for the raw device before the occupant is moved away.
    WaitRawAgain,
    /// Pausing before the next such look.
    WaitRawAgainSleep,
    /// Bringing the occupant of the target name down.
    OccupantDown,
    /// Renaming the occupant to the parking name.
    ParkOccupant,
    /// Renaming the raw device to the target name, now that it is free.
    RenameAgain,
    /// Deleting the parked occupant.
    DropOccupant,
    /// Renaming the parked occupant back, after the second renaming failed.
    Rollback,
    /// Bringing the renamed device up.
    TargetUp,
    /// Bringing up a device that already had the target name.
    TargetUpSoft,
    /// Listing the addresses of the device.
    AddrShow,
    /// Telling the management layer the address.
    SetAddress,
    /// Listing the link of the device.
    LinkShow,
    /// Telling the management layer the MTU.
    SetMtu,
    GlobalAuto,
    AdjustMss,
    SecurityPublic,
    InterfaceUp,
    /// Asking the management layer whether it has bound the kernel device.
    BindCheck,
    /// Pausing before the next such question.
    BindSleep,
    /// Listing the default routes to find the upstream interface.
    DetectWan,
    /// Deleting an old host route to a server.
    RouteDelete,
    /// Adding the host route to a server through the upstream interface.
    RouteAdd,
    /// Setting the default route through the tunnel.
    DefaultRoute,
    /// Setting the IPv6 default route through the tunnel.
    DefaultRouteV6,
    /// Listing the default routes to see the new one.
    VerifyRoute,
    /// Pausing before the next such listing.
    VerifySleep,
    /// Probing whether traffic flows through the tunnel.
    Probe,
    /// Probing again without the probing tool.
    ProbeFallback,
    /// The setup has ended.
    Finished,
}

/// An answer from the outside to the action that a setup named.
#[derive(Debug)]
pub enum Event {
    /// Whether the device that was looked for exists.
    Present(bool),
    /// The pause is over.
    Slept,
    /// How a command of the operating system ended.
    Command(Result<String, String>),
    /// How one run of the control tool ended.
    Control(Result<String, String>),
    /// How the probe ended, and whether the operating system's last error
    /// says that something was not found.
    Probed { result: Result<String, String>, os_not_found: bool },
    /// The status that the request without the probing tool was answered
    /// with, if an answer came.
    Http(Option<u16>),
}

pub enum EventView {
    Present(bool),
    Slept,
    Command(Result<Seq<char>, Seq<char>>),
    Control(Result<Seq<char>, Seq<char>>),
    Probed { result: Result<Seq<char>, Seq<char>>, os_not_found: bool },
    Http(Option<u16>),
}

impl View for Event {
    type V = EventView;

    open spec fn view(&self) -> EventView {
        match *self {
            Event::Present(b) => EventView::Present(b),
            Event::Slept => EventView::Slept,
            Event::Command(r) => EventView::Command(text_result(r)),
            Event::Control(r) => EventView::Control(text_result(r)),
            Event::Probed { result, os_not_found } => EventView::Probed {
                result: text_result(result),
                os_not_found,
            },
            Event::Http(s) => EventView::Http(s),
        }
    }
}

/// What a setup asks the outside to do next.
#[derive(Debug)]
pub enum Action {
    /// Look whether the kernel knows the device; answer with `Present`.
    Probe(Device),
    /// Pause for so many milliseconds; answer with `Slept`.
    Sleep(u64),
    /// Run the command; answer with `Command`, or with `Probed` for a
    /// probe.
    Run(OsCommand),
    /// Run the control tool once; answer with `Control`.
    Control(NdmCommand),
    /// Request the address without the probing tool; answer with `Http`.
    Http { url: String, timeout_secs: u64 },
    /// Nothing: the setup has ended, with the upstream interface or with
    /// the reason why it failed.
    Finished(Result<String, RoutingError>),
}

pub enum ActionView {
    Probe(Device),
    Sleep(u64),
    Run(OsCommandView),
    Control(NdmCommandView),
    Http { url: Seq<char>, timeout_secs: u64 },
    Finished(Result<Seq<char>, RoutingErrorView>),
}

impl View for Action {
    type V = ActionView;

    open spec fn view(&self) -> ActionView {
        match *self {
            Action::Probe(d) => ActionView::Probe(d),
            Action::Sleep(ms) => ActionView::Sleep(ms),
            Action::Run(c) => ActionView::Run(c@),
            Action::Control(c) => ActionView::Control(c@),
            Action::Http { url, timeout_secs } => ActionView::Http { url: url@, timeout_secs },
            Action::Finished(r) => ActionView::Finished(
                match r {
                    Ok(w) => Ok(w@),
                    Err(e) => Err(e@),
                },
            ),
        }
    }
}

/// A routing setup in progress.
#[derive(Debug)]
pub struct Setup {
    stage: Stage,
    servers: Vec<ServerIp>,
    since_ms: u64,
    attempt: u32,
    retry_wait: Option<u64>,
    raw_present: bool,
    next_server: usize,
    route_v6: bool,
    route_addr: String,
    wan: String,
    address_ip: String,
    address_mask: String,
    mtu: u16,
    rename_error: String,
    failure: Option<RoutingError>,
}

/// The mathematical content of a [`Setup`].
pub struct SetupView {
    /// The stage that the setup is in.
    pub stage: Stage,
    /// The addresses of the tunnel's servers.
    pub servers: Seq<ServerIpView>,
    /// When the timed wait under way began.
    pub since_ms: u64,
    /// The number of the control tool's attempt under way, from one.
    pub attempt: u32,
    /// The pause under way before the control tool runs again.
    pub retry_wait: Option<u64>,
    /// Whether the raw device was there when it was looked for.
    pub raw_present: bool,
    /// How many servers have been given their host route, the one under
    /// way included.
    pub next_server: nat,
    /// The server whose host route is under way.
    pub route_v6: bool,
    pub route_addr: Seq<char>,
    /// The upstream interface.
    pub wan: Seq<char>,
    /// The address and netmask of the tunnel device.
    pub address_ip: Seq<char>,
    pub address_mask: Seq<char>,
    /// The MTU of the tunnel device.
    pub mtu: u16,
    /// The message of the renaming that failed.
    pub rename_error: Seq<char>,
    /// Why the setup failed.
    pub failure: Option<RoutingErrorView>,
}

impl View for Setup {
    type V = SetupView;

    closed spec fn view(&self) -> SetupView {
        SetupView {
            stage: self.stage,
            servers: server_ips(self.servers@),
            since_ms: self.since_ms,
            attempt: self.attempt,
            retry_wait: self.retry_wait,
            raw_present: self.raw_present,
            next_server: self.next_server as nat,
            route_v6: self.route_v6,
            route_addr: self.route_addr@,
            wan: self.wan@,
            address_ip: self.address_ip@,
            address_mask: self.address_mask@,
            mtu: self.mtu,
            rename_error: self.rename_error@,
            failure: match self.failure {
                Some(e) => Some(e@),
                None => None,
            },
        }
    }
}

/// A setup that has just begun at the time `now_ms`: it looks for the raw
/// device.
pub open spec fn initial(servers: Seq<ServerIpView>, now_ms: u64) -> SetupView {
    SetupView {
        stage: Stage::WaitRaw,
        servers,
        since_ms: now_ms,
        attempt: 1,
        retry_wait: None,
        raw_present: false,
        next_server: 0,
        route_v6: false,
        route_addr: Seq::empty(),
        wan: Seq::empty(),
        address_ip: Seq::empty(),
        address_mask: Seq::empty(),
        mtu: 0,
        rename_error: Seq::empty(),
        failure: None,
    }
}

/// The milliseconds from `since_ms` to `now_ms`; none where the clock went
/// back.
pub open spec fn elapsed_ms(since_ms: u64, now_ms: u64) -> u64 {
    if now_ms >= since_ms {
        (now_ms - since_ms) as u64
    } else {
        0
    }
}

/// The setup `s` moved to `stage`.
pub open spec fn at(s: SetupView, stage: Stage) -> SetupView {
    SetupView { stage, attempt: 1, retry_wait: None, ..s }
}

/// The setup `s` moved to `stage`, where a timed wait begins.
pub open spec fn at_timed(s: SetupView, stage: Stage, now_ms: u64) -> SetupView {
    SetupView { since_ms: now_ms, ..at(s, stage) }
}

/// The setup `s` ended by `error`.
pub open spec fn failed(s: SetupView, error: RoutingErrorView) -> SetupView {
    SetupView { stage: Stage::Finished, failure: Some(error), retry_wait: None, ..s }
}

/// The setup `s` ended well.
pub open spec fn succeeded(s: SetupView) -> SetupView {
    SetupView { stage: Stage::Finished, failure: None, retry_wait: None, ..s }
}

/// The setup `s` on its way to the next server's host route, or, where all
/// servers have theirs, to the default route.
pub open spec fn with_routes(s: SetupView) -> SetupView {
    if s.next_server < s.servers.len() {
        SetupView {
            route_v6: s.servers[s.next_server as int].v6,
            route_addr: s.servers[s.next_server as int].text,
            next_server: s.next_server + 1,
            ..at(s, Stage::RouteDelete)
        }
    } else {
        at(s, Stage::DefaultRoute)
    }
}

/// The stage that follows a stage of the control tool.
pub open spec fn control_target(stage: Stage) -> Stage {
    match stage {
        Stage::CreateObject => Stage::ProbeRaw,
        Stage::SetAddress => Stage::LinkShow,
        Stage::SetMtu => Stage::GlobalAuto,
        Stage::GlobalAuto => Stage::AdjustMss,
        Stage::AdjustMss => Stage::SecurityPublic,
        Stage::SecurityPublic => Stage::InterfaceUp,
        Stage::InterfaceUp => Stage::BindCheck,
        Stage::DefaultRoute => Stage::DefaultRouteV6,
        Stage::DefaultRouteV6 => Stage::VerifyRoute,
        other => other,
    }
}

/// Whether a stage runs the control tool for a command that must succeed
/// or, for the IPv6 default route, may fail.
pub open spec fn is_control_stage(stage: Stage) -> bool {
    control_target(stage) != stage
}

/// The setup `s` past its stage of the control tool.
pub open spec fn proceed(s: SetupView, now_ms: u64) -> SetupView {
    let t = control_target(s.stage);
    if t == Stage::BindCheck || t == Stage::VerifyRoute {
        at_timed(s, t, now_ms)
    } else {
        at(s, t)
    }
}

/// The error for a failure of the control tool.
pub open spec fn control_error(transient: bool, message: Seq<char>) -> RoutingErrorView {
    if transient {
        RoutingErrorView::TransientControl(message)
    } else {
        RoutingErrorView::FatalControl(message)
    }
}

/// The setup `s` with a pause before the control tool runs again.
pub open spec fn retrying(s: SetupView, delay_ms: u64) -> SetupView {
    SetupView { retry_wait: Some(delay_ms), attempt: (s.attempt + 1) as u32, ..s }
}

/// What a name conflict looks like: the renaming failed because, as its
/// message says in some case of letters, the file exists.
pub open spec fn says_exists(message: Seq<char>) -> bool {
    contains(to_lower(message), "file exists"@)
}

/// The state that follows `s` when, at the time `now_ms`, the answer `e`
/// arrives. An answer that does not fit the action under way changes
/// nothing.
pub open spec fn next(s: SetupView, now_ms: u64, e: EventView) -> SetupView {
    if s.retry_wait is Some {
        match e {
            EventView::Slept => SetupView { retry_wait: None, ..s },
            _ => s,
        }
    } else {
        match (s.stage, e) {
            (Stage::WaitRaw, EventView::Present(found)) => if found {
                at(s, Stage::Settle)
            } else {
                at(s, Stage::WaitRawSleep)
            },
            (Stage::WaitRawSleep, EventView::Slept) => if elapsed_ms(s.since_ms, now_ms)
                < TUN_WAIT_TIMEOUT_MS {
                at(s, Stage::WaitRaw)
            } else {
                failed(s, RoutingErrorView::DeviceTimeout)
            },
            (Stage::Settle, EventView::Slept) => at(s, Stage::ClearBackup),
            (Stage::ClearBackup, EventView::Command(_)) => at(s, Stage::CreateObject),
            (Stage::ProbeRaw, EventView::Present(found)) => SetupView {
                raw_present: found,
                ..at(s, Stage::ProbeTarget)
            },
            (Stage::ProbeTarget, EventView::Present(found)) => if s.raw_present {
                at(s, Stage::RawDown)
            } else if found {
                at(s, Stage::TargetUpSoft)
            } else {
                failed(s, RoutingErrorView::DeviceMissing)
            },
            (Stage::RawDown, EventView::Command(r)) => match r {
                Ok(_) => at(s, Stage::Rename),
                Err(m) => failed(s, RoutingErrorView::Command(m)),
            },
            (Stage::Rename, EventView::Command(r)) => match r {
                Ok(_) => at(s, Stage::TargetUp),
                Err(m) => SetupView { rename_error: m, ..at(s, Stage::ProbeConflict) },
            },
            (Stage::ProbeConflict, EventView::Present(found)) => if says_exists(s.rename_error)
                && found {
                at_timed(s, Stage::WaitRawAgain, now_ms)
            } else {
                failed(s, RoutingErrorView::Command(s.rename_error))
            },
            (Stage::WaitRawAgain, EventView::Present(found)) => if found {
                at(s, Stage::OccupantDown)
            } else {
                at(s, Stage::WaitRawAgainSleep)
            },
            (Stage::WaitRawAgainSleep, EventView::Slept) => if elapsed_ms(s.since_ms, now_ms)
                < TUN_RENAME_RETRY_TIMEOUT_MS {
                at(s, Stage::WaitRawAgain)
            } else {
                failed(s, RoutingErrorView::DeviceLost)
            },
            (Stage::OccupantDown, EventView::Command(_)) => at(s, Stage::ParkOccupant),
            (Stage::ParkOccupant, EventView::Command(r)) => match r {
                Ok(_) => at(s, Stage::RenameAgain),
                Err(m) => failed(s, RoutingErrorView::Command(m)),
            },
            (Stage::RenameAgain, EventView::Command(r)) => match r {
                Ok(_) => at(s, Stage::DropOccupant),
                Err(m) => SetupView { rename_error: m, ..at(s, Stage::Rollback) },
            },
            (Stage::DropOccupant, EventView::Command(_)) => at(s, Stage::TargetUp),
            (Stage::Rollback, EventView::Command(_)) => failed(
                s,
                RoutingErrorView::Command(s.rename_error),
            ),
            (Stage::TargetUp, EventView::Command(r)) => match r {
                Ok(_) => at(s, Stage::AddrShow),
                Err(m) => failed(s, RoutingErrorView::Command(m)),
            },
            (Stage::TargetUpSoft, EventView::Command(_)) => at(s, Stage::AddrShow),
            (Stage::AddrShow, EventView::Command(r)) => match ip_mask_of(r) {
                Some(pair) => SetupView {
                    address_ip: pair.0,
                    address_mask: pair.1,
                    ..at(s, Stage::SetAddress)
                },
                None => at(s, Stage::LinkShow),
            },
            (Stage::LinkShow, EventView::Command(r)) => match mtu_of(r) {
                Some(m) => SetupView { mtu: m, ..at(s, Stage::SetMtu) },
                None => at(s, Stage::GlobalAuto),
            },
            (Stage::BindCheck, EventView::Control(r)) => match retry_decision(s.attempt, r) {
                Retry::Done => if interface_index(r->Ok_0) is Some && interface_index(
                    r->Ok_0,
                )->0 > 0 {
                    at(s, Stage::DetectWan)
                } else {
                    at(s, Stage::BindSleep)
                },
                Retry::Again { delay_ms } => retrying(s, delay_ms),
                Retry::GiveUp { .. } => at(s, Stage::BindSleep),
            },
            (Stage::BindSleep, EventView::Slept) => if elapsed_ms(s.since_ms, now_ms)
                < NDM_BIND_VERIFY_TIMEOUT_MS {
                at(s, Stage::BindCheck)
            } else {
                at(s, Stage::DetectWan)
            },
            (Stage::DetectWan, EventView::Command(r)) => match wan_of(r) {
                Some(w) => with_routes(SetupView { wan: w, next_server: 0, ..s }),
                None => failed(s, RoutingErrorView::WanUndetected),
            },
            (Stage::RouteDelete, EventView::Command(_)) => at(s, Stage::RouteAdd),
            (Stage::RouteAdd, EventView::Command(_)) => with_routes(s),
            (Stage::VerifyRoute, EventView::Command(r)) => if r is Ok && route_visible(r->Ok_0) {
                succeeded(s)
            } else {
                at(s, Stage::VerifySleep)
            },
            (Stage::VerifySleep, EventView::Slept) => if elapsed_ms(s.since_ms, now_ms)
                < NDM_VERIFY_TIMEOUT_MS {
                at(s, Stage::VerifyRoute)
            } else {
                at(s, Stage::Probe)
            },
            (Stage::Probe, EventView::Probed { result, os_not_found }) => match probe_verdict(
                result,
                os_not_found,
            ) {
                Reach::Reached => succeeded(s),
                Reach::AskDirectly => at(s, Stage::ProbeFallback),
                Reach::Unreachable => failed(s, RoutingErrorView::RouteVerification),
            },
            (Stage::ProbeFallback, EventView::Http(status)) => if direct_verdict(status) {
                succeeded(s)
            } else {
                failed(s, RoutingErrorView::RouteVerification)
            },
            (stage, EventView::Control(r)) => if is_control_stage(stage) {
                match retry_decision(s.attempt, r) {
                    Retry::Done => proceed(s, now_ms),
                    Retry::Again { delay_ms } => retrying(s, delay_ms),
                    Retry::GiveUp { transient } => if stage == Stage::DefaultRouteV6 {
                        proceed(s, now_ms)
                    } else {
                        failed(s, control_error(transient, r->Err_0))
                    },
                }
            } else {
                s
            },
            _ => s,
        }
    }
}

/// The command of the control tool that a stage runs.
pub open spec fn control_command(s: SetupView) -> NdmCommandView {
    match s.stage {
        Stage::SetAddress => NdmCommandView::SetAddress { ip: s.address_ip, mask: s.address_mask },
        Stage::SetMtu => NdmCommandView::SetMtu(s.mtu),
        Stage::GlobalAuto => NdmCommandView::GlobalAuto,
        Stage::AdjustMss => NdmCommandView::AdjustMss,
        Stage::SecurityPublic => NdmCommandView::SecurityPublic,
        Stage::InterfaceUp => NdmCommandView::InterfaceUp,
        Stage::BindCheck => NdmCommandView::ShowInterface,
        Stage::DefaultRoute => NdmCommandView::DefaultRoute,
        Stage::DefaultRouteV6 => NdmCommandView::DefaultRouteV6,
        _ => NdmCommandView::CreateInterface,
    }
}

/// The action that the setup `s` waits for.
pub open spec fn action_of(s: SetupView) -> ActionView {
    if s.retry_wait is Some {
        ActionView::Sleep(s.retry_wait->0)
    } else {
        match s.stage {
            Stage::WaitRaw | Stage::ProbeRaw | Stage::WaitRawAgain => ActionView::Probe(
                Device::Raw,
            ),
            Stage::ProbeTarget | Stage::ProbeConflict => ActionView::Probe(Device::Target),
            Stage::WaitRawSleep => ActionView::Sleep(TUN_POLL_INTERVAL_MS),
            Stage::Settle => ActionView::Sleep(TUN_SETTLE_MS),
            Stage::WaitRawAgainSleep => ActionView::Sleep(TUN_RENAME_RETRY_POLL_INTERVAL_MS),
            Stage::BindSleep => ActionView::Sleep(NDM_BIND_VERIFY_POLL_INTERVAL_MS),
            Stage::VerifySleep => ActionView::Sleep(NDM_VERIFY_POLL_INTERVAL_MS),
            Stage::ClearBackup | Stage::DropOccupant => ActionView::Run(
                OsCommandView::LinkDelete(Device::Backup),
            ),
            Stage::RawDown => ActionView::Run(OsCommandView::LinkDown(Device::Raw)),
            Stage::Rename | Stage::RenameAgain => ActionView::Run(
                OsCommandView::LinkRename { from: Device::Raw, to: Device::Target },
            ),
            Stage::OccupantDown => ActionView::Run(OsCommandView::LinkDown(Device::Target)),
            Stage::ParkOccupant => ActionView::Run(
                OsCommandView::LinkRename { from: Device::Target, to: Device::Backup },
            ),
            Stage::Rollback => ActionView::Run(
                OsCommandView::LinkRename { from: Device::Backup, to: Device::Target },
            ),
            Stage::TargetUp | Stage::TargetUpSoft => ActionView::Run(
                OsCommandView::LinkUp(Device::Target),
            ),
            Stage::AddrShow => ActionView::Run(OsCommandView::AddrShow(Device::Target)),
            Stage::LinkShow => ActionView::Run(OsCommandView::LinkShow(Device::Target)),
            Stage::DetectWan | Stage::VerifyRoute => ActionView::Run(
                OsCommandView::DefaultRouteShow,
            ),
            Stage::RouteDelete => ActionView::Run(
                OsCommandView::HostRouteDelete { v6: s.route_v6, addr: s.route_addr },
            ),
            Stage::RouteAdd => ActionView::Run(
                OsCommandView::HostRouteAdd { v6: s.route_v6, addr: s.route_addr, wan: s.wan },
            ),
            Stage::Probe => ActionView::Run(
                OsCommandView::Probe {
                    url: setup_probe_url(),
                    timeout_secs: SETUP_PROBE_TIMEOUT_SECS,
                },
            ),
            Stage::ProbeFallback => ActionView::Http {
                url: setup_probe_url(),
                timeout_secs: SETUP_PROBE_TIMEOUT_SECS,
            },
            Stage::Finished => ActionView::Finished(
                match s.failure {
                    Some(e) => Err(e),
                    None => Ok(s.wan),
                },
            ),
            _ => ActionView::Control(control_command(s)),
        }
    }
}


/// Begins the routing setup for a tunnel with the given servers, at the
/// time `now_ms` of a clock that does not go back. The setup is a machine:
/// [`Setup::pending`] names the action that it waits for, [`Setup::step`]
/// takes the answer and names the next one, until the action is
/// `Finished`.
pub fn setup_routing(servers: Vec<ServerIp>, now_ms: u64) -> (r: Setup)
    ensures
        r@ == initial(server_ips(servers@), now_ms),
{
    Setup {
        stage: Stage::WaitRaw,
        servers,
        since_ms: now_ms,
        attempt: 1,
        retry_wait: None,
        raw_present: false,
        next_server: 0,
        route_v6: false,
        route_addr: String::new(),
        wan: String::new(),
        address_ip: String::new(),
        address_mask: String::new(),
        mtu: 0,
        rename_error: String::new(),
        failure: None,
    }
}

fn elapsed(since_ms: u64, now_ms: u64) -> (r: u64)
    ensures
        r == elapsed_ms(since_ms, now_ms),
{
    if now_ms >= since_ms {
        now_ms - since_ms
    } else {
        0
    }
}

fn mentions_exists(message: &str) -> (r: bool)
    ensures
        r == says_exists(message@),
{
    let raw = chars_of(message);
    let lower = chars_to_lower(&raw);
    chars_mention(&lower, "file exists")
}

fn successor(stage: Stage) -> (r: Stage)
    ensures
        r == control_target(stage),
{
    match stage {
        Stage::CreateObject => Stage::ProbeRaw,
        Stage::SetAddress => Stage::LinkShow,
        Stage::SetMtu => Stage::GlobalAuto,
        Stage::GlobalAuto => Stage::AdjustMss,
        Stage::AdjustMss => Stage::SecurityPublic,
        Stage::SecurityPublic => Stage::InterfaceUp,
        Stage::InterfaceUp => Stage::BindCheck,
        Stage::DefaultRoute => Stage::DefaultRouteV6,
        Stage::DefaultRouteV6 => Stage::VerifyRoute,
        other => other,
    }
}

impl Setup {
    /// The stage that the setup is in.
    pub fn stage(&self) -> (r: Stage)
        ensures
            r == self@.stage,
    {
        self.stage
    }

    /// The number of the control tool's attempt under way, from one.
    pub fn attempt(&self) -> (r: u32)
        ensures
            r == self@.attempt,
    {
        self.attempt
    }

    /// Whether the setup pauses before the control tool runs again for the
    /// command under way.
    pub fn retrying(&self) -> (r: bool)
        ensures
            r == (self@.retry_wait is Some),
    {
        self.retry_wait.is_some()
    }

    /// Whether the setup has ended.
    pub fn is_finished(&self) -> (r: bool)
        ensures
            r == (self@.stage == Stage::Finished),
    {
        self.stage == Stage::Finished
    }

    fn go(&mut self, stage: Stage)
        ensures
            final(self)@ == at(old(self)@, stage),
    {
        self.stage = stage;
        self.attempt = 1;
        self.retry_wait = None;
    }

    fn go_timed(&mut self, stage: Stage, now_ms: u64)
        ensures
            final(self)@ == at_timed(old(self)@, stage, now_ms),
    {
        self.go(stage);
        self.since_ms = now_ms;
    }

    fn fail(&mut self, error: RoutingError)
        ensures
            final(self)@ == failed(old(self)@, error@),
    {
        self.stage = Stage::Finished;
        self.failure = Some(error);
        self.retry_wait = None;
    }

    fn succeed(&mut self)
        ensures
            final(self)@ == succeeded(old(self)@),
    {
        self.stage = Stage::Finished;
        self.failure = None;
        self.retry_wait = None;
    }

    fn route_onwards(&mut self)
        ensures
            final(self)@ == with_routes(old(self)@),
    {
        if self.next_server < self.servers.len() {
            let v6 = self.servers[self.next_server].v6;
            let addr = self.servers[self.next_server].text.clone();
            assert(server_ips(self.servers@)[self.next_server as int]
                == self.servers@[self.next_server as int]@);
            self.route_v6 = v6;
            self.route_addr = addr;
            self.next_server = self.next_server + 1;
            self.go(Stage::RouteDelete);
        } else {
            self.go(Stage::DefaultRoute);
        }
    }

    fn go_on(&mut self, now_ms: u64)
        ensures
            final(self)@ == proceed(old(self)@, now_ms),
    {
        let t = successor(self.stage);
        if t == Stage::BindCheck || t == Stage::VerifyRoute {
            self.go_timed(t, now_ms);
        } else {
            self.go(t);
        }
    }

    fn wait_to_retry(&mut self, delay_ms: u64)
        requires
            old(self).attempt < u32::MAX,
        ensures
            final(self)@ == retrying(old(self)@, delay_ms),
    {
        self.retry_wait = Some(delay_ms);
        self.attempt = self.attempt + 1;
    }

    fn after_control(&mut self, now_ms: u64, result: Result<String, String>)
        requires
            old(self)@.retry_wait is None,
            is_control_stage(old(self)@.stage),
        ensures
            final(self)@ == next(old(self)@, now_ms, EventView::Control(text_result(result))),
    {
        match ndmc(self.attempt, &result) {
            Retry::Done => {
                self.go_on(now_ms);
            },
            Retry::Again { delay_ms } => {
                self.wait_to_retry(delay_ms);
            },
            Retry::GiveUp { transient } => {
                if self.stage == Stage::DefaultRouteV6 {
                    self.go_on(now_ms);
                } else {
                    match result {
                        Err(m) => {
                            if transient {
                                self.fail(RoutingError::TransientControl(m));
                            } else {
                                self.fail(RoutingError::FatalControl(m));
                            }
                        },
                        Ok(_) => {},
                    }
                }
            },
        }
    }

    fn after_bind_check(&mut self, result: Result<String, String>)
        requires
            old(self)@.retry_wait is None,
            old(self)@.stage == Stage::BindCheck,
        ensures
            final(self)@ == next(old(self)@, 0, EventView::Control(text_result(result))),
    {
        match ndmc(self.attempt, &result) {
            Retry::Done => {
                match result {
                    Ok(out) => {
                        match parse_ndm_interface_index(out.as_str()) {
                            Some(index) => {
                                if index > 0 {
                                    self.go(Stage::DetectWan);
                                } else {
                                    self.go(Stage::BindSleep);
                                }
                            },
                            None => {
                                self.go(Stage::BindSleep);
                            },
                        }
                    },
                    Err(_) => {},
                }
            },
            Retry::Again { delay_ms } => {
                self.wait_to_retry(delay_ms);
            },
            Retry::GiveUp { .. } => {
                self.go(Stage::BindSleep);
            },
        }
    }

    fn after_command(&mut self, now_ms: u64, result: Result<String, String>)
        requires
            old(self)@.retry_wait is None,
        ensures
            final(self)@ == next(old(self)@, now_ms, EventView::Command(text_result(result))),
    {
        match self.stage {
            Stage::ClearBackup => {
                self.go(Stage::CreateObject);
            },
            Stage::RawDown => match result {
                Ok(_) => {
                    self.go(Stage::Rename);
                },
                Err(m) => {
                    self.fail(RoutingError::Command(m));
                },
            },
            Stage::Rename => match result {
                Ok(_) => {
                    self.go(Stage::TargetUp);
                },
                Err(m) => {
                    self.go(Stage::ProbeConflict);
                    self.rename_error = m;
                },
            },
            Stage::OccupantDown => {
                self.go(Stage::ParkOccupant);
            },
            Stage::ParkOccupant => match result {
                Ok(_) => {
                    self.go(Stage::RenameAgain);
                },
                Err(m) => {
                    self.fail(RoutingError::Command(m));
                },
            },
            Stage::RenameAgain => match result {
                Ok(_) => {
                    self.go(Stage::DropOccupant);
                },
                Err(m) => {
                    self.go(Stage::Rollback);
                    self.rename_error = m;
                },
            },
            Stage::DropOccupant => {
                self.go(Stage::TargetUp);
            },
            Stage::Rollback => {
                let m = self.rename_error.clone();
                self.fail(RoutingError::Command(m));
            },
            Stage::TargetUp => match result {
                Ok(_) => {
                    self.go(Stage::AddrShow);
                },
                Err(m) => {
                    self.fail(RoutingError::Command(m));
                },
            },
            Stage::TargetUpSoft => {
                self.go(Stage::AddrShow);
            },
            Stage::AddrShow => match get_tun_ip_mask(&result) {
                Some((ip, mask)) => {
                    self.go(Stage::SetAddress);
                    self.address_ip = ip;
                    self.address_mask = mask;
                },
                None => {
                    self.go(Stage::LinkShow);
                },
            },
            Stage::LinkShow => match get_tun_mtu(&result) {
                Some(m) => {
                    self.go(Stage::SetMtu);
                    self.mtu = m;
                },
                None => {
                    self.go(Stage::GlobalAuto);
                },
            },
            Stage::DetectWan => match current_wan_interface(&result) {
                Some(w) => {
                    self.wan = w;
                    self.next_server = 0;
                    self.route_onwards();
                },
                None => {
                    self.fail(RoutingError::WanUndetected);
                },
            },
            Stage::RouteDelete => {
                self.go(Stage::RouteAdd);
            },
            Stage::RouteAdd => {
                self.route_onwards();
            },
            Stage::VerifyRoute => {
                let visible = match &result {
                    Ok(out) => default_route_via_target(out.as_str()),
                    Err(_) => false,
                };
                if visible {
                    self.succeed();
                } else {
                    self.go(Stage::VerifySleep);
                }
            },
            _ => {},
        }
    }

    fn after_sleep(&mut self, now_ms: u64)
        requires
            old(self)@.retry_wait is None,
        ensures
            final(self)@ == next(old(self)@, now_ms, EventView::Slept),
    {
        let waited = elapsed(self.since_ms, now_ms);
        match self.stage {
            Stage::WaitRawSleep => {
                if waited < TUN_WAIT_TIMEOUT_MS {
                    self.go(Stage::WaitRaw);
                } else {
                    self.fail(RoutingError::DeviceTimeout);
                }
            },
            Stage::Settle => {
                self.go(Stage::ClearBackup);
            },
            Stage::WaitRawAgainSleep => {
                if waited < TUN_RENAME_RETRY_TIMEOUT_MS {
                    self.go(Stage::WaitRawAgain);
                } else {
                    self.fail(RoutingError::DeviceLost);
                }
            },
            Stage::BindSleep => {
                if waited < NDM_BIND_VERIFY_TIMEOUT_MS {
                    self.go(Stage::BindCheck);
                } else {
                    self.go(Stage::DetectWan);
                }
            },
            Stage::VerifySleep => {
                if waited < NDM_VERIFY_TIMEOUT_MS {
                    self.go(Stage::VerifyRoute);
                } else {
                    self.go(Stage::Probe);
                }
            },
            _ => {},
        }
    }

    fn after_look(&mut self, now_ms: u64, found: bool)
        requires
            old(self)@.retry_wait is None,
        ensures
            final(self)@ == next(old(self)@, now_ms, EventView::Present(found)),
    {
        match self.stage {
            Stage::WaitRaw => {
                if found {
                    self.go(Stage::Settle);
                } else {
                    self.go(Stage::WaitRawSleep);
                }
            },
            Stage::ProbeRaw => {
                self.go(Stage::ProbeTarget);
                self.raw_present = found;
            },
            Stage::ProbeTarget => {
                if self.raw_present {
                    self.go(Stage::RawDown);
                } else if found {
                    self.go(Stage::TargetUpSoft);
                } else {
                    self.fail(RoutingError::DeviceMissing);
                }
            },
            Stage::ProbeConflict => {
                if mentions_exists(self.rename_error.as_str()) && found {
                    self.go_timed(Stage::WaitRawAgain, now_ms);
                } else {
                    let m = self.rename_error.clone();
                    self.fail(RoutingError::Command(m));
                }
            },
            Stage::WaitRawAgain => {
                if found {
                    self.go(Stage::OccupantDown);
                } else {
                    self.go(Stage::WaitRawAgainSleep);
                }
            },
            _ => {},
        }
    }

    fn advance(&mut self, now_ms: u64, event: Event)
        ensures
            final(self)@ == next(old(self)@, now_ms, event@),
    {
        if self.retry_wait.is_some() {
            match event {
                Event::Slept => {
                    self.retry_wait = None;
                },
                _ => {},
            }
            return ;
        }
        match event {
            Event::Present(found) => {
                self.after_look(now_ms, found);
            },
            Event::Slept => {
                self.after_sleep(now_ms);
            },
            Event::Command(result) => {
                self.after_command(now_ms, result);
            },
            Event::Control(result) => {
                if self.stage == Stage::BindCheck {
                    self.after_bind_check(result);
                } else if successor(self.stage) != self.stage {
                    self.after_control(now_ms, result);
                }
            },
            Event::Probed { result, os_not_found } => {
                if self.stage == Stage::Probe {
                    match check_connectivity(&result, os_not_found) {
                        Reach::Reached => {
                            self.succeed();
                        },
                        Reach::AskDirectly => {
                            self.go(Stage::ProbeFallback);
                        },
                        Reach::Unreachable => {
                            self.fail(RoutingError::RouteVerification);
                        },
                    }
                }
            },
            Event::Http(status) => {
                if self.stage == Stage::ProbeFallback {
                    if check_connectivity_directly(status) {
                        self.succeed();
                    } else {
                        self.fail(RoutingError::RouteVerification);
                    }
                }
            },
        }
    }

    fn control_of(&self) -> (r: NdmCommand)
        ensures
            r@ == control_command(self@),
    {
        match self.stage {
            Stage::SetAddress => NdmCommand::SetAddress {
                ip: self.address_ip.clone(),
                mask: self.address_mask.clone(),
            },
            Stage::SetMtu => NdmCommand::SetMtu(self.mtu),
            Stage::GlobalAuto => NdmCommand::GlobalAuto,
            Stage::AdjustMss => NdmCommand::AdjustMss,
            Stage::SecurityPublic => NdmCommand::SecurityPublic,
            Stage::InterfaceUp => NdmCommand::InterfaceUp,
            Stage::BindCheck => NdmCommand::ShowInterface,
            Stage::DefaultRoute => NdmCommand::DefaultRoute,
            Stage::DefaultRouteV6 => NdmCommand::DefaultRouteV6,
            _ => NdmCommand::CreateInterface,
        }
    }

    /// The action that the setup waits for.
    pub fn pending(&self) -> (r: Action)
        ensures
            r@ == action_of(self@),
    {
        match self.retry_wait {
            Some(delay) => {
                return Action::Sleep(delay);
            },
            None => {},
        }
        match self.stage {
            Stage::WaitRaw | Stage::ProbeRaw | Stage::WaitRawAgain => Action::Probe(Device::Raw),
            Stage::ProbeTarget | Stage::ProbeConflict => Action::Probe(Device::Target),
            Stage::WaitRawSleep => Action::Sleep(TUN_POLL_INTERVAL_MS),
            Stage::Settle => Action::Sleep(TUN_SETTLE_MS),
            Stage::WaitRawAgainSleep => Action::Sleep(TUN_RENAME_RETRY_POLL_INTERVAL_MS),
            Stage::BindSleep => Action::Sleep(NDM_BIND_VERIFY_POLL_INTERVAL_MS),
            Stage::VerifySleep => Action::Sleep(NDM_VERIFY_POLL_INTERVAL_MS),
            Stage::ClearBackup | Stage::DropOccupant => Action::Run(
                OsCommand::LinkDelete(Device::Backup),
            ),
            Stage::RawDown => Action::Run(OsCommand::LinkDown(Device::Raw)),
            Stage::Rename | Stage::RenameAgain => Action::Run(
                OsCommand::LinkRename { from: Device::Raw, to: Device::Target },
            ),
            Stage::OccupantDown => Action::Run(OsCommand::LinkDown(Device::Target)),
            Stage::ParkOccupant => Action::Run(
                OsCommand::LinkRename { from: Device::Target, to: Device::Backup },
            ),
            Stage::Rollback => Action::Run(
                OsCommand::LinkRename { from: Device::Backup, to: Device::Target },
            ),
            Stage::TargetUp | Stage::TargetUpSoft => Action::Run(
                OsCommand::LinkUp(Device::Target),
            ),
            Stage::AddrShow => Action::Run(OsCommand::AddrShow(Device::Target)),
            Stage::LinkShow => Action::Run(OsCommand::LinkShow(Device::Target)),
            Stage::DetectWan | Stage::VerifyRoute => Action::Run(OsCommand::DefaultRouteShow),
            Stage::RouteDelete => Action::Run(
                OsCommand::HostRouteDelete { v6: self.route_v6, addr: self.route_addr.clone() },
            ),
            Stage::RouteAdd => Action::Run(
                OsCommand::HostRouteAdd {
                    v6: self.route_v6,
                    addr: self.route_addr.clone(),
                    wan: self.wan.clone(),
                },
            ),
            Stage::Probe => Action::Run(
                OsCommand::Probe {
                    url: "http://connectivitycheck.gstatic.com/generate_204".to_owned(),
                    timeout_secs: SETUP_PROBE_TIMEOUT_SECS,
                },
            ),
            Stage::ProbeFallback => Action::Http {
                url: "http://connectivitycheck.gstatic.com/generate_204".to_owned(),
                timeout_secs: SETUP_PROBE_TIMEOUT_SECS,
            },
            Stage::Finished => Action::Finished(
                match &self.failure {
                    Some(e) => Err(e.duplicate()),
                    None => Ok(self.wan.clone()),
                },
            ),
            _ => Action::Control(self.control_of()),
        }
    }

    /// Takes the answer `event` to the action under way, at the time
    /// `now_ms`, and names the action that comes next.
    pub fn step(&mut self, now_ms: u64, event: Event) -> (action: Action)
        ensures
            final(self)@ == next(old(self)@, now_ms, event@),
            action@ == action_of(final(self)@),
    {
        self.advance(now_ms, event);
        self.pending()
    }
}

} // verus!
