//! The commands that the routing controller hands out and how the outcome
//! of a run command is read.
use crate::decimal::{decimal, push_decimal};
use crate::text::{chars_of, extend_chars, string_of, strings};
use vstd::prelude::*;

verus! {

/// The three names under which the tunnel device can be known to the kernel.
#[derive(Clone, Copy, PartialEq, Eq, Debug, Structural)]
pub enum Device {
    /// The device as the tunnel client creates it.
    Raw,
    /// The device under the name that the router's management layer knows.
    Target,
    /// The name that parks an old device while a new one takes its place.
    Backup,
}

/// The kernel's name for a device.
pub open spec fn device_text(d: Device) -> Seq<char> {
    match d {
        Device::Raw => "tun0"@,
        Device::Target => "opkgtun0"@,
        Device::Backup => "opkgbak0"@,
    }
}

pub fn device_name(d: Device) -> (r: &'static str)
    ensures
        r@ == device_text(d),
{
    match d {
        Device::Raw => "tun0",
        Device::Target => "opkgtun0",
        Device::Backup => "opkgbak0",
    }
}

/// The directory whose presence shows that the kernel knows the device.
pub fn device_sys_path(d: Device) -> (r: String)
    ensures
        r@ == "/sys/class/net/"@ + device_text(d),
{
    let mut out: Vec<char> = chars_of("/sys/class/net/");
    let name = chars_of(device_name(d));
    extend_chars(&mut out, &name);
    string_of(&out)
}

/// The address of a tunnel server, as text in the form in which the
/// address family prints it, with the family it belongs to.
#[derive(Debug)]
pub struct ServerIp {
    pub v6: bool,
    pub text: String,
}

pub struct ServerIpView {
    pub v6: bool,
    pub text: Seq<char>,
}

impl View for ServerIp {
    type V = ServerIpView;

    open spec fn view(&self) -> ServerIpView {
        ServerIpView { v6: self.v6, text: self.text@ }
    }
}

impl ServerIp {
    pub fn duplicate(&self) -> (r: Self)
        ensures
            r@ == self@,
    {
        ServerIp { v6: self.v6, text: self.text.clone() }
    }
}

/// The views of a list of server addresses.
pub open spec fn server_ips(v: Seq<ServerIp>) -> Seq<ServerIpView> {
    v.map_values(|ip: ServerIp| ip@)
}

/// A command of the operating system that the routing controller runs.
#[derive(Debug)]
pub enum OsCommand {
    LinkDelete(Device),
    LinkDown(Device),
    LinkUp(Device),
    LinkRename { from: Device, to: Device },
    AddrShow(Device),
    LinkShow(Device),
    DefaultRouteShow,
    HostRouteDelete { v6: bool, addr: String },
    HostRouteAdd { v6: bool, addr: String, wan: String },
    /// A request through the tunnel device for `url`, which fails unless
    /// an answer without an error status arrives in time.
    Probe { url: String, timeout_secs: u64 },
}

pub enum OsCommandView {
    LinkDelete(Device),
    LinkDown(Device),
    LinkUp(Device),
    LinkRename { from: Device, to: Device },
    AddrShow(Device),
    LinkShow(Device),
    DefaultRouteShow,
    HostRouteDelete { v6: bool, addr: Seq<char> },
    HostRouteAdd { v6: bool, addr: Seq<char>, wan: Seq<char> },
    Probe { url: Seq<char>, timeout_secs: u64 },
}

impl View for OsCommand {
    type V = OsCommandView;

    open spec fn view(&self) -> OsCommandView {
        match *self {
            OsCommand::LinkDelete(d) => OsCommandView::LinkDelete(d),
            OsCommand::LinkDown(d) => OsCommandView::LinkDown(d),
            OsCommand::LinkUp(d) => OsCommandView::LinkUp(d),
            OsCommand::LinkRename { from, to } => OsCommandView::LinkRename { from, to },
            OsCommand::AddrShow(d) => OsCommandView::AddrShow(d),
            OsCommand::LinkShow(d) => OsCommandView::LinkShow(d),
            OsCommand::DefaultRouteShow => OsCommandView::DefaultRouteShow,
            OsCommand::HostRouteDelete { v6, addr } => OsCommandView::HostRouteDelete {
                v6,
                addr: addr@,
            },
            OsCommand::HostRouteAdd { v6, addr, wan } => OsCommandView::HostRouteAdd {
                v6,
                addr: addr@,
                wan: wan@,
            },
            OsCommand::Probe { url, timeout_secs } => OsCommandView::Probe {
                url: url@,
                timeout_secs,
            },
        }
    }
}

/// The program that runs a command.
pub open spec fn program_text(c: OsCommandView) -> Seq<char> {
    match c {
        OsCommandView::Probe { .. } => "curl"@,
        _ => "ip"@,
    }
}

/// A host route's destination: the address with the full prefix length of
/// its family.
pub open spec fn host_prefix(v6: bool, addr: Seq<char>) -> Seq<char> {
    if v6 {
        addr + "/128"@
    } else {
        addr + "/32"@
    }
}

/// The seconds that a probe may take to connect: the timeout, but at
/// least one.
pub open spec fn probe_connect_secs(timeout_secs: u64) -> u64 {
    if timeout_secs < 1 {
        1
    } else {
        timeout_secs
    }
}

/// The arguments with which the program of a command is run.
pub open spec fn argument_texts(c: OsCommandView) -> Seq<Seq<char>> {
    match c {
        OsCommandView::LinkDelete(d) => seq!["link"@, "del"@, device_text(d)],
        OsCommandView::LinkDown(d) => seq!["link"@, "set"@, device_text(d), "down"@],
        OsCommandView::LinkUp(d) => seq!["link"@, "set"@, device_text(d), "up"@],
        OsCommandView::LinkRename { from, to } => seq![
            "link"@,
            "set"@,
            device_text(from),
            "name"@,
            device_text(to),
        ],
        OsCommandView::AddrShow(d) => seq!["-o"@, "addr"@, "show"@, device_text(d)],
        OsCommandView::LinkShow(d) => seq!["-o"@, "link"@, "show"@, device_text(d)],
        OsCommandView::DefaultRouteShow => seq!["-o"@, "route"@, "show"@, "default"@],
        OsCommandView::HostRouteDelete { v6, addr } => if v6 {
            seq!["-6"@, "route"@, "del"@, host_prefix(v6, addr)]
        } else {
            seq!["route"@, "del"@, host_prefix(v6, addr)]
        },
        OsCommandView::HostRouteAdd { v6, addr, wan } => if v6 {
            seq!["-6"@, "route"@, "add"@, host_prefix(v6, addr), "dev"@, wan]
        } else {
            seq!["route"@, "add"@, host_prefix(v6, addr), "dev"@, wan]
        },
        OsCommandView::Probe { url, timeout_secs } => seq![
            "--interface"@,
            device_text(Device::Target),
            "--connect-timeout"@,
            decimal(probe_connect_secs(timeout_secs) as nat),
            "--max-time"@,
            decimal((probe_connect_secs(timeout_secs) + 2) as nat),
            "-fsS"@,
            "-o"@,
            "/dev/null"@,
            url,
        ],
    }
}

impl OsCommand {
    pub fn duplicate(&self) -> (r: Self)
        ensures
            r@ == self@,
    {
        match self {
            OsCommand::LinkDelete(d) => OsCommand::LinkDelete(*d),
            OsCommand::LinkDown(d) => OsCommand::LinkDown(*d),
            OsCommand::LinkUp(d) => OsCommand::LinkUp(*d),
            OsCommand::LinkRename { from, to } => OsCommand::LinkRename { from: *from, to: *to },
            OsCommand::AddrShow(d) => OsCommand::AddrShow(*d),
            OsCommand::LinkShow(d) => OsCommand::LinkShow(*d),
            OsCommand::DefaultRouteShow => OsCommand::DefaultRouteShow,
            OsCommand::HostRouteDelete { v6, addr } => OsCommand::HostRouteDelete {
                v6: *v6,
                addr: addr.clone(),
            },
            OsCommand::HostRouteAdd { v6, addr, wan } => OsCommand::HostRouteAdd {
                v6: *v6,
                addr: addr.clone(),
                wan: wan.clone(),
            },
            OsCommand::Probe { url, timeout_secs } => OsCommand::Probe {
                url: url.clone(),
                timeout_secs: *timeout_secs,
            },
        }
    }

    /// The name of the program to run.
    pub fn program(&self) -> (r: &'static str)
        ensures
            r@ == program_text(self@),
    {
        match self {
            OsCommand::Probe { .. } => "curl",
            _ => "ip",
        }
    }

    /// The arguments to run the program with.
    pub fn arguments(&self) -> (r: Vec<String>)
        requires
            self@ matches OsCommandView::Probe { timeout_secs, .. } ==> timeout_secs <= u64::MAX
                - 2,
        ensures
            strings(r@) == argument_texts(self@),
    {
        let mut v: Vec<String> = Vec::new();
        match self {
            OsCommand::LinkDelete(d) => {
                push_arg(&mut v, "link");
                push_arg(&mut v, "del");
                push_arg(&mut v, device_name(*d));
            },
            OsCommand::LinkDown(d) => {
                push_arg(&mut v, "link");
                push_arg(&mut v, "set");
                push_arg(&mut v, device_name(*d));
                push_arg(&mut v, "down");
            },
            OsCommand::LinkUp(d) => {
                push_arg(&mut v, "link");
                push_arg(&mut v, "set");
                push_arg(&mut v, device_name(*d));
                push_arg(&mut v, "up");
            },
            OsCommand::LinkRename { from, to } => {
                push_arg(&mut v, "link");
                push_arg(&mut v, "set");
                push_arg(&mut v, device_name(*from));
                push_arg(&mut v, "name");
                push_arg(&mut v, device_name(*to));
            },
            OsCommand::AddrShow(d) => {
                push_arg(&mut v, "-o");
                push_arg(&mut v, "addr");
                push_arg(&mut v, "show");
                push_arg(&mut v, device_name(*d));
            },
            OsCommand::LinkShow(d) => {
                push_arg(&mut v, "-o");
                push_arg(&mut v, "link");
                push_arg(&mut v, "show");
                push_arg(&mut v, device_name(*d));
            },
            OsCommand::DefaultRouteShow => {
                push_arg(&mut v, "-o");
                push_arg(&mut v, "route");
                push_arg(&mut v, "show");
                push_arg(&mut v, "default");
            },
            OsCommand::HostRouteDelete { v6, addr } => {
                if *v6 {
                    push_arg(&mut v, "-6");
                }
                push_arg(&mut v, "route");
                push_arg(&mut v, "del");
                let dest = host_prefix_of(*v6, addr.as_str());
                push_arg(&mut v, dest.as_str());
            },
            OsCommand::HostRouteAdd { v6, addr, wan } => {
                if *v6 {
                    push_arg(&mut v, "-6");
                }
                push_arg(&mut v, "route");
                push_arg(&mut v, "add");
                let dest = host_prefix_of(*v6, addr.as_str());
                push_arg(&mut v, dest.as_str());
                push_arg(&mut v, "dev");
                push_arg(&mut v, wan.as_str());
            },
            OsCommand::Probe { url, timeout_secs } => {
                let secs: u64 = if *timeout_secs < 1 {
                    1
                } else {
                    *timeout_secs
                };
                push_arg(&mut v, "--interface");
                push_arg(&mut v, device_name(Device::Target));
                push_arg(&mut v, "--connect-timeout");
                let connect = decimal_string(secs);
                push_arg(&mut v, connect.as_str());
                push_arg(&mut v, "--max-time");
                let total = decimal_string(secs + 2);
                push_arg(&mut v, total.as_str());
                push_arg(&mut v, "-fsS");
                push_arg(&mut v, "-o");
                push_arg(&mut v, "/dev/null");
                push_arg(&mut v, url.as_str());
            },
        }
        assert(strings(v@) =~= argument_texts(self@));
        v
    }
}

/// Appends one argument to a list of arguments.
pub fn push_arg(v: &mut Vec<String>, s: &str)
    ensures
        strings(final(v)@) == strings(old(v)@).push(s@),
{
    v.push(s.to_owned());
    assert(strings(v@) =~= strings(old(v)@).push(s@));
}

fn host_prefix_of(v6: bool, addr: &str) -> (r: String)
    ensures
        r@ == host_prefix(v6, addr@),
{
    let mut out = chars_of(addr);
    let tail = if v6 {
        chars_of("/128")
    } else {
        chars_of("/32")
    };
    extend_chars(&mut out, &tail);
    string_of(&out)
}

/// `n` in decimal notation.
pub fn decimal_string(n: u64) -> (r: String)
    ensures
        r@ == decimal(n as nat),
{
    let mut out: Vec<char> = Vec::new();
    push_decimal(&mut out, n);
    assert(Seq::<char>::empty() + decimal(n as nat) == decimal(n as nat));
    string_of(&out)
}

/// A command of the router's management layer, handed to its control tool
/// as one line.
#[derive(Debug)]
pub enum NdmCommand {
    CreateInterface,
    ShowInterface,
    SetAddress { ip: String, mask: String },
    SetMtu(u16),
    GlobalAuto,
    AdjustMss,
    SecurityPublic,
    InterfaceUp,
    DefaultRoute,
    DefaultRouteV6,
}

pub enum NdmCommandView {
    CreateInterface,
    ShowInterface,
    SetAddress { ip: Seq<char>, mask: Seq<char> },
    SetMtu(u16),
    GlobalAuto,
    AdjustMss,
    SecurityPublic,
    InterfaceUp,
    DefaultRoute,
    DefaultRouteV6,
}

impl View for NdmCommand {
    type V = NdmCommandView;

    open spec fn view(&self) -> NdmCommandView {
        match *self {
            NdmCommand::CreateInterface => NdmCommandView::CreateInterface,
            NdmCommand::ShowInterface => NdmCommandView::ShowInterface,
            NdmCommand::SetAddress { ip, mask } => NdmCommandView::SetAddress {
                ip: ip@,
                mask: mask@,
            },
            NdmCommand::SetMtu(m) => NdmCommandView::SetMtu(m),
            NdmCommand::GlobalAuto => NdmCommandView::GlobalAuto,
            NdmCommand::AdjustMss => NdmCommandView::AdjustMss,
            NdmCommand::SecurityPublic => NdmCommandView::SecurityPublic,
            NdmCommand::InterfaceUp => NdmCommandView::InterfaceUp,
            NdmCommand::DefaultRoute => NdmCommandView::DefaultRoute,
            NdmCommand::DefaultRouteV6 => NdmCommandView::DefaultRouteV6,
        }
    }
}

/// The line that the control tool is given for a command.
pub open spec fn ndm_line(c: NdmCommandView) -> Seq<char> {
    match c {
        NdmCommandView::CreateInterface => "interface OpkgTun0"@,
        NdmCommandView::ShowInterface => "show interface OpkgTun0"@,
        NdmCommandView::SetAddress { ip, mask } => "interface OpkgTun0 ip address "@ + ip + " "@
            + mask,
        NdmCommandView::SetMtu(m) => "interface OpkgTun0 ip mtu "@ + decimal(m as nat),
        NdmCommandView::GlobalAuto => "interface OpkgTun0 ip global auto"@,
        NdmCommandView::AdjustMss => "interface OpkgTun0 ip tcp adjust-mss pmtu"@,
        NdmCommandView::SecurityPublic => "interface OpkgTun0 security-level public"@,
        NdmCommandView::InterfaceUp => "interface OpkgTun0 up"@,
        NdmCommandView::DefaultRoute => "ip route default OpkgTun0"@,
        NdmCommandView::DefaultRouteV6 => "ipv6 route default OpkgTun0"@,
    }
}

impl NdmCommand {
    pub fn duplicate(&self) -> (r: Self)
        ensures
            r@ == self@,
    {
        match self {
            NdmCommand::CreateInterface => NdmCommand::CreateInterface,
            NdmCommand::ShowInterface => NdmCommand::ShowInterface,
            NdmCommand::SetAddress { ip, mask } => NdmCommand::SetAddress {
                ip: ip.clone(),
                mask: mask.clone(),
            },
            NdmCommand::SetMtu(m) => NdmCommand::SetMtu(*m),
            NdmCommand::GlobalAuto => NdmCommand::GlobalAuto,
            NdmCommand::AdjustMss => NdmCommand::AdjustMss,
            NdmCommand::SecurityPublic => NdmCommand::SecurityPublic,
            NdmCommand::InterfaceUp => NdmCommand::InterfaceUp,
            NdmCommand::DefaultRoute => NdmCommand::DefaultRoute,
            NdmCommand::DefaultRouteV6 => NdmCommand::DefaultRouteV6,
        }
    }

    /// The line to hand to the control tool behind its option `-c`.
    pub fn line(&self) -> (r: String)
        ensures
            r@ == ndm_line(self@),
    {
        match self {
            NdmCommand::CreateInterface => "interface OpkgTun0".to_owned(),
            NdmCommand::ShowInterface => "show interface OpkgTun0".to_owned(),
            NdmCommand::SetAddress { ip, mask } => {
                let mut out = chars_of("interface OpkgTun0 ip address ");
                let a = chars_of(ip.as_str());
                extend_chars(&mut out, &a);
                out.push(' ');
                let m = chars_of(mask.as_str());
                extend_chars(&mut out, &m);
                proof {
                    reveal_strlit(" ");
                }
                assert(out@ =~= ndm_line(self@));
                string_of(&out)
            },
            NdmCommand::SetMtu(m) => {
                let mut out = chars_of("interface OpkgTun0 ip mtu ");
                push_decimal(&mut out, *m as u64);
                string_of(&out)
            },
            NdmCommand::GlobalAuto => "interface OpkgTun0 ip global auto".to_owned(),
            NdmCommand::AdjustMss => "interface OpkgTun0 ip tcp adjust-mss pmtu".to_owned(),
            NdmCommand::SecurityPublic => "interface OpkgTun0 security-level public".to_owned(),
            NdmCommand::InterfaceUp => "interface OpkgTun0 up".to_owned(),
            NdmCommand::DefaultRoute => "ip route default OpkgTun0".to_owned(),
            NdmCommand::DefaultRouteV6 => "ipv6 route default OpkgTun0".to_owned(),
        }
    }
}


/// The place of the control tool: the first of `/usr/bin/ndmc`,
/// `/bin/ndmc` and `/sbin/ndmc` that exists, else its bare name, to be
/// looked up on the search path.
pub open spec fn ndmc_place(usr_bin: bool, bin: bool, sbin: bool) -> Seq<char> {
    if usr_bin {
        "/usr/bin/ndmc"@
    } else if bin {
        "/bin/ndmc"@
    } else if sbin {
        "/sbin/ndmc"@
    } else {
        "ndmc"@
    }
}

/// Picks the control tool, given which of the places where it may be
/// installed exist.
pub fn find_ndmc(usr_bin: bool, bin: bool, sbin: bool) -> (r: &'static str)
    ensures
        r@ == ndmc_place(usr_bin, bin, sbin),
{
    if usr_bin {
        "/usr/bin/ndmc"
    } else if bin {
        "/bin/ndmc"
    } else if sbin {
        "/sbin/ndmc"
    } else {
        "ndmc"
    }
}

} // verus!
