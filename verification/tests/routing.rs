use trusttunnel_keenetic::routing::command::{
    device_name, device_sys_path, Device, NdmCommand, OsCommand, ServerIp,
};
use trusttunnel_keenetic::routing::outcome::{
    is_ndm_transient_error, ndmc, ndmc_exec_once, probe_tool_missing, run_cmd, status_reachable,
    ProcessOutput, Retry,
};
use trusttunnel_keenetic::routing::parse::{
    current_wan_interface, default_route_via_target, endpoint_host, extract_server_ips,
    get_tun_ip_mask, get_tun_mtu, parse_endpoint_ip, parse_ndm_interface_index,
    prefix_to_netmask, EndpointReadings,
};
use trusttunnel_keenetic::routing::{reroute_server_via_wan, teardown_routing};

fn v4(text: &str) -> ServerIp {
    ServerIp { v6: false, text: text.into() }
}

fn v6(text: &str) -> ServerIp {
    ServerIp { v6: true, text: text.into() }
}

fn ok(s: &str) -> Result<String, String> {
    Ok(s.to_string())
}

fn err(s: &str) -> Result<String, String> {
    Err(s.to_string())
}

#[test]
fn device_names_and_paths() {
    assert_eq!(device_name(Device::Raw), "tun0");
    assert_eq!(device_name(Device::Target), "opkgtun0");
    assert_eq!(device_name(Device::Backup), "opkgbak0");
    assert_eq!(device_sys_path(Device::Target), "/sys/class/net/opkgtun0");
}

#[test]
fn os_command_arguments() {
    let cases: Vec<(OsCommand, &str, Vec<&str>)> = vec![
        (OsCommand::LinkDelete(Device::Backup), "ip", vec!["link", "del", "opkgbak0"]),
        (OsCommand::LinkDown(Device::Raw), "ip", vec!["link", "set", "tun0", "down"]),
        (OsCommand::LinkUp(Device::Target), "ip", vec!["link", "set", "opkgtun0", "up"]),
        (
            OsCommand::LinkRename { from: Device::Raw, to: Device::Target },
            "ip",
            vec!["link", "set", "tun0", "name", "opkgtun0"],
        ),
        (OsCommand::AddrShow(Device::Target), "ip", vec!["-o", "addr", "show", "opkgtun0"]),
        (OsCommand::LinkShow(Device::Target), "ip", vec!["-o", "link", "show", "opkgtun0"]),
        (OsCommand::DefaultRouteShow, "ip", vec!["-o", "route", "show", "default"]),
        (
            OsCommand::HostRouteDelete { v6: false, addr: "203.0.113.5".into() },
            "ip",
            vec!["route", "del", "203.0.113.5/32"],
        ),
        (
            OsCommand::HostRouteDelete { v6: true, addr: "2001:db8::1".into() },
            "ip",
            vec!["-6", "route", "del", "2001:db8::1/128"],
        ),
        (
            OsCommand::HostRouteAdd { v6: false, addr: "203.0.113.5".into(), wan: "eth3".into() },
            "ip",
            vec!["route", "add", "203.0.113.5/32", "dev", "eth3"],
        ),
        (
            OsCommand::HostRouteAdd { v6: true, addr: "2001:db8::1".into(), wan: "ppp0".into() },
            "ip",
            vec!["-6", "route", "add", "2001:db8::1/128", "dev", "ppp0"],
        ),
        (
            OsCommand::Probe { url: "http://example.com/".into(), timeout_secs: 5 },
            "curl",
            vec![
                "--interface", "opkgtun0", "--connect-timeout", "5", "--max-time", "7", "-fsS",
                "-o", "/dev/null", "http://example.com/",
            ],
        ),
        (
            OsCommand::Probe { url: "u".into(), timeout_secs: 0 },
            "curl",
            vec![
                "--interface", "opkgtun0", "--connect-timeout", "1", "--max-time", "3", "-fsS",
                "-o", "/dev/null", "u",
            ],
        ),
    ];
    for (cmd, program, args) in cases {
        assert_eq!(cmd.program(), program);
        assert_eq!(cmd.arguments(), args);
    }
}

#[test]
fn ndm_command_lines() {
    assert_eq!(NdmCommand::CreateInterface.line(), "interface OpkgTun0");
    assert_eq!(NdmCommand::ShowInterface.line(), "show interface OpkgTun0");
    assert_eq!(
        NdmCommand::SetAddress { ip: "10.8.0.2".into(), mask: "255.255.255.0".into() }.line(),
        "interface OpkgTun0 ip address 10.8.0.2 255.255.255.0"
    );
    assert_eq!(NdmCommand::SetMtu(1280).line(), "interface OpkgTun0 ip mtu 1280");
    assert_eq!(NdmCommand::GlobalAuto.line(), "interface OpkgTun0 ip global auto");
    assert_eq!(NdmCommand::AdjustMss.line(), "interface OpkgTun0 ip tcp adjust-mss pmtu");
    assert_eq!(NdmCommand::SecurityPublic.line(), "interface OpkgTun0 security-level public");
    assert_eq!(NdmCommand::InterfaceUp.line(), "interface OpkgTun0 up");
    assert_eq!(NdmCommand::DefaultRoute.line(), "ip route default OpkgTun0");
    assert_eq!(NdmCommand::DefaultRouteV6.line(), "ipv6 route default OpkgTun0");
}

fn output(launch_error: Option<&str>, success: bool, code: Option<i32>, stdout: &str, stderr: &str) -> ProcessOutput {
    ProcessOutput {
        launch_error: launch_error.map(String::from),
        success,
        code,
        stdout: stdout.into(),
        stderr: stderr.into(),
    }
}

#[test]
fn run_cmd_reads_the_outcome() {
    let args: Vec<String> = vec!["link".into(), "del".into(), "opkg\"bak0".into()];
    assert_eq!(run_cmd("ip", &args, &output(None, true, Some(0), "out\n", "warn")), ok("out\n"));
    assert_eq!(
        run_cmd("ip", &args, &output(None, false, Some(1), "out", "  Cannot find device \n")),
        err("ip [\"link\", \"del\", \"opkg\\\"bak0\"]: Cannot find device")
    );
    assert_eq!(
        run_cmd("ip", &args, &output(Some("No such file or directory (os error 2)"), false, None, "", "")),
        err("ip [\"link\", \"del\", \"opkg\\\"bak0\"]: No such file or directory (os error 2)")
    );
    assert_eq!(run_cmd("ip", &vec![], &output(None, false, None, "", "")), err("ip []: "));
}

#[test]
fn ndmc_exec_once_reads_the_outcome() {
    assert_eq!(ndmc_exec_once("c", &output(None, true, Some(0), " a \n", " b ")), ok("a | b"));
    assert_eq!(ndmc_exec_once("c", &output(None, true, Some(0), " a \n", "  ")), ok("a"));
    assert_eq!(ndmc_exec_once("c", &output(None, true, Some(0), "", " b ")), ok("b"));
    assert_eq!(ndmc_exec_once("c", &output(None, true, Some(0), "", "")), ok(""));
    assert_eq!(
        ndmc_exec_once("interface X", &output(None, false, Some(2), "o", "e")),
        err("'interface X' exit=2 o | e")
    );
    assert_eq!(
        ndmc_exec_once("interface X", &output(None, false, None, "", "")),
        err("'interface X' exit=-1 ")
    );
    assert_eq!(
        ndmc_exec_once("interface X", &output(Some("not found"), false, None, "", "")),
        err("exec 'interface X' error: not found")
    );
}

#[test]
fn transient_errors_are_told_apart() {
    assert!(is_ndm_transient_error("error 0xCFFD0060 occurred"));
    assert!(is_ndm_transient_error("0xcffd009f"));
    assert!(is_ndm_transient_error("Failed to Initialize"));
    assert!(is_ndm_transient_error("unable to find OpkgTun0 now"));
    assert!(is_ndm_transient_error("resource Temporarily Unavailable"));
    assert!(!is_ndm_transient_error("permission denied"));
    assert!(!is_ndm_transient_error(""));
}

#[test]
fn control_tool_is_retried_with_bounded_backoff() {
    assert_eq!(ndmc(1, &ok("fine")), Retry::Done);
    assert_eq!(ndmc(10, &ok("")), Retry::Done);
    let expect = [200u64, 400, 600, 800, 1000, 1000, 1000, 1000, 1000];
    for attempt in 1..=9u32 {
        assert_eq!(
            ndmc(attempt, &err("temporarily unavailable")),
            Retry::Again { delay_ms: expect[(attempt - 1) as usize] }
        );
    }
    assert_eq!(ndmc(10, &err("temporarily unavailable")), Retry::GiveUp { transient: true });
    assert_eq!(ndmc(1, &err("syntax error")), Retry::GiveUp { transient: false });
    assert_eq!(ndmc(10, &err("syntax error")), Retry::GiveUp { transient: false });
}

#[test]
fn probe_fallback_decisions() {
    assert!(probe_tool_missing("curl [..]: sh: curl: not found", false));
    assert!(probe_tool_missing("curl []: No such file or directory (os error 2)", false));
    assert!(probe_tool_missing("timeout", true));
    assert!(!probe_tool_missing("curl: (28) Connection timed out", false));
    assert!(!probe_tool_missing("Not Found", false));
    assert!(status_reachable(200));
    assert!(status_reachable(204));
    assert!(status_reachable(499));
    assert!(!status_reachable(199));
    assert!(!status_reachable(500));
}

#[test]
fn wan_interface_is_found() {
    assert_eq!(
        current_wan_interface(&ok("default via 192.0.2.1 dev eth3 proto static\n")),
        Some("eth3".to_string())
    );
    assert_eq!(
        current_wan_interface(&ok(
            "default dev opkgtun0 scope link\n  default via 10.0.0.1 dev br0\ndefault via 192.0.2.1 dev ppp0 metric 5\n"
        )),
        Some("ppp0".to_string())
    );
}

#[test]
fn wan_interface_is_not_a_lan_or_tunnel_device() {
    for dev in ["lo", "br0", "br-lan", "lan1", "vlan2", "wlan0", "wl1", "opkgtun0", "tun0"] {
        let table = format!("default via 192.0.2.1 dev {}\n", dev);
        assert_eq!(current_wan_interface(&Ok(table)), None);
    }
    assert_eq!(current_wan_interface(&ok("default via 192.0.2.1 dev tun1\n")), Some("tun1".into()));
    assert_eq!(current_wan_interface(&ok("default via 192.0.2.1 dev lo0\n")), Some("lo0".into()));
}

#[test]
fn wan_interface_needs_a_default_line() {
    assert_eq!(current_wan_interface(&err("ip: not found")), None);
    assert_eq!(current_wan_interface(&ok("")), None);
    assert_eq!(current_wan_interface(&ok("10.0.0.0/8 dev eth3\n")), None);
    assert_eq!(current_wan_interface(&ok("default\tvia 1.1.1.1 dev eth3\n")), None);
    assert_eq!(current_wan_interface(&ok("default via 1.1.1.1 dev\n")), None);
    assert_eq!(current_wan_interface(&ok("default via 1.1.1.1\n")), None);
    assert_eq!(current_wan_interface(&ok("defaults via 1.1.1.1 dev eth0\n")), None);
    assert_eq!(
        current_wan_interface(&ok("default via 1.1.1.1 dev br0 dev eth0\n")),
        None
    );
}

#[test]
fn netmask_of_prefix() {
    assert_eq!(prefix_to_netmask(0), "0.0.0.0");
    assert_eq!(prefix_to_netmask(1), "128.0.0.0");
    assert_eq!(prefix_to_netmask(8), "255.0.0.0");
    assert_eq!(prefix_to_netmask(12), "255.240.0.0");
    assert_eq!(prefix_to_netmask(24), "255.255.255.0");
    assert_eq!(prefix_to_netmask(25), "255.255.255.128");
    assert_eq!(prefix_to_netmask(31), "255.255.255.254");
    assert_eq!(prefix_to_netmask(32), "255.255.255.255");
    assert_eq!(prefix_to_netmask(33), "255.255.255.255");
    assert_eq!(prefix_to_netmask(255), "255.255.255.255");
}

#[test]
fn netmask_is_the_leading_bits() {
    for prefix in 1u8..=40 {
        let bits: u32 = if prefix >= 32 { 0xFFFF_FFFF } else { !((1u32 << (32 - prefix)) - 1) };
        let expect = format!(
            "{}.{}.{}.{}",
            (bits >> 24) & 0xFF,
            (bits >> 16) & 0xFF,
            (bits >> 8) & 0xFF,
            bits & 0xFF
        );
        assert_eq!(prefix_to_netmask(prefix), expect);
    }
}

#[test]
fn tunnel_address_is_read() {
    let listing = "7: opkgtun0    inet 10.8.0.2/24 scope global opkgtun0\\       valid_lft forever\n";
    assert_eq!(
        get_tun_ip_mask(&ok(listing)),
        Some(("10.8.0.2".to_string(), "255.255.255.0".to_string()))
    );
    assert_eq!(
        get_tun_ip_mask(&ok("7: x inet6 fe80::1/64\n7: x inet 172.16.0.9 peer 1.1.1.1\n")),
        Some(("172.16.0.9".to_string(), "255.255.255.255".to_string()))
    );
    assert_eq!(
        get_tun_ip_mask(&ok("x inet 10.0.0.1/xx\n")),
        Some(("10.0.0.1".to_string(), "255.255.255.255".to_string()))
    );
    assert_eq!(
        get_tun_ip_mask(&ok("x inet 10.0.0.1/16/24\n")),
        Some(("10.0.0.1".to_string(), "255.255.0.0".to_string()))
    );
    assert_eq!(get_tun_ip_mask(&ok("x inet\nx inet 10.0.0.1/8\n")), None);
    assert_eq!(get_tun_ip_mask(&ok("")), None);
    assert_eq!(get_tun_ip_mask(&err("Device does not exist")), None);
}

#[test]
fn tunnel_mtu_is_read() {
    assert_eq!(
        get_tun_mtu(&ok("7: opkgtun0: <POINTOPOINT,UP> mtu 1280 qdisc fq_codel state UNKNOWN\n")),
        Some(1280)
    );
    assert_eq!(get_tun_mtu(&ok("mtu 65535")), Some(65535));
    assert_eq!(get_tun_mtu(&ok("mtu 65536")), None);
    assert_eq!(get_tun_mtu(&ok("mtu x mtu 1500")), None);
    assert_eq!(get_tun_mtu(&ok("mtu")), None);
    assert_eq!(get_tun_mtu(&ok("no such word")), None);
    assert_eq!(get_tun_mtu(&err("x")), None);
}

#[test]
fn interface_index_is_read() {
    assert_eq!(parse_ndm_interface_index("name: OpkgTun0\n   index: 7\n"), Some(7));
    assert_eq!(parse_ndm_interface_index("index:0"), Some(0));
    assert_eq!(parse_ndm_interface_index("index: x\nindex: 3\n"), None);
    assert_eq!(parse_ndm_interface_index("Index: 3\n"), None);
    assert_eq!(parse_ndm_interface_index("index: 4294967296\n"), None);
    assert_eq!(parse_ndm_interface_index(""), None);
}

#[test]
fn default_route_through_tunnel_is_seen() {
    assert!(default_route_via_target("default dev opkgtun0 scope link\n"));
    assert!(default_route_via_target("default via 1.1.1.1 dev eth0\ndefault  dev   opkgtun0\n"));
    assert!(!default_route_via_target("default via 1.1.1.1 dev eth0\n"));
    assert!(!default_route_via_target("default dev\nopkgtun0\n"));
    assert!(!default_route_via_target("default dev opkgtun01\n"));
    assert!(!default_route_via_target(""));
}

#[test]
fn endpoint_host_is_what_stands_before_the_last_colon() {
    assert_eq!(endpoint_host("vpn.example.com:443"), Some("vpn.example.com".to_string()));
    assert_eq!(endpoint_host("2001:db8::1:443"), Some("2001:db8::1".to_string()));
    assert_eq!(endpoint_host(":443"), Some("".to_string()));
    assert_eq!(endpoint_host("host"), None);
    for s in ["a:b", "a:b:c", "abc", ":", ""] {
        assert_eq!(endpoint_host(s), s.rsplit_once(':').map(|(h, _)| h.to_string()));
    }
}

#[test]
fn endpoint_ip_is_the_first_reading() {
    let e = EndpointReadings {
        as_socket: Some(v4("1.1.1.1")),
        as_address: Some(v4("2.2.2.2")),
        host_as_address: Some(v4("3.3.3.3")),
    };
    assert_eq!(parse_endpoint_ip(&e).unwrap().text, "1.1.1.1");
    let e = EndpointReadings { as_socket: None, as_address: Some(v6("::1")), host_as_address: Some(v4("3.3.3.3")) };
    let ip = parse_endpoint_ip(&e).unwrap();
    assert_eq!((ip.v6, ip.text.as_str()), (true, "::1"));
    let e = EndpointReadings { as_socket: None, as_address: None, host_as_address: Some(v4("3.3.3.3")) };
    assert_eq!(parse_endpoint_ip(&e).unwrap().text, "3.3.3.3");
    let e = EndpointReadings { as_socket: None, as_address: None, host_as_address: None };
    assert!(parse_endpoint_ip(&e).is_none());
}

#[test]
fn server_ips_skip_endpoints_without_address() {
    let all = vec![
        EndpointReadings { as_socket: Some(v4("203.0.113.5")), as_address: None, host_as_address: None },
        EndpointReadings { as_socket: None, as_address: None, host_as_address: None },
        EndpointReadings { as_socket: None, as_address: Some(v6("2001:db8::1")), host_as_address: None },
    ];
    let ips = extract_server_ips(&all);
    let texts: Vec<(bool, &str)> = ips.iter().map(|i| (i.v6, i.text.as_str())).collect();
    assert_eq!(texts, vec![(false, "203.0.113.5"), (true, "2001:db8::1")]);
    assert!(extract_server_ips(&vec![]).is_empty());
}

fn rendered(plan: &Vec<OsCommand>) -> Vec<String> {
    plan.iter().map(|c| format!("{} {}", c.program(), c.arguments().join(" "))).collect()
}

#[test]
fn teardown_deletes_routes_then_lowers_the_device() {
    let plan = teardown_routing(&vec![v4("203.0.113.5"), v6("2001:db8::1")]);
    assert_eq!(
        rendered(&plan),
        vec![
            "ip route del 203.0.113.5/32",
            "ip -6 route del 2001:db8::1/128",
            "ip link set opkgtun0 down",
        ]
    );
    assert_eq!(rendered(&teardown_routing(&vec![])), vec!["ip link set opkgtun0 down"]);
}

#[test]
fn reroute_touches_only_host_routes() {
    let plan = reroute_server_via_wan(&vec![v4("203.0.113.5"), v6("2001:db8::1")], "ppp0");
    assert_eq!(
        rendered(&plan),
        vec![
            "ip route del 203.0.113.5/32",
            "ip route add 203.0.113.5/32 dev ppp0",
            "ip -6 route del 2001:db8::1/128",
            "ip -6 route add 2001:db8::1/128 dev ppp0",
        ]
    );
    assert!(reroute_server_via_wan(&vec![], "ppp0").is_empty());
}
