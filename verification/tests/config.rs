use trusttunnel_keenetic::config::{
    default_bind, default_false, default_file_enabled, default_log_file_path, default_loglevel,
    default_max_lines, default_mtu, default_ndm_port, default_port, default_reconnect_delay,
    default_rotate_keep, default_rotate_size_bytes, default_true, default_upstream_protocol,
    default_vpn_mode, default_watchdog_check_timeout, default_watchdog_check_url,
    default_watchdog_failures, default_watchdog_interval, generate_client_toml,
    parse_size_with_units, LogSettings, RoutingSettings, TunnelSettings, WebUISettings,
    WrapperConfig,
};

#[test]
fn test_generate_toml() {
    let s = TunnelSettings {
        hostname: "vpn.example.com".into(),
        addresses: vec!["1.2.3.4:443".into()],
        username: "user".into(),
        password: "pass".into(),
        ..Default::default()
    };
    let toml = generate_client_toml(&s);
    assert!(toml.contains("[endpoint]"));
    assert!(toml.contains("hostname = \"vpn.example.com\""));
    assert!(toml.contains("username = \"user\""));
    assert!(toml.contains("[listener.tun]"));
}

#[test]
fn test_parse_size_with_units() {
    assert_eq!(parse_size_with_units("1048576"), Some(1_048_576));
    assert_eq!(parse_size_with_units("512KB"), Some(512 * 1024));
    assert_eq!(parse_size_with_units("10mb"), Some(10 * 1024 * 1024));
    assert_eq!(parse_size_with_units("1 G"), Some(1024 * 1024 * 1024));
    assert_eq!(parse_size_with_units(""), None);
    assert_eq!(parse_size_with_units("oops"), None);
}

#[test]
fn defaults_are_as_documented() {
    assert_eq!(default_watchdog_interval(), 30);
    assert_eq!(default_watchdog_failures(), 3);
    assert_eq!(default_watchdog_check_url(), "http://connectivitycheck.gstatic.com/generate_204");
    assert_eq!(default_watchdog_check_timeout(), 5);
    assert_eq!(default_upstream_protocol(), "http2");
    assert_eq!(default_vpn_mode(), "general");
    assert_eq!(default_mtu(), 1280);
    assert_eq!(default_reconnect_delay(), 5);
    assert_eq!(default_loglevel(), "info");
    assert_eq!(default_port(), 8080);
    assert_eq!(default_bind(), "0.0.0.0");
    assert!(default_true());
    assert!(!default_false());
    assert_eq!(default_max_lines(), 500);
    assert_eq!(default_ndm_port(), 80);
    assert!(default_file_enabled());
    assert_eq!(default_log_file_path(), "/var/log/trusttunnel-keenetic/trusttunnel-keenetic.log");
    assert_eq!(default_rotate_size_bytes(), 524288);
    assert_eq!(default_rotate_keep(), 1);
}

#[test]
fn default_settings() {
    let c = WrapperConfig::default();
    assert_eq!(c.tunnel.hostname, "");
    assert!(c.tunnel.addresses.is_empty());
    assert_eq!(c.tunnel.upstream_protocol, "http2");
    assert_eq!(c.tunnel.vpn_mode, "general");
    assert_eq!(c.tunnel.dns_upstreams, vec!["tls://1.1.1.1"]);
    assert!(c.tunnel.post_quantum_group_enabled);
    assert_eq!(c.tunnel.included_routes, vec!["0.0.0.0/0", "2000::/3"]);
    assert_eq!(c.tunnel.excluded_routes, vec!["10.0.0.0/8", "172.16.0.0/12", "192.168.0.0/16"]);
    assert_eq!(c.tunnel.mtu_size, 1280);
    assert!(c.tunnel.has_ipv6);
    assert!(!c.tunnel.change_system_dns);
    assert_eq!(c.tunnel.reconnect_delay, 5);
    assert_eq!(c.tunnel.loglevel, "info");
    let w = WebUISettings::default();
    assert_eq!((w.port, w.bind.as_str(), w.auth, w.ndm_host.as_str(), w.ndm_port), (8080, "0.0.0.0", true, "", 80));
    let l = LogSettings::default();
    assert_eq!((l.level.as_str(), l.max_lines, l.file_enabled, l.rotate_size, l.rotate_keep), ("info", 500, true, 524288, 1));
    let r = RoutingSettings::default();
    assert!(r.enabled && r.watchdog_enabled);
    assert_eq!((r.watchdog_interval, r.watchdog_failures, r.watchdog_check_timeout), (30, 3, 5));
    assert_eq!(c.routing.watchdog_check_url, "http://connectivitycheck.gstatic.com/generate_204");
}

#[test]
fn duplicate_copies_every_field() {
    let s = TunnelSettings {
        hostname: "h".into(),
        addresses: vec!["a".into(), "b".into()],
        killswitch_allow_ports: vec![1, 2],
        socks_address: "s".into(),
        reconnect_delay: 77,
        ..Default::default()
    };
    assert_eq!(format!("{:?}", s.duplicate()), format!("{:?}", s));
}

#[test]
fn toml_of_default_settings() {
    let toml = generate_client_toml(&TunnelSettings::default());
    assert_eq!(
        toml,
        "loglevel = \"info\"\n\
vpn_mode = \"general\"\n\
killswitch_enabled = false\n\
killswitch_allow_ports = []\n\
post_quantum_group_enabled = true\n\
exclusions = []\n\
dns_upstreams = [\"tls://1.1.1.1\"]\n\
\n[endpoint]\n\
hostname = \"\"\n\
addresses = []\n\
username = \"\"\n\
password = \"\"\n\
upstream_protocol = \"http2\"\n\
has_ipv6 = true\n\
client_random = \"\"\n\
skip_verification = false\n\
anti_dpi = false\n\
\n[listener.tun]\n\
bound_if = \"\"\n\
change_system_dns = false\n\
included_routes = [\"0.0.0.0/0\", \"2000::/3\"]\n\
excluded_routes = [\"10.0.0.0/8\", \"172.16.0.0/12\", \"192.168.0.0/16\"]\n\
mtu_size = 1280\n"
    );
}

#[test]
fn toml_with_every_option() {
    let s = TunnelSettings {
        hostname: "vpn.example.com".into(),
        addresses: vec!["1.2.3.4:443".into(), "[2001:db8::1]:443".into()],
        username: "user".into(),
        password: "pa\"ss".into(),
        certificate: "CERT".into(),
        skip_verification: true,
        vpn_mode: "selective".into(),
        dns_upstreams: vec![],
        killswitch_enabled: true,
        killswitch_allow_ports: vec![22, 443, 65535],
        exclusions: vec!["a.example".into(), "b.example".into()],
        included_routes: vec![],
        excluded_routes: vec![],
        mtu_size: 1400,
        bound_if: "eth3".into(),
        change_system_dns: true,
        anti_dpi: true,
        has_ipv6: false,
        client_random: "abcd".into(),
        socks_address: "127.0.0.1:1080".into(),
        socks_username: "su".into(),
        socks_password: "".into(),
        loglevel: "debug".into(),
        ..Default::default()
    };
    let toml = generate_client_toml(&s);
    assert_eq!(
        toml,
        "loglevel = \"debug\"\n\
vpn_mode = \"selective\"\n\
killswitch_enabled = true\n\
killswitch_allow_ports = [22, 443, 65535]\n\
post_quantum_group_enabled = true\n\
exclusions = [\"a.example\", \"b.example\"]\n\
\n[endpoint]\n\
hostname = \"vpn.example.com\"\n\
addresses = [\"1.2.3.4:443\", \"[2001:db8::1]:443\"]\n\
username = \"user\"\n\
password = \"pa\"ss\"\n\
upstream_protocol = \"http2\"\n\
has_ipv6 = false\n\
client_random = \"abcd\"\n\
skip_verification = true\n\
anti_dpi = true\n\
certificate = \"CERT\"\n\
\n[listener.tun]\n\
bound_if = \"eth3\"\n\
change_system_dns = true\n\
mtu_size = 1400\n\
\n[listener.socks]\n\
address = \"127.0.0.1:1080\"\n\
username = \"su\"\n"
    );
}

#[test]
fn toml_falls_back_to_all_routes_in_general_mode() {
    let s = TunnelSettings { included_routes: vec![], ..Default::default() };
    assert!(generate_client_toml(&s).contains("included_routes = [\"0.0.0.0/0\", \"2000::/3\"]\n"));
    let s = TunnelSettings { included_routes: vec![], vpn_mode: "General".into(), ..Default::default() };
    assert!(!generate_client_toml(&s).contains("included_routes"));
    let s = TunnelSettings { included_routes: vec!["10.1.0.0/16".into()], ..Default::default() };
    assert!(generate_client_toml(&s).contains("included_routes = [\"10.1.0.0/16\"]\n"));
}

#[test]
fn sizes_with_units() {
    assert_eq!(parse_size_with_units("  42  "), Some(42));
    assert_eq!(parse_size_with_units("+42"), Some(42));
    assert_eq!(parse_size_with_units("1k"), Some(1024));
    assert_eq!(parse_size_with_units("1Kb"), Some(1024));
    assert_eq!(parse_size_with_units("2M"), Some(2 * 1024 * 1024));
    assert_eq!(parse_size_with_units("3gb"), Some(3 * 1024 * 1024 * 1024));
    assert_eq!(parse_size_with_units("7B"), Some(7));
    assert_eq!(parse_size_with_units("7 b"), Some(7));
    assert_eq!(parse_size_with_units("7BB"), None);
    assert_eq!(parse_size_with_units("7T"), None);
    assert_eq!(parse_size_with_units("K"), None);
    assert_eq!(parse_size_with_units("+5K"), None);
    assert_eq!(parse_size_with_units("-5"), None);
    assert_eq!(parse_size_with_units("5 K B"), None);
    assert_eq!(parse_size_with_units("18446744073709551615"), Some(u64::MAX));
    assert_eq!(parse_size_with_units("18446744073709551616"), None);
    assert_eq!(parse_size_with_units("18446744073709551616K"), None);
    assert_eq!(parse_size_with_units("17179869183G"), Some(17179869183 * 1024 * 1024 * 1024));
    assert_eq!(parse_size_with_units("17179869184G"), None);
    assert_eq!(parse_size_with_units("18014398509481984K"), None);
}
