//! Settings of the daemon and of the tunnel client, their defaults, and the
//! configuration text that the tunnel client reads.
use crate::decimal::{
    char_is_digit, decimal, is_digit, parse_unsigned, parse_unsigned_chars, push_decimal,
};
use crate::text::{
    chars_of, chars_to_upper, extend_chars, slice_of, str_eq, string_of, strings, texts, to_upper,
    trim, trim_chars,
};
use vstd::prelude::*;

verus! {

/// A copy of a list of strings.
pub fn clone_strings(v: &Vec<String>) -> (r: Vec<String>)
    ensures
        strings(r@) == strings(v@),
{
    let mut r: Vec<String> = Vec::new();
    let mut i: usize = 0;
    while i < v.len()
        invariant
            i <= v.len(),
            strings(r@) == strings(v@.take(i as int)),
        decreases v.len() - i,
    {
        r.push(v[i].clone());
        i += 1;
        assert(v@.take(i as int) == v@.take(i - 1).push(v@[i - 1]));
        assert(strings(v@.take(i as int)) == strings(v@.take(i - 1)).push(v@[i - 1]@));
    }
    assert(v@.take(v.len() as int) == v@);
    r
}

/// A copy of a list of ports.
pub fn clone_ports(v: &Vec<u16>) -> (r: Vec<u16>)
    ensures
        r@ == v@,
{
    let mut r: Vec<u16> = Vec::new();
    let mut i: usize = 0;
    while i < v.len()
        invariant
            i <= v.len(),
            r@ == v@.take(i as int),
        decreases v.len() - i,
    {
        r.push(v[i]);
        i += 1;
        assert(v@.take(i as int) == v@.take(i - 1).push(v@[i - 1]));
    }
    assert(v@.take(v.len() as int) == v@);
    r
}

/// What the tunnel client is told: the endpoint, the credentials and the
/// listener options, with the delay before the daemon reconnects.
#[derive(Debug)]
pub struct TunnelSettings {
    pub hostname: String,
    pub addresses: Vec<String>,
    pub username: String,
    pub password: String,
    pub upstream_protocol: String,
    pub certificate: String,
    pub skip_verification: bool,
    pub vpn_mode: String,
    pub dns_upstreams: Vec<String>,
    pub killswitch_enabled: bool,
    pub killswitch_allow_ports: Vec<u16>,
    pub post_quantum_group_enabled: bool,
    pub exclusions: Vec<String>,
    pub included_routes: Vec<String>,
    pub excluded_routes: Vec<String>,
    pub mtu_size: u16,
    pub bound_if: String,
    pub change_system_dns: bool,
    pub anti_dpi: bool,
    pub has_ipv6: bool,
    pub client_random: String,
    pub socks_address: String,
    pub socks_username: String,
    pub socks_password: String,
    pub reconnect_delay: u64,
    pub loglevel: String,
}

/// The mathematical content of [`TunnelSettings`].
pub struct TunnelSettingsView {
    pub hostname: Seq<char>,
    pub addresses: Seq<Seq<char>>,
    pub username: Seq<char>,
    pub password: Seq<char>,
    pub upstream_protocol: Seq<char>,
    pub certificate: Seq<char>,
    pub skip_verification: bool,
    pub vpn_mode: Seq<char>,
    pub dns_upstreams: Seq<Seq<char>>,
    pub killswitch_enabled: bool,
    pub killswitch_allow_ports: Seq<u16>,
    pub post_quantum_group_enabled: bool,
    pub exclusions: Seq<Seq<char>>,
    pub included_routes: Seq<Seq<char>>,
    pub excluded_routes: Seq<Seq<char>>,
    pub mtu_size: u16,
    pub bound_if: Seq<char>,
    pub change_system_dns: bool,
    pub anti_dpi: bool,
    pub has_ipv6: bool,
    pub client_random: Seq<char>,
    pub socks_address: Seq<char>,
    pub socks_username: Seq<char>,
    pub socks_password: Seq<char>,
    pub reconnect_delay: u64,
    pub loglevel: Seq<char>,
}

impl View for TunnelSettings {
    type V = TunnelSettingsView;

    open spec fn view(&self) -> TunnelSettingsView {
        TunnelSettingsView {
            hostname: self.hostname@,
            addresses: strings(self.addresses@),
            username: self.username@,
            password: self.password@,
            upstream_protocol: self.upstream_protocol@,
            certificate: self.certificate@,
            skip_verification: self.skip_verification,
            vpn_mode: self.vpn_mode@,
            dns_upstreams: strings(self.dns_upstreams@),
            killswitch_enabled: self.killswitch_enabled,
            killswitch_allow_ports: self.killswitch_allow_ports@,
            post_quantum_group_enabled: self.post_quantum_group_enabled,
            exclusions: strings(self.exclusions@),
            included_routes: strings(self.included_routes@),
            excluded_routes: strings(self.excluded_routes@),
            mtu_size: self.mtu_size,
            bound_if: self.bound_if@,
            change_system_dns: self.change_system_dns,
            anti_dpi: self.anti_dpi,
            has_ipv6: self.has_ipv6,
            client_random: self.client_random@,
            socks_address: self.socks_address@,
            socks_username: self.socks_username@,
            socks_password: self.socks_password@,
            reconnect_delay: self.reconnect_delay,
            loglevel: self.loglevel@,
        }
    }
}

/// Where the control page listens and which router it asks about logins.
#[derive(Debug)]
pub struct WebUISettings {
    pub port: u16,
    pub bind: String,
    pub auth: bool,
    pub ndm_host: String,
    pub ndm_port: u16,
}

pub struct WebUISettingsView {
    pub port: u16,
    pub bind: Seq<char>,
    pub auth: bool,
    pub ndm_host: Seq<char>,
    pub ndm_port: u16,
}

impl View for WebUISettings {
    type V = WebUISettingsView;

    open spec fn view(&self) -> WebUISettingsView {
        WebUISettingsView {
            port: self.port,
            bind: self.bind@,
            auth: self.auth,
            ndm_host: self.ndm_host@,
            ndm_port: self.ndm_port,
        }
    }
}

/// How much is logged, and where the log file lives and when it rotates.
#[derive(Debug)]
pub struct LogSettings {
    pub level: String,
    pub max_lines: usize,
    pub file_enabled: bool,
    pub file_path: String,
    pub rotate_size: u64,
    pub rotate_keep: usize,
}

pub struct LogSettingsView {
    pub level: Seq<char>,
    pub max_lines: usize,
    pub file_enabled: bool,
    pub file_path: Seq<char>,
    pub rotate_size: u64,
    pub rotate_keep: usize,
}

impl View for LogSettings {
    type V = LogSettingsView;

    open spec fn view(&self) -> LogSettingsView {
        LogSettingsView {
            level: self.level@,
            max_lines: self.max_lines,
            file_enabled: self.file_enabled,
            file_path: self.file_path@,
            rotate_size: self.rotate_size,
            rotate_keep: self.rotate_keep,
        }
    }
}

/// Whether the daemon manages routes, and how its watchdog probes.
#[derive(Debug)]
pub struct RoutingSettings {
    pub enabled: bool,
    pub watchdog_enabled: bool,
    pub watchdog_interval: u64,
    pub watchdog_failures: u32,
    pub watchdog_check_url: String,
    pub watchdog_check_timeout: u64,
}

pub struct RoutingSettingsView {
    pub enabled: bool,
    pub watchdog_enabled: bool,
    pub watchdog_interval: u64,
    pub watchdog_failures: u32,
    pub watchdog_check_url: Seq<char>,
    pub watchdog_check_timeout: u64,
}

impl View for RoutingSettings {
    type V = RoutingSettingsView;

    open spec fn view(&self) -> RoutingSettingsView {
        RoutingSettingsView {
            enabled: self.enabled,
            watchdog_enabled: self.watchdog_enabled,
            watchdog_interval: self.watchdog_interval,
            watchdog_failures: self.watchdog_failures,
            watchdog_check_url: self.watchdog_check_url@,
            watchdog_check_timeout: self.watchdog_check_timeout,
        }
    }
}

/// The daemon's whole configuration.
#[derive(Debug)]
pub struct WrapperConfig {
    pub tunnel: TunnelSettings,
    pub webui: WebUISettings,
    pub logging: LogSettings,
    pub routing: RoutingSettings,
}

pub struct WrapperConfigView {
    pub tunnel: TunnelSettingsView,
    pub webui: WebUISettingsView,
    pub logging: LogSettingsView,
    pub routing: RoutingSettingsView,
}

impl View for WrapperConfig {
    type V = WrapperConfigView;

    open spec fn view(&self) -> WrapperConfigView {
        WrapperConfigView {
            tunnel: self.tunnel@,
            webui: self.webui@,
            logging: self.logging@,
            routing: self.routing@,
        }
    }
}

pub fn default_watchdog_interval() -> (r: u64)
    ensures
        r == 30,
{
    30
}

pub fn default_watchdog_failures() -> (r: u32)
    ensures
        r == 3,
{
    3
}

pub fn default_watchdog_check_url() -> (r: String)
    ensures
        r@ == "http://connectivitycheck.gstatic.com/generate_204"@,
{
    "http://connectivitycheck.gstatic.com/generate_204".to_owned()
}

pub fn default_watchdog_check_timeout() -> (r: u64)
    ensures
        r == 5,
{
    5
}

pub fn default_upstream_protocol() -> (r: String)
    ensures
        r@ == "http2"@,
{
    "http2".to_owned()
}

pub fn default_vpn_mode() -> (r: String)
    ensures
        r@ == "general"@,
{
    "general".to_owned()
}

pub fn default_mtu() -> (r: u16)
    ensures
        r == 1280,
{
    1280
}

pub fn default_reconnect_delay() -> (r: u64)
    ensures
        r == 5,
{
    5
}

pub fn default_loglevel() -> (r: String)
    ensures
        r@ == "info"@,
{
    "info".to_owned()
}

pub fn default_port() -> (r: u16)
    ensures
        r == 8080,
{
    8080
}

pub fn default_bind() -> (r: String)
    ensures
        r@ == "0.0.0.0"@,
{
    "0.0.0.0".to_owned()
}

pub fn default_true() -> (r: bool)
    ensures
        r,
{
    true
}

pub fn default_false() -> (r: bool)
    ensures
        !r,
{
    false
}

pub fn default_max_lines() -> (r: usize)
    ensures
        r == 500,
{
    500
}

pub fn default_ndm_port() -> (r: u16)
    ensures
        r == 80,
{
    80
}

pub fn default_file_enabled() -> (r: bool)
    ensures
        r,
{
    true
}

pub fn default_log_file_path() -> (r: String)
    ensures
        r@ == "/var/log/trusttunnel-keenetic/trusttunnel-keenetic.log"@,
{
    "/var/log/trusttunnel-keenetic/trusttunnel-keenetic.log".to_owned()
}

pub fn default_rotate_size_bytes() -> (r: u64)
    ensures
        r == 512 * 1024,
{
    512 * 1024
}

pub fn default_rotate_keep() -> (r: usize)
    ensures
        r == 1,
{
    1
}

/// The routing settings of a configuration that names none.
pub open spec fn default_routing_settings() -> RoutingSettingsView {
    RoutingSettingsView {
        enabled: true,
        watchdog_enabled: true,
        watchdog_interval: 30,
        watchdog_failures: 3,
        watchdog_check_url: "http://connectivitycheck.gstatic.com/generate_204"@,
        watchdog_check_timeout: 5,
    }
}

impl Default for RoutingSettings {
    fn default() -> (r: Self)
        ensures
            r@ == default_routing_settings(),
    {
        RoutingSettings {
            enabled: true,
            watchdog_enabled: true,
            watchdog_interval: default_watchdog_interval(),
            watchdog_failures: default_watchdog_failures(),
            watchdog_check_url: default_watchdog_check_url(),
            watchdog_check_timeout: default_watchdog_check_timeout(),
        }
    }
}

/// The tunnel settings of a configuration that names none: no endpoint, the
/// whole address space routed into the tunnel but for the private ranges.
pub open spec fn default_tunnel_settings() -> TunnelSettingsView {
    TunnelSettingsView {
        hostname: Seq::empty(),
        addresses: Seq::empty(),
        username: Seq::empty(),
        password: Seq::empty(),
        upstream_protocol: "http2"@,
        certificate: Seq::empty(),
        skip_verification: false,
        vpn_mode: "general"@,
        dns_upstreams: seq!["tls://1.1.1.1"@],
        killswitch_enabled: false,
        killswitch_allow_ports: Seq::empty(),
        post_quantum_group_enabled: true,
        exclusions: Seq::empty(),
        included_routes: seq!["0.0.0.0/0"@, "2000::/3"@],
        excluded_routes: seq!["10.0.0.0/8"@, "172.16.0.0/12"@, "192.168.0.0/16"@],
        mtu_size: 1280,
        bound_if: Seq::empty(),
        change_system_dns: false,
        anti_dpi: false,
        has_ipv6: true,
        client_random: Seq::empty(),
        socks_address: Seq::empty(),
        socks_username: Seq::empty(),
        socks_password: Seq::empty(),
        reconnect_delay: 5,
        loglevel: "info"@,
    }
}

impl Default for TunnelSettings {
    fn default() -> (r: Self)
        ensures
            r@ == default_tunnel_settings(),
    {
        let mut dns: Vec<String> = Vec::new();
        dns.push("tls://1.1.1.1".to_owned());
        let mut included: Vec<String> = Vec::new();
        included.push("0.0.0.0/0".to_owned());
        included.push("2000::/3".to_owned());
        let mut excluded: Vec<String> = Vec::new();
        excluded.push("10.0.0.0/8".to_owned());
        excluded.push("172.16.0.0/12".to_owned());
        excluded.push("192.168.0.0/16".to_owned());
        let r = TunnelSettings {
            hostname: String::new(),
            addresses: Vec::new(),
            username: String::new(),
            password: String::new(),
            upstream_protocol: default_upstream_protocol(),
            certificate: String::new(),
            skip_verification: false,
            vpn_mode: default_vpn_mode(),
            dns_upstreams: dns,
            killswitch_enabled: false,
            killswitch_allow_ports: Vec::new(),
            post_quantum_group_enabled: true,
            exclusions: Vec::new(),
            included_routes: included,
            excluded_routes: excluded,
            mtu_size: default_mtu(),
            bound_if: String::new(),
            change_system_dns: false,
            anti_dpi: false,
            has_ipv6: true,
            client_random: String::new(),
            socks_address: String::new(),
            socks_username: String::new(),
            socks_password: String::new(),
            reconnect_delay: default_reconnect_delay(),
            loglevel: default_loglevel(),
        };
        assert(r@.addresses == Seq::<Seq<char>>::empty());
        assert(r@.exclusions == Seq::<Seq<char>>::empty());
        assert(r@.dns_upstreams == seq!["tls://1.1.1.1"@]);
        assert(r@.included_routes == seq!["0.0.0.0/0"@, "2000::/3"@]);
        assert(r@.excluded_routes == seq!["10.0.0.0/8"@, "172.16.0.0/12"@, "192.168.0.0/16"@]);
        r
    }
}

/// The control-page settings of a configuration that names none.
pub open spec fn default_webui_settings() -> WebUISettingsView {
    WebUISettingsView {
        port: 8080,
        bind: "0.0.0.0"@,
        auth: true,
        ndm_host: Seq::empty(),
        ndm_port: 80,
    }
}

impl Default for WebUISettings {
    fn default() -> (r: Self)
        ensures
            r@ == default_webui_settings(),
    {
        WebUISettings {
            port: default_port(),
            bind: default_bind(),
            auth: true,
            ndm_host: String::new(),
            ndm_port: default_ndm_port(),
        }
    }
}

/// The log settings of a configuration that names none.
pub open spec fn default_log_settings() -> LogSettingsView {
    LogSettingsView {
        level: "info"@,
        max_lines: 500,
        file_enabled: true,
        file_path: "/var/log/trusttunnel-keenetic/trusttunnel-keenetic.log"@,
        rotate_size: 524288,
        rotate_keep: 1,
    }
}

impl Default for LogSettings {
    fn default() -> (r: Self)
        ensures
            r@ == default_log_settings(),
    {
        LogSettings {
            level: default_loglevel(),
            max_lines: default_max_lines(),
            file_enabled: default_file_enabled(),
            file_path: default_log_file_path(),
            rotate_size: default_rotate_size_bytes(),
            rotate_keep: default_rotate_keep(),
        }
    }
}

impl Default for WrapperConfig {
    fn default() -> (r: Self)
        ensures
            r@.tunnel == default_tunnel_settings(),
            r@.webui == default_webui_settings(),
            r@.logging == default_log_settings(),
            r@.routing == default_routing_settings(),
    {
        WrapperConfig {
            tunnel: TunnelSettings::default(),
            webui: WebUISettings::default(),
            logging: LogSettings::default(),
            routing: RoutingSettings::default(),
        }
    }
}

impl TunnelSettings {
    /// A copy with the same content.
    pub fn duplicate(&self) -> (r: Self)
        ensures
            r@ == self@,
    {
        TunnelSettings {
            hostname: self.hostname.clone(),
            addresses: clone_strings(&self.addresses),
            username: self.username.clone(),
            password: self.password.clone(),
            upstream_protocol: self.upstream_protocol.clone(),
            certificate: self.certificate.clone(),
            skip_verification: self.skip_verification,
            vpn_mode: self.vpn_mode.clone(),
            dns_upstreams: clone_strings(&self.dns_upstreams),
            killswitch_enabled: self.killswitch_enabled,
            killswitch_allow_ports: clone_ports(&self.killswitch_allow_ports),
            post_quantum_group_enabled: self.post_quantum_group_enabled,
            exclusions: clone_strings(&self.exclusions),
            included_routes: clone_strings(&self.included_routes),
            excluded_routes: clone_strings(&self.excluded_routes),
            mtu_size: self.mtu_size,
            bound_if: self.bound_if.clone(),
            change_system_dns: self.change_system_dns,
            anti_dpi: self.anti_dpi,
            has_ipv6: self.has_ipv6,
            client_random: self.client_random.clone(),
            socks_address: self.socks_address.clone(),
            socks_username: self.socks_username.clone(),
            socks_password: self.socks_password.clone(),
            reconnect_delay: self.reconnect_delay,
            loglevel: self.loglevel.clone(),
        }
    }
}


/// How many digits `s` begins with.
pub open spec fn leading_digits(s: Seq<char>) -> nat
    decreases s.len(),
{
    if s.len() > 0 && is_digit(s[0]) {
        1 + leading_digits(s.drop_first())
    } else {
        0
    }
}

/// The factor that a unit suffix, in capitals, stands for.
pub open spec fn unit_multiplier(suffix: Seq<char>) -> Option<u64> {
    if suffix == seq!['K'] || suffix == seq!['K', 'B'] {
        Some(1024u64)
    } else if suffix == seq!['M'] || suffix == seq!['M', 'B'] {
        Some(1048576u64)
    } else if suffix == seq!['G'] || suffix == seq!['G', 'B'] {
        Some(1073741824u64)
    } else if suffix == seq!['B'] || suffix.len() == 0 {
        Some(1u64)
    } else {
        None
    }
}

/// The number of bytes that a size text names. The text is trimmed; a plain
/// number is taken as bytes; otherwise leading digits are followed, after
/// optional whitespace, by a unit `K`, `M`, `G` or `B` in either case, with
/// an optional `B` behind `K`, `M` and `G`. Units are powers of 1024. A text
/// of another shape, or a size above the largest `u64`, names nothing.
pub open spec fn size_with_units(value: Seq<char>) -> Option<u64> {
    let t = trim(value);
    let up = to_upper(t);
    let k = leading_digits(up) as int;
    if t.len() == 0 {
        None
    } else if parse_unsigned(t, u64::MAX as nat) is Some {
        Some(parse_unsigned(t, u64::MAX as nat)->0 as u64)
    } else if k == 0 {
        None
    } else {
        match (parse_unsigned(up.take(k), u64::MAX as nat), unit_multiplier(trim(up.skip(k)))) {
            (Some(number), Some(m)) => if number * m <= u64::MAX {
                Some((number * m) as u64)
            } else {
                None
            },
            _ => None,
        }
    }
}

fn count_leading_digits(v: &Vec<char>) -> (k: usize)
    ensures
        k == leading_digits(v@),
        k <= v.len(),
{
    let n = v.len();
    let mut k: usize = 0;
    assert(v@.subrange(0, n as int) == v@);
    while k < n && char_is_digit(v[k])
        invariant
            k <= n == v.len(),
            leading_digits(v@) == k + leading_digits(v@.subrange(k as int, n as int)),
        decreases n - k,
    {
        assert(v@.subrange(k as int, n as int).drop_first() == v@.subrange(k + 1, n as int));
        k += 1;
    }
    k
}

fn unit_multiplier_of(suffix: &Vec<char>) -> (r: Option<u64>)
    ensures
        r == unit_multiplier(suffix@),
{
    let n = suffix.len();
    if n == 0 {
        return Some(1);
    }
    let c = suffix[0];
    if n == 1 {
        assert(suffix@ == seq![c]);
        assert(seq!['K'][0] == 'K' && seq!['M'][0] == 'M' && seq!['G'][0] == 'G' && seq!['B'][0]
            == 'B');
        if c == 'K' {
            Some(1024)
        } else if c == 'M' {
            Some(1048576)
        } else if c == 'G' {
            Some(1073741824)
        } else if c == 'B' {
            Some(1)
        } else {
            None
        }
    } else if n == 2 {
        let d = suffix[1];
        assert(suffix@ == seq![c, d]);
        assert(seq!['K', 'B'][0] == 'K' && seq!['M', 'B'][0] == 'M' && seq!['G', 'B'][0] == 'G');
        assert(seq!['K', 'B'][1] == 'B' && seq!['M', 'B'][1] == 'B' && seq!['G', 'B'][1] == 'B');
        if d != 'B' {
            None
        } else if c == 'K' {
            Some(1024)
        } else if c == 'M' {
            Some(1048576)
        } else if c == 'G' {
            Some(1073741824)
        } else {
            None
        }
    } else {
        None
    }
}

/// Reads a size such as `1048576`, `512KB`, `10mb` or `1 G` as a number of
/// bytes.
pub fn parse_size_with_units(value: &str) -> (r: Option<u64>)
    ensures
        r == size_with_units(value@),
{
    let raw = chars_of(value);
    let trimmed = trim_chars(&raw);
    if trimmed.len() == 0 {
        return None;
    }
    match parse_unsigned_chars(&trimmed, u64::MAX) {
        Some(bytes) => {
            return Some(bytes);
        },
        None => {},
    }
    let upper = chars_to_upper(&trimmed);
    let digits_end = count_leading_digits(&upper);
    if digits_end == 0 {
        return None;
    }
    let digits = slice_of(&upper, 0, digits_end);
    let rest = slice_of(&upper, digits_end, upper.len());
    let suffix = trim_chars(&rest);
    assert(digits@ == upper@.take(digits_end as int));
    assert(rest@ == upper@.skip(digits_end as int));
    match parse_unsigned_chars(&digits, u64::MAX) {
        None => None,
        Some(number) => match unit_multiplier_of(&suffix) {
            None => None,
            Some(multiplier) => number.checked_mul(multiplier),
        },
    }
}

/// How a truth value is written.
pub open spec fn bool_text(b: bool) -> Seq<char> {
    if b {
        "true"@
    } else {
        "false"@
    }
}

/// `s` between double quotes, with nothing escaped.
pub open spec fn quoted(s: Seq<char>) -> Seq<char> {
    seq!['"'] + s + seq!['"']
}

pub open spec fn quoted_all(items: Seq<Seq<char>>) -> Seq<Seq<char>> {
    items.map_values(|s: Seq<char>| quoted(s))
}

pub open spec fn port_texts(ports: Seq<u16>) -> Seq<Seq<char>> {
    ports.map_values(|p: u16| decimal(p as nat))
}

/// The items in order, with `sep` between each two neighbours.
pub open spec fn join(items: Seq<Seq<char>>, sep: Seq<char>) -> Seq<char>
    decreases items.len(),
{
    if items.len() == 0 {
        Seq::empty()
    } else if items.len() == 1 {
        items[0]
    } else {
        join(items.drop_last(), sep) + sep + items.last()
    }
}

/// A line that sets `key` to a quoted text.
pub open spec fn text_line(key: Seq<char>, value: Seq<char>) -> Seq<char> {
    key + " = \""@ + value + "\"\n"@
}

/// A line that sets `key` to a bare value.
pub open spec fn plain_line(key: Seq<char>, value: Seq<char>) -> Seq<char> {
    key + " = "@ + value + "\n"@
}

/// A line that sets `key` to a list of items, written in brackets with a
/// comma and a space between them.
pub open spec fn list_line(key: Seq<char>, items: Seq<Seq<char>>) -> Seq<char> {
    key + " = ["@ + join(items, ", "@) + "]\n"@
}

pub open spec fn optional_text_line(key: Seq<char>, value: Seq<char>) -> Seq<char> {
    if value.len() > 0 {
        text_line(key, value)
    } else {
        Seq::empty()
    }
}

pub open spec fn optional_list_line(key: Seq<char>, items: Seq<Seq<char>>) -> Seq<char> {
    if items.len() > 0 {
        list_line(key, quoted_all(items))
    } else {
        Seq::empty()
    }
}

/// The routes sent into the tunnel: those configured, or, where none is
/// configured in the mode `general`, the whole IPv4 and global IPv6 space.
pub open spec fn effective_included_routes(s: TunnelSettingsView) -> Seq<Seq<char>> {
    if s.included_routes.len() == 0 && s.vpn_mode == "general"@ {
        seq!["0.0.0.0/0"@, "2000::/3"@]
    } else {
        s.included_routes
    }
}

/// The first of the top-level keys of the client's configuration.
pub open spec fn general_head(s: TunnelSettingsView) -> Seq<char> {
    text_line("loglevel"@, s.loglevel) + text_line("vpn_mode"@, s.vpn_mode) + plain_line(
        "killswitch_enabled"@,
        bool_text(s.killswitch_enabled),
    ) + list_line("killswitch_allow_ports"@, port_texts(s.killswitch_allow_ports))
}

/// The top-level keys of the client's configuration.
pub open spec fn general_part(s: TunnelSettingsView) -> Seq<char> {
    general_head(s) + plain_line(
        "post_quantum_group_enabled"@,
        bool_text(s.post_quantum_group_enabled),
    ) + list_line("exclusions"@, quoted_all(s.exclusions)) + optional_list_line(
        "dns_upstreams"@,
        s.dns_upstreams,
    )
}

/// The head of the table `[endpoint]`: where the endpoint is and who logs
/// in.
pub open spec fn endpoint_identity(s: TunnelSettingsView) -> Seq<char> {
    "\n[endpoint]\n"@ + text_line("hostname"@, s.hostname) + list_line(
        "addresses"@,
        quoted_all(s.addresses),
    ) + text_line("username"@, s.username) + text_line("password"@, s.password)
}

/// The rest of the table `[endpoint]`: how the endpoint is talked to.
pub open spec fn endpoint_options(s: TunnelSettingsView) -> Seq<char> {
    text_line("upstream_protocol"@, s.upstream_protocol) + plain_line(
        "has_ipv6"@,
        bool_text(s.has_ipv6),
    ) + text_line("client_random"@, s.client_random) + plain_line(
        "skip_verification"@,
        bool_text(s.skip_verification),
    ) + plain_line("anti_dpi"@, bool_text(s.anti_dpi)) + optional_text_line(
        "certificate"@,
        s.certificate,
    )
}

/// The table `[endpoint]` of the client's configuration.
pub open spec fn endpoint_part(s: TunnelSettingsView) -> Seq<char> {
    endpoint_identity(s) + endpoint_options(s)
}

/// The lines of the table `[listener.tun]` that list routes.
pub open spec fn tun_routes(s: TunnelSettingsView) -> Seq<char> {
    optional_list_line("included_routes"@, effective_included_routes(s)) + optional_list_line(
        "excluded_routes"@,
        s.excluded_routes,
    )
}

/// The table `[listener.tun]` of the client's configuration.
pub open spec fn tun_part(s: TunnelSettingsView) -> Seq<char> {
    "\n[listener.tun]\n"@ + text_line("bound_if"@, s.bound_if) + plain_line(
        "change_system_dns"@,
        bool_text(s.change_system_dns),
    ) + tun_routes(s) + plain_line("mtu_size"@, decimal(s.mtu_size as nat))
}

/// The table `[listener.socks]`, present where a SOCKS address is set.
pub open spec fn socks_part(s: TunnelSettingsView) -> Seq<char> {
    if s.socks_address.len() > 0 {
        "\n[listener.socks]\n"@ + text_line("address"@, s.socks_address) + optional_text_line(
            "username"@,
            s.socks_username,
        ) + optional_text_line("password"@, s.socks_password)
    } else {
        Seq::empty()
    }
}

/// The configuration text that the tunnel client reads, for the settings `s`.
pub open spec fn client_toml(s: TunnelSettingsView) -> Seq<char> {
    general_part(s) + endpoint_part(s) + tun_part(s) + socks_part(s)
}

/// Appends the characters of `s` to `out`.
fn put(out: &mut Vec<char>, s: &str)
    ensures
        final(out)@ == old(out)@ + s@,
{
    let tail = chars_of(s);
    extend_chars(out, &tail);
}

fn put_bool(out: &mut Vec<char>, b: bool)
    ensures
        final(out)@ == old(out)@ + bool_text(b),
{
    if b {
        put(out, "true");
    } else {
        put(out, "false");
    }
}

fn quote_all(items: &Vec<String>) -> (r: Vec<Vec<char>>)
    ensures
        texts(r@) == quoted_all(strings(items@)),
{
    let mut r: Vec<Vec<char>> = Vec::new();
    let mut i: usize = 0;
    while i < items.len()
        invariant
            i <= items.len(),
            texts(r@) == quoted_all(strings(items@.take(i as int))),
        decreases items.len() - i,
    {
        let mut q: Vec<char> = Vec::new();
        q.push('"');
        put(&mut q, items[i].as_str());
        q.push('"');
        assert(q@ == quoted(items@[i as int]@));
        let ghost before = r@;
        r.push(q);
        i += 1;
        assert(items@.take(i as int) == items@.take(i - 1).push(items@[i - 1]));
        assert(strings(items@.take(i as int)) == strings(items@.take(i - 1)).push(items@[i - 1]@));
        assert(quoted_all(strings(items@.take(i as int))) == quoted_all(
            strings(items@.take(i - 1)),
        ).push(quoted(items@[i - 1]@)));
        assert(texts(r@) == texts(before).push(q@));
    }
    assert(items@.take(items.len() as int) == items@);
    r
}

fn port_texts_of(ports: &Vec<u16>) -> (r: Vec<Vec<char>>)
    ensures
        texts(r@) == port_texts(ports@),
{
    let mut r: Vec<Vec<char>> = Vec::new();
    let mut i: usize = 0;
    while i < ports.len()
        invariant
            i <= ports.len(),
            texts(r@) == port_texts(ports@.take(i as int)),
        decreases ports.len() - i,
    {
        let mut q: Vec<char> = Vec::new();
        push_decimal(&mut q, ports[i] as u64);
        assert(q@ == decimal(ports@[i as int] as nat));
        let ghost before = r@;
        r.push(q);
        i += 1;
        assert(ports@.take(i as int) == ports@.take(i - 1).push(ports@[i - 1]));
        assert(port_texts(ports@.take(i as int)) == port_texts(ports@.take(i - 1)).push(
            decimal(ports@[i - 1] as nat),
        ));
        assert(texts(r@) == texts(before).push(q@));
    }
    assert(ports@.take(ports.len() as int) == ports@);
    r
}

/// Appends the items to `out`, with `sep` between each two neighbours.
fn put_joined(out: &mut Vec<char>, items: &Vec<Vec<char>>, sep: &str)
    ensures
        final(out)@ == old(out)@ + join(texts(items@), sep@),
{
    let mut i: usize = 0;
    assert(texts(items@.take(0)) == Seq::<Seq<char>>::empty());
    while i < items.len()
        invariant
            i <= items.len(),
            out@ == old(out)@ + join(texts(items@.take(i as int)), sep@),
        decreases items.len() - i,
    {
        let ghost done = texts(items@.take(i as int));
        if i > 0 {
            put(out, sep);
        }
        extend_chars(out, &items[i]);
        i += 1;
        assert(items@.take(i as int) == items@.take(i - 1).push(items@[i - 1]));
        assert(texts(items@.take(i as int)) == done.push(items@[i - 1]@));
        assert(done.push(items@[i - 1]@).drop_last() == done);
    }
    assert(items@.take(items.len() as int) == items@);
}

fn put_text_line(out: &mut Vec<char>, key: &str, value: &str)
    ensures
        final(out)@ == old(out)@ + text_line(key@, value@),
{
    put(out, key);
    put(out, " = \"");
    put(out, value);
    put(out, "\"\n");
}

fn put_bool_line(out: &mut Vec<char>, key: &str, value: bool)
    ensures
        final(out)@ == old(out)@ + plain_line(key@, bool_text(value)),
{
    put(out, key);
    put(out, " = ");
    put_bool(out, value);
    put(out, "\n");
}

fn put_list_line(out: &mut Vec<char>, key: &str, items: &Vec<Vec<char>>)
    ensures
        final(out)@ == old(out)@ + list_line(key@, texts(items@)),
{
    put(out, key);
    put(out, " = [");
    put_joined(out, items, ", ");
    put(out, "]\n");
}

fn put_optional_text_line(out: &mut Vec<char>, key: &str, value: &str)
    ensures
        final(out)@ == old(out)@ + optional_text_line(key@, value@),
{
    if !value.is_empty() {
        put_text_line(out, key, value);
    }
}

fn put_optional_list_line(out: &mut Vec<char>, key: &str, items: &Vec<String>)
    ensures
        final(out)@ == old(out)@ + optional_list_line(key@, strings(items@)),
{
    if items.len() > 0 {
        let q = quote_all(items);
        put_list_line(out, key, &q);
    }
}

fn put_general_head(out: &mut Vec<char>, s: &TunnelSettings)
    ensures
        final(out)@ == old(out)@ + general_head(s@),
{
    put_text_line(out, "loglevel", s.loglevel.as_str());
    put_text_line(out, "vpn_mode", s.vpn_mode.as_str());
    put_bool_line(out, "killswitch_enabled", s.killswitch_enabled);
    let ports = port_texts_of(&s.killswitch_allow_ports);
    put_list_line(out, "killswitch_allow_ports", &ports);
}

fn put_general_part(out: &mut Vec<char>, s: &TunnelSettings)
    ensures
        final(out)@ == old(out)@ + general_part(s@),
{
    put_general_head(out, s);
    put_bool_line(out, "post_quantum_group_enabled", s.post_quantum_group_enabled);
    let exclusions = quote_all(&s.exclusions);
    put_list_line(out, "exclusions", &exclusions);
    put_optional_list_line(out, "dns_upstreams", &s.dns_upstreams);
}

fn put_endpoint_identity(out: &mut Vec<char>, s: &TunnelSettings)
    ensures
        final(out)@ == old(out)@ + endpoint_identity(s@),
{
    put(out, "\n[endpoint]\n");
    put_text_line(out, "hostname", s.hostname.as_str());
    let addresses = quote_all(&s.addresses);
    put_list_line(out, "addresses", &addresses);
    put_text_line(out, "username", s.username.as_str());
    put_text_line(out, "password", s.password.as_str());
}

fn put_endpoint_options(out: &mut Vec<char>, s: &TunnelSettings)
    ensures
        final(out)@ == old(out)@ + endpoint_options(s@),
{
    put_text_line(out, "upstream_protocol", s.upstream_protocol.as_str());
    put_bool_line(out, "has_ipv6", s.has_ipv6);
    put_text_line(out, "client_random", s.client_random.as_str());
    put_bool_line(out, "skip_verification", s.skip_verification);
    put_bool_line(out, "anti_dpi", s.anti_dpi);
    put_optional_text_line(out, "certificate", s.certificate.as_str());
}

fn put_endpoint_part(out: &mut Vec<char>, s: &TunnelSettings)
    ensures
        final(out)@ == old(out)@ + endpoint_part(s@),
{
    put_endpoint_identity(out, s);
    put_endpoint_options(out, s);
}

fn put_tun_routes(out: &mut Vec<char>, s: &TunnelSettings)
    ensures
        final(out)@ == old(out)@ + tun_routes(s@),
{
    if s.included_routes.len() == 0 && str_eq(s.vpn_mode.as_str(), "general") {
        let mut routes: Vec<String> = Vec::new();
        routes.push("0.0.0.0/0".to_owned());
        routes.push("2000::/3".to_owned());
        assert(strings(routes@) == seq!["0.0.0.0/0"@, "2000::/3"@]);
        put_optional_list_line(out, "included_routes", &routes);
    } else {
        put_optional_list_line(out, "included_routes", &s.included_routes);
    }
    put_optional_list_line(out, "excluded_routes", &s.excluded_routes);
}

fn put_tun_part(out: &mut Vec<char>, s: &TunnelSettings)
    ensures
        final(out)@ == old(out)@ + tun_part(s@),
{
    put(out, "\n[listener.tun]\n");
    put_text_line(out, "bound_if", s.bound_if.as_str());
    put_bool_line(out, "change_system_dns", s.change_system_dns);
    put_tun_routes(out, s);
    put(out, "mtu_size");
    put(out, " = ");
    push_decimal(out, s.mtu_size as u64);
    put(out, "\n");
}

fn put_socks_part(out: &mut Vec<char>, s: &TunnelSettings)
    ensures
        final(out)@ == old(out)@ + socks_part(s@),
{
    if !s.socks_address.as_str().is_empty() {
        put(out, "\n[listener.socks]\n");
        put_text_line(out, "address", s.socks_address.as_str());
        put_optional_text_line(out, "username", s.socks_username.as_str());
        put_optional_text_line(out, "password", s.socks_password.as_str());
    }
}

/// Writes the configuration file of the tunnel client for `settings`.
pub fn generate_client_toml(settings: &TunnelSettings) -> (toml: String)
    ensures
        toml@ == client_toml(settings@),
{
    let mut out: Vec<char> = Vec::new();
    put_general_part(&mut out, settings);
    put_endpoint_part(&mut out, settings);
    put_tun_part(&mut out, settings);
    put_socks_part(&mut out, settings);
    string_of(&out)
}

} // verus!
