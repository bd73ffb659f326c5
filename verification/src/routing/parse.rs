//! What the routing controller reads out of the text that commands print.
use crate::decimal::{decimal, parse_unsigned, parse_unsigned_chars, push_decimal};
use crate::routing::command::{ServerIp, ServerIpView};
use crate::routing::outcome::text_result;
use crate::text::{
    chars_are, chars_begin, chars_of, has_prefix, last_index_in, last_index_of, lines, pieces,
    position, position_of, slice_of, split_lines, split_on, split_words, string_of,
    strip_prefix_chars, texts, trim, trim_chars, trim_start, trim_start_chars, without_prefix,
    words,
};
use vstd::prelude::*;

verus! {

/// The text that an optional string holds.
pub open spec fn option_text(r: Option<String>) -> Option<Seq<char>> {
    match r {
        Some(s) => Some(s@),
        None => None,
    }
}

/// Whether a device name is that of the loopback, a bridge, a LAN port, a
/// VLAN or a wireless interface.
pub open spec fn is_lan_like(dev: Seq<char>) -> bool {
    ||| dev == "lo"@
    ||| has_prefix(dev, "br"@)
    ||| has_prefix(dev, "lan"@)
    ||| has_prefix(dev, "vlan"@)
    ||| has_prefix(dev, "wl"@)
}

/// Whether a device can be the upstream interface: it is neither the tunnel
/// device under either of its names nor a LAN-side device.
pub open spec fn is_upstream(dev: Seq<char>) -> bool {
    dev != "opkgtun0"@ && dev != "tun0"@ && !is_lan_like(dev)
}

/// The upstream device that one line of the routing table names: the line
/// begins, after whitespace, with `default` and a space, and the word behind
/// its first `dev` is an upstream device.
pub open spec fn line_wan(line: Seq<char>) -> Option<Seq<char>> {
    let parts = words(line);
    if !has_prefix(trim_start(line), "default "@) {
        None
    } else {
        match position(parts, "dev"@) {
            Some(i) => if i + 1 < parts.len() && is_upstream(parts[i + 1]) {
                Some(parts[i + 1])
            } else {
                None
            },
            None => None,
        }
    }
}

/// The upstream device of the first line, from line `i` on, that names one.
pub open spec fn first_wan(all: Seq<Seq<char>>, i: int) -> Option<Seq<char>>
    decreases all.len() - i,
{
    if i >= all.len() {
        None
    } else if line_wan(all[i]) is Some {
        line_wan(all[i])
    } else {
        first_wan(all, i + 1)
    }
}

/// The upstream device that the listing of default routes names, if the
/// listing could be had.
pub open spec fn wan_of(table: Result<Seq<char>, Seq<char>>) -> Option<Seq<char>> {
    match table {
        Ok(out) => first_wan(lines(out), 0),
        Err(_) => None,
    }
}

fn upstream(dev: &Vec<char>) -> (r: bool)
    ensures
        r == is_upstream(dev@),
{
    !chars_are(dev, "opkgtun0") && !chars_are(dev, "tun0") && !chars_are(dev, "lo")
        && !chars_begin(dev, "br") && !chars_begin(dev, "lan") && !chars_begin(dev, "vlan")
        && !chars_begin(dev, "wl")
}

fn wan_of_line(line: &Vec<char>) -> (r: Option<String>)
    ensures
        option_text(r) == line_wan(line@),
{
    let t = trim_start_chars(line);
    if !chars_begin(&t, "default ") {
        return None;
    }
    let parts = split_words(line);
    match position_of(&parts, "dev") {
        Some(i) => {
            if i + 1 < parts.len() && upstream(&parts[i + 1]) {
                assert(texts(parts@)[i + 1] == parts@[i + 1]@);
                Some(string_of(&parts[i + 1]))
            } else {
                None
            }
        },
        None => None,
    }
}

fn wan_in(out: &str) -> (r: Option<String>)
    ensures
        option_text(r) == first_wan(lines(out@), 0),
{
    let raw = chars_of(out);
    let all = split_lines(&raw);
    let mut i: usize = 0;
    while i < all.len()
        invariant
            i <= all.len(),
            texts(all@) == lines(out@),
            first_wan(lines(out@), 0) == first_wan(lines(out@), i as int),
        decreases all.len() - i,
    {
        assert(texts(all@)[i as int] == all@[i as int]@);
        match wan_of_line(&all[i]) {
            Some(dev) => {
                return Some(dev);
            },
            None => {},
        }
        i += 1;
    }
    None
}

/// Finds the upstream interface in the outcome of listing the default
/// routes.
pub fn current_wan_interface(route_table: &Result<String, String>) -> (r: Option<String>)
    ensures
        option_text(r) == wan_of(text_result(*route_table)),
{
    match route_table {
        Err(_) => None,
        Ok(out) => wan_in(out.as_str()),
    }
}

/// The value of one octet of a netmask of which `bits` bits, counted from
/// the top, are set.
pub open spec fn octet_value(bits: int) -> nat {
    if bits <= 0 {
        0
    } else if bits == 1 {
        128
    } else if bits == 2 {
        192
    } else if bits == 3 {
        224
    } else if bits == 4 {
        240
    } else if bits == 5 {
        248
    } else if bits == 6 {
        252
    } else if bits == 7 {
        254
    } else {
        255
    }
}

/// The netmask of a prefix length in dotted notation: the leading `prefix`
/// bits of 32 are set; a length above 32 counts as 32.
pub open spec fn netmask(prefix: u8) -> Seq<char> {
    decimal(octet_value(prefix as int)) + "."@ + decimal(octet_value(prefix - 8)) + "."@ + decimal(
        octet_value(prefix - 16),
    ) + "."@ + decimal(octet_value(prefix - 24))
}

fn octet_of(bits: i32) -> (r: u64)
    ensures
        r == octet_value(bits as int),
{
    if bits <= 0 {
        0
    } else if bits == 1 {
        128
    } else if bits == 2 {
        192
    } else if bits == 3 {
        224
    } else if bits == 4 {
        240
    } else if bits == 5 {
        248
    } else if bits == 6 {
        252
    } else if bits == 7 {
        254
    } else {
        255
    }
}

fn netmask_chars(prefix: u8) -> (r: Vec<char>)
    ensures
        r@ == netmask(prefix),
{
    let p: i32 = prefix as i32;
    let mut out: Vec<char> = Vec::new();
    let dot = chars_of(".");
    push_decimal(&mut out, octet_of(p));
    crate::text::extend_chars(&mut out, &dot);
    push_decimal(&mut out, octet_of(p - 8));
    crate::text::extend_chars(&mut out, &dot);
    push_decimal(&mut out, octet_of(p - 16));
    crate::text::extend_chars(&mut out, &dot);
    push_decimal(&mut out, octet_of(p - 24));
    assert(out@ =~= netmask(prefix));
    out
}

/// Writes the netmask of a prefix length in dotted notation.
pub fn prefix_to_netmask(prefix: u8) -> (r: String)
    ensures
        r@ == netmask(prefix),
{
    let out = netmask_chars(prefix);
    string_of(&out)
}

/// The prefix length that a text names: a number up to 255, else 32.
pub open spec fn prefix_or_full(s: Seq<char>) -> u8 {
    match parse_unsigned(s, 255) {
        Some(n) => n as u8,
        None => 32,
    }
}

/// The address and netmask that an address in the notation
/// `address/length` names; without a length the address is a host's.
pub open spec fn cidr_parts(cidr: Seq<char>) -> (Seq<char>, Seq<char>) {
    let p = pieces(cidr, '/');
    let prefix = if p.len() >= 2 {
        prefix_or_full(p[1])
    } else {
        32u8
    };
    (p[0], netmask(prefix))
}

/// What one line of an address listing says: nothing where it holds no
/// word `inet`; else the address and netmask behind the first `inet`,
/// unless the line ends there.
pub open spec fn line_inet(line: Seq<char>) -> Option<Option<(Seq<char>, Seq<char>)>> {
    let parts = words(line);
    match position(parts, "inet"@) {
        None => None,
        Some(i) => if i + 1 < parts.len() {
            Some(Some(cidr_parts(parts[i + 1])))
        } else {
            Some(None)
        },
    }
}

/// What the first line, from line `i` on, that holds the word `inet` says.
pub open spec fn first_inet(all: Seq<Seq<char>>, i: int) -> Option<(Seq<char>, Seq<char>)>
    decreases all.len() - i,
{
    if i >= all.len() {
        None
    } else {
        match line_inet(all[i]) {
            Some(found) => found,
            None => first_inet(all, i + 1),
        }
    }
}

/// The IPv4 address and netmask of the tunnel device that the listing of
/// its addresses shows, if the listing could be had.
pub open spec fn ip_mask_of(listing: Result<Seq<char>, Seq<char>>) -> Option<
    (Seq<char>, Seq<char>),
> {
    match listing {
        Ok(out) => first_inet(lines(out), 0),
        Err(_) => None,
    }
}

/// The texts that an optional pair of strings holds.
pub open spec fn option_pair_text(r: Option<(String, String)>) -> Option<(Seq<char>, Seq<char>)> {
    match r {
        Some((a, b)) => Some((a@, b@)),
        None => None,
    }
}

fn cidr_parts_of(cidr: &Vec<char>) -> (r: (String, String))
    ensures
        (r.0@, r.1@) == cidr_parts(cidr@),
{
    let p = split_on(cidr, '/');
    assert(texts(p@)[0] == p@[0]@);
    let prefix: u8 = if p.len() >= 2 {
        assert(texts(p@)[1] == p@[1]@);
        match parse_unsigned_chars(&p[1], 255) {
            Some(n) => n as u8,
            None => 32,
        }
    } else {
        32
    };
    (string_of(&p[0]), prefix_to_netmask(prefix))
}

fn ip_mask_in(out: &str) -> (r: Option<(String, String)>)
    ensures
        option_pair_text(r) == first_inet(lines(out@), 0),
{
    let raw = chars_of(out);
    let all = split_lines(&raw);
    let mut i: usize = 0;
    while i < all.len()
        invariant
            i <= all.len(),
            texts(all@) == lines(out@),
            first_inet(lines(out@), 0) == first_inet(lines(out@), i as int),
        decreases all.len() - i,
    {
        assert(texts(all@)[i as int] == all@[i as int]@);
        let parts = split_words(&all[i]);
        match position_of(&parts, "inet") {
            Some(k) => {
                if k + 1 < parts.len() {
                    assert(texts(parts@)[k + 1] == parts@[k + 1]@);
                    return Some(cidr_parts_of(&parts[k + 1]));
                } else {
                    return None;
                }
            },
            None => {},
        }
        i += 1;
    }
    None
}

/// Reads the address and netmask of the tunnel device out of the outcome of
/// listing its addresses.
pub fn get_tun_ip_mask(listing: &Result<String, String>) -> (r: Option<(String, String)>)
    ensures
        option_pair_text(r) == ip_mask_of(text_result(*listing)),
{
    match listing {
        Err(_) => None,
        Ok(out) => ip_mask_in(out.as_str()),
    }
}

/// The MTU of the tunnel device that the listing of the link shows: the
/// number behind the first word `mtu`, where it fits 16 bits.
pub open spec fn mtu_of(listing: Result<Seq<char>, Seq<char>>) -> Option<u16> {
    match listing {
        Err(_) => None,
        Ok(out) => {
            let parts = words(out);
            match position(parts, "mtu"@) {
                Some(i) => if i + 1 < parts.len() {
                    match parse_unsigned(parts[i + 1], 65535) {
                        Some(n) => Some(n as u16),
                        None => None,
                    }
                } else {
                    None
                },
                None => None,
            }
        },
    }
}

/// Reads the MTU of the tunnel device out of the outcome of listing the
/// link.
pub fn get_tun_mtu(listing: &Result<String, String>) -> (r: Option<u16>)
    ensures
        r == mtu_of(text_result(*listing)),
{
    match listing {
        Err(_) => None,
        Ok(out) => {
            let raw = chars_of(out.as_str());
            let parts = split_words(&raw);
            match position_of(&parts, "mtu") {
                Some(i) => {
                    if i + 1 < parts.len() {
                        assert(texts(parts@)[i + 1] == parts@[i + 1]@);
                        match parse_unsigned_chars(&parts[i + 1], 65535) {
                            Some(n) => Some(n as u16),
                            None => None,
                        }
                    } else {
                        None
                    }
                },
                None => None,
            }
        },
    }
}

/// What one line of the interface's description says of its index: nothing
/// where the trimmed line does not begin with `index:`; else the number
/// behind it, if one stands there.
pub open spec fn line_index(line: Seq<char>) -> Option<Option<u32>> {
    match without_prefix(trim(line), "index:"@) {
        None => None,
        Some(rest) => match parse_unsigned(trim(rest), u32::MAX as nat) {
            Some(n) => Some(Some(n as u32)),
            None => Some(None),
        },
    }
}

pub open spec fn first_index(all: Seq<Seq<char>>, i: int) -> Option<u32>
    decreases all.len() - i,
{
    if i >= all.len() {
        None
    } else {
        match line_index(all[i]) {
            Some(found) => found,
            None => first_index(all, i + 1),
        }
    }
}

/// The index of the kernel device to which the management layer has bound
/// its interface, as its description shows it on the first line that
/// begins with `index:`.
pub open spec fn interface_index(output: Seq<char>) -> Option<u32> {
    first_index(lines(output), 0)
}

/// Reads the index of the bound kernel device out of the description that
/// the control tool gives of the interface.
pub fn parse_ndm_interface_index(output: &str) -> (r: Option<u32>)
    ensures
        r == interface_index(output@),
{
    let raw = chars_of(output);
    let all = split_lines(&raw);
    let mut i: usize = 0;
    while i < all.len()
        invariant
            i <= all.len(),
            texts(all@) == lines(output@),
            first_index(lines(output@), 0) == first_index(lines(output@), i as int),
        decreases all.len() - i,
    {
        assert(texts(all@)[i as int] == all@[i as int]@);
        let trimmed = trim_chars(&all[i]);
        match strip_prefix_chars(&trimmed, "index:") {
            Some(rest) => {
                let number = trim_chars(&rest);
                return match parse_unsigned_chars(&number, 0xFFFF_FFFF) {
                    Some(n) => Some(n as u32),
                    None => None,
                };
            },
            None => {},
        }
        i += 1;
    }
    None
}

/// Whether the word `a` stands at index `i` with the word `b` just behind.
pub open spec fn adjacent_at(parts: Seq<Seq<char>>, a: Seq<char>, b: Seq<char>, i: int) -> bool {
    0 <= i && i + 1 < parts.len() && parts[i] == a && parts[i + 1] == b
}

/// Whether a line routes through the tunnel device: among its words, `dev`
/// stands just before the device's name.
pub open spec fn line_via_target(line: Seq<char>) -> bool {
    exists|i: int| adjacent_at(words(line), "dev"@, "opkgtun0"@, i)
}

/// Whether the listing of default routes shows one through the tunnel
/// device.
pub open spec fn route_visible(out: Seq<char>) -> bool {
    exists|l: int| 0 <= l < lines(out).len() && line_via_target(#[trigger] lines(out)[l])
}

fn via_target(line: &Vec<char>) -> (r: bool)
    ensures
        r == line_via_target(line@),
{
    let parts = split_words(line);
    if parts.len() < 2 {
        return false;
    }
    let mut i: usize = 0;
    while i + 1 < parts.len()
        invariant
            i + 1 <= parts.len(),
            texts(parts@) == words(line@),
            forall|k: int| 0 <= k < i ==> !adjacent_at(words(line@), "dev"@, "opkgtun0"@, k),
        decreases parts.len() - i,
    {
        assert(texts(parts@)[i as int] == parts@[i as int]@);
        assert(texts(parts@)[i + 1] == parts@[i + 1]@);
        if chars_are(&parts[i], "dev") && chars_are(&parts[i + 1], "opkgtun0") {
            assert(adjacent_at(words(line@), "dev"@, "opkgtun0"@, i as int));
            return true;
        }
        i += 1;
    }
    false
}

/// Tells whether the listing of default routes shows one through the
/// tunnel device.
pub fn default_route_via_target(out: &str) -> (r: bool)
    ensures
        r == route_visible(out@),
{
    let raw = chars_of(out);
    let all = split_lines(&raw);
    let mut l: usize = 0;
    while l < all.len()
        invariant
            l <= all.len(),
            texts(all@) == lines(out@),
            forall|k: int| 0 <= k < l ==> !line_via_target(#[trigger] lines(out@)[k]),
        decreases all.len() - l,
    {
        assert(texts(all@)[l as int] == all@[l as int]@);
        if via_target(&all[l]) {
            return true;
        }
        l += 1;
    }
    false
}

/// The host part of an endpoint in the notation `host:port`: what stands
/// before the last colon.
pub open spec fn host_part(raw: Seq<char>) -> Option<Seq<char>> {
    match last_index_of(raw, ':') {
        Some(i) => Some(raw.take(i)),
        None => None,
    }
}

pub fn endpoint_host(raw: &str) -> (r: Option<String>)
    ensures
        option_text(r) == host_part(raw@),
{
    let v = chars_of(raw);
    match last_index_in(&v, ':') {
        Some(i) => {
            let host = slice_of(&v, 0, i);
            Some(string_of(&host))
        },
        None => None,
    }
}

/// The readings of one endpoint as an address: the whole text as a socket
/// address, the whole text as an address, and its host part as an address.
#[derive(Debug)]
pub struct EndpointReadings {
    pub as_socket: Option<ServerIp>,
    pub as_address: Option<ServerIp>,
    pub host_as_address: Option<ServerIp>,
}

pub open spec fn option_ip(r: Option<ServerIp>) -> Option<ServerIpView> {
    match r {
        Some(ip) => Some(ip@),
        None => None,
    }
}

/// The address of an endpoint: the first of its three readings that gave
/// one.
pub open spec fn endpoint_ip(e: EndpointReadings) -> Option<ServerIpView> {
    if e.as_socket is Some {
        option_ip(e.as_socket)
    } else if e.as_address is Some {
        option_ip(e.as_address)
    } else {
        option_ip(e.host_as_address)
    }
}

pub fn parse_endpoint_ip(e: &EndpointReadings) -> (r: Option<ServerIp>)
    ensures
        option_ip(r) == endpoint_ip(*e),
{
    match &e.as_socket {
        Some(ip) => Some(ip.duplicate()),
        None => match &e.as_address {
            Some(ip) => Some(ip.duplicate()),
            None => match &e.host_as_address {
                Some(ip) => Some(ip.duplicate()),
                None => None,
            },
        },
    }
}

/// The addresses of those endpoints that have one, in order.
pub open spec fn endpoint_ips(all: Seq<EndpointReadings>) -> Seq<ServerIpView>
    decreases all.len(),
{
    if all.len() == 0 {
        Seq::empty()
    } else {
        match endpoint_ip(all.last()) {
            Some(ip) => endpoint_ips(all.drop_last()).push(ip),
            None => endpoint_ips(all.drop_last()),
        }
    }
}

pub fn extract_server_ips(all: &Vec<EndpointReadings>) -> (r: Vec<ServerIp>)
    ensures
        crate::routing::command::server_ips(r@) == endpoint_ips(all@),
{
    let mut r: Vec<ServerIp> = Vec::new();
    let mut i: usize = 0;
    assert(crate::routing::command::server_ips(r@) =~= endpoint_ips(all@.take(0)));
    while i < all.len()
        invariant
            i <= all.len(),
            crate::routing::command::server_ips(r@) == endpoint_ips(all@.take(i as int)),
        decreases all.len() - i,
    {
        let ghost before = r@;
        assert(all@.take(i + 1).drop_last() == all@.take(i as int));
        match parse_endpoint_ip(&all[i]) {
            Some(ip) => {
                r.push(ip);
                assert(crate::routing::command::server_ips(r@)
                    =~= crate::routing::command::server_ips(before).push(ip@));
            },
            None => {},
        }
        i += 1;
    }
    assert(all@.take(all.len() as int) == all@);
    r
}

} // verus!
