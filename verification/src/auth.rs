//! The router's challenge-response login: how the answer to a challenge is
//! computed, and what is asked of and read from the router's replies.
use crate::decimal::{decimal, push_decimal};
use crate::json::{json_quoted, json_string};
use crate::text::{chars_of, extend_chars, pieces, split_on, string_of, texts};
use md5::Digest;
use vstd::prelude::*;
use vstd::utf8::encode_utf8;

verus! {

/// The MD5 digest of a sequence of bytes.
pub uninterp spec fn md5_digest(data: Seq<u8>) -> Seq<u8>;

/// The SHA-256 digest of a sequence of bytes.
pub uninterp spec fn sha256_digest(data: Seq<u8>) -> Seq<u8>;

/// The character that writes a value below sixteen as a hexadecimal digit,
/// with small letters.
pub open spec fn hex_digit(n: int) -> char {
    if n < 10 {
        (48 + n) as char
    } else {
        (87 + n) as char
    }
}

/// The bytes in hexadecimal notation with small letters: two digits for
/// each byte, the high half first.
pub open spec fn hex_lower(data: Seq<u8>) -> Seq<char>
    decreases data.len(),
{
    if data.len() == 0 {
        Seq::empty()
    } else {
        hex_lower(data.drop_last()).push(hex_digit(data.last() as int / 16)).push(
            hex_digit(data.last() as int % 16),
        )
    }
}

pub proof fn lemma_hex_len(data: Seq<u8>)
    ensures
        hex_lower(data).len() == 2 * data.len(),
    decreases data.len(),
{
    if data.len() > 0 {
        lemma_hex_len(data.drop_last());
    }
}

/// Computes the MD5 digest with `md5::Md5::digest`. The digest has 16
/// bytes and depends on the data alone; it is named, not spelled out.
#[verifier::external_body]
fn md5_of(data: &[u8]) -> (r: Vec<u8>)
    ensures
        r@ == md5_digest(data@),
        r@.len() == 16,
{
    md5::Md5::digest(data).to_vec()
}

/// Computes the SHA-256 digest with `sha2::Sha256::digest`. The digest has
/// 32 bytes and depends on the data alone; it is named, not spelled out.
#[verifier::external_body]
fn sha256_of(data: &[u8]) -> (r: Vec<u8>)
    ensures
        r@ == sha256_digest(data@),
        r@.len() == 32,
{
    sha2::Sha256::digest(data).to_vec()
}

/// Writes bytes in hexadecimal notation with `hex::encode`: two small
/// digits for each byte, the high half first.
#[verifier::external_body]
fn hex_of(data: &[u8]) -> (r: String)
    ensures
        r@ == hex_lower(data@),
{
    hex::encode(data)
}

/// What is hashed first: the login, the realm and the password with colons
/// between them.
pub open spec fn credentials_text(login: Seq<char>, realm: Seq<char>, password: Seq<char>) -> Seq<
    char,
> {
    login + ":"@ + realm + ":"@ + password
}

pub fn credentials(login: &str, realm: &str, password: &str) -> (r: String)
    ensures
        r@ == credentials_text(login@, realm@, password@),
{
    let mut out = chars_of(login);
    let colon = chars_of(":");
    extend_chars(&mut out, &colon);
    let b = chars_of(realm);
    extend_chars(&mut out, &b);
    extend_chars(&mut out, &colon);
    let c = chars_of(password);
    extend_chars(&mut out, &c);
    string_of(&out)
}

/// What is hashed second: the challenge followed by the first digest in
/// hexadecimal notation.
pub fn challenge_input(challenge: &str, first_digest: &[u8]) -> (r: String)
    ensures
        r@ == challenge@ + hex_lower(first_digest@),
{
    let mut out = chars_of(challenge);
    let hexed = hex_of(first_digest);
    let h = chars_of(hexed.as_str());
    extend_chars(&mut out, &h);
    string_of(&out)
}

/// The answer to a challenge: the SHA-256 digest, in hexadecimal notation,
/// of the challenge followed by the MD5 digest, in hexadecimal notation,
/// of login, realm and password.
pub open spec fn response_text(
    login: Seq<char>,
    realm: Seq<char>,
    password: Seq<char>,
    challenge: Seq<char>,
) -> Seq<char> {
    hex_lower(
        sha256_digest(
            encode_utf8(
                challenge + hex_lower(
                    md5_digest(encode_utf8(credentials_text(login, realm, password))),
                ),
            ),
        ),
    )
}

/// Computes the answer to the router's challenge.
pub fn compute_response(login: &str, realm: &str, password: &str, challenge: &str) -> (r: String)
    ensures
        r@ == response_text(login@, realm@, password@, challenge@),
        r@.len() == 64,
{
    let md5_input = credentials(login, realm, password);
    let md5_hash = md5_of(md5_input.as_str().as_bytes());
    let sha_input = challenge_input(challenge, md5_hash.as_slice());
    let sha_hash = sha256_of(sha_input.as_str().as_bytes());
    proof {
        lemma_hex_len(sha_hash@);
    }
    hex_of(sha_hash.as_slice())
}

/// The address of the router's login service.
pub open spec fn auth_url_text(host: Seq<char>, port: u16) -> Seq<char> {
    "http://"@ + host + ":"@ + decimal(port as nat) + "/auth"@
}

pub fn auth_url(router_host: &str, router_port: u16) -> (r: String)
    ensures
        r@ == auth_url_text(router_host@, router_port),
{
    let mut out = chars_of("http://");
    let h = chars_of(router_host);
    extend_chars(&mut out, &h);
    let colon = chars_of(":");
    extend_chars(&mut out, &colon);
    push_decimal(&mut out, router_port as u64);
    let tail = chars_of("/auth");
    extend_chars(&mut out, &tail);
    string_of(&out)
}

/// What came back when the router was asked for a challenge: whether the
/// reply counted as an error for its status, the status, and the headers
/// that matter.
#[derive(Debug)]
pub struct ChallengeReply {
    pub error_status: bool,
    pub status: u16,
    pub realm: Option<String>,
    pub challenge: Option<String>,
    pub set_cookie: Option<String>,
}

/// A challenge of the router, with the cookie of the session it belongs
/// to.
#[derive(Debug)]
pub struct Challenge {
    pub realm: String,
    pub challenge: String,
    pub cookie: String,
}

pub struct ChallengeView {
    pub realm: Seq<char>,
    pub challenge: Seq<char>,
    pub cookie: Seq<char>,
}

impl View for Challenge {
    type V = ChallengeView;

    open spec fn view(&self) -> ChallengeView {
        ChallengeView { realm: self.realm@, challenge: self.challenge@, cookie: self.cookie@ }
    }
}

/// The cookie that a `Set-Cookie` header sets: what stands before its
/// first semicolon; nothing without the header.
pub open spec fn cookie_of(set_cookie: Option<String>) -> Seq<char> {
    match set_cookie {
        Some(h) => pieces(h@, ';')[0],
        None => Seq::empty(),
    }
}

/// The challenge that a reply holds. The reply must have come without an
/// error status, or with the status 401, and name a realm and a challenge
/// that are not empty.
pub open spec fn challenge_of(reply: Option<ChallengeReply>) -> Option<ChallengeView> {
    match reply {
        None => None,
        Some(r) => if r.error_status && r.status != 401 {
            None
        } else if r.realm is None || r.challenge is None {
            None
        } else if r.realm->0@.len() == 0 || r.challenge->0@.len() == 0 {
            None
        } else {
            Some(
                ChallengeView {
                    realm: r.realm->0@,
                    challenge: r.challenge->0@,
                    cookie: cookie_of(r.set_cookie),
                },
            )
        },
    }
}

pub open spec fn option_challenge(r: Option<Challenge>) -> Option<ChallengeView> {
    match r {
        Some(c) => Some(c@),
        None => None,
    }
}

/// Reads the challenge out of the router's reply, if one came.
pub fn fetch_challenge(reply: &Option<ChallengeReply>) -> (r: Option<Challenge>)
    ensures
        option_challenge(r) == challenge_of(*reply),
{
    match reply {
        None => None,
        Some(rep) => {
            if rep.error_status && rep.status != 401 {
                return None;
            }
            match (&rep.realm, &rep.challenge) {
                (Some(realm), Some(challenge)) => {
                    if realm.as_str().is_empty() || challenge.as_str().is_empty() {
                        return None;
                    }
                    let cookie = match &rep.set_cookie {
                        Some(h) => {
                            let raw = chars_of(h.as_str());
                            let parts = split_on(&raw, ';');
                            assert(texts(parts@)[0] == parts@[0]@);
                            string_of(&parts[0])
                        },
                        None => String::new(),
                    };
                    Some(Challenge { realm: realm.clone(), challenge: challenge.clone(), cookie })
                },
                _ => None,
            }
        },
    }
}

/// The login request to post to the router.
#[derive(Debug)]
pub struct AuthRequest {
    pub url: String,
    pub content_type: String,
    pub cookie: Option<String>,
    pub body: String,
}

pub struct AuthRequestView {
    pub url: Seq<char>,
    pub content_type: Seq<char>,
    pub cookie: Option<Seq<char>>,
    pub body: Seq<char>,
}

impl View for AuthRequest {
    type V = AuthRequestView;

    open spec fn view(&self) -> AuthRequestView {
        AuthRequestView {
            url: self.url@,
            content_type: self.content_type@,
            cookie: match self.cookie {
                Some(c) => Some(c@),
                None => None,
            },
            body: self.body@,
        }
    }
}

/// The body of the login request: a JSON object of the login and the
/// answer to the challenge.
pub open spec fn auth_body(login: Seq<char>, response: Seq<char>) -> Seq<char> {
    "{\"login\":"@ + json_quoted(login) + ",\"password\":"@ + json_quoted(response) + "}"@
}

pub fn auth_body_text(login_json: &str, response_json: &str) -> (r: String)
    ensures
        r@ == "{\"login\":"@ + login_json@ + ",\"password\":"@ + response_json@ + "}"@,
{
    let mut out = chars_of("{\"login\":");
    let a = chars_of(login_json);
    extend_chars(&mut out, &a);
    let mid = chars_of(",\"password\":");
    extend_chars(&mut out, &mid);
    let b = chars_of(response_json);
    extend_chars(&mut out, &b);
    let close = chars_of("}");
    extend_chars(&mut out, &close);
    string_of(&out)
}

/// The login request that answers a challenge.
pub open spec fn auth_request(
    host: Seq<char>,
    port: u16,
    login: Seq<char>,
    password: Seq<char>,
    c: ChallengeView,
) -> AuthRequestView {
    AuthRequestView {
        url: auth_url_text(host, port),
        content_type: "application/json"@,
        cookie: if c.cookie.len() > 0 {
            Some(c.cookie)
        } else {
            None
        },
        body: auth_body(login, response_text(login, c.realm, password, c.challenge)),
    }
}

pub open spec fn option_request(r: Option<AuthRequest>) -> Option<AuthRequestView> {
    match r {
        Some(q) => Some(q@),
        None => None,
    }
}

/// Makes the login request to post to the router, from the reply to the
/// request for a challenge. Without a usable challenge the login has
/// failed and nothing is to be posted. Whether the login succeeded is told
/// by [`submit_auth`] from the reply to the request made here.
pub fn authenticate(
    router_host: &str,
    router_port: u16,
    login: &str,
    password: &str,
    reply: &Option<ChallengeReply>,
) -> (r: Option<AuthRequest>)
    ensures
        option_request(r) == match challenge_of(*reply) {
            Some(c) => Some(auth_request(router_host@, router_port, login@, password@, c)),
            None => None,
        },
{
    match fetch_challenge(reply) {
        None => None,
        Some(c) => {
            let response = compute_response(
                login,
                c.realm.as_str(),
                password,
                c.challenge.as_str(),
            );
            let login_json = json_string(login);
            let response_json = json_string(response.as_str());
            let cookie = if c.cookie.as_str().is_empty() {
                None
            } else {
                Some(c.cookie.clone())
            };
            Some(
                AuthRequest {
                    url: auth_url(router_host, router_port),
                    content_type: "application/json".to_owned(),
                    cookie,
                    body: auth_body_text(login_json.as_str(), response_json.as_str()),
                },
            )
        },
    }
}

/// How a request to the router ended.
#[derive(Clone, Copy, PartialEq, Eq, Debug, Structural)]
pub enum HttpOutcome {
    /// A reply came that does not count as an error.
    Reply(u16),
    /// A reply came whose status counts as an error.
    ErrorStatus(u16),
    /// No reply came.
    Failed,
}

/// Whether the router accepted the login: it replied, without an error,
/// with the status 200 or 302.
pub open spec fn login_accepted(outcome: HttpOutcome) -> bool {
    outcome == HttpOutcome::Reply(200) || outcome == HttpOutcome::Reply(302)
}

/// Tells from the reply to the login request whether the login succeeded.
pub fn submit_auth(outcome: HttpOutcome) -> (r: bool)
    ensures
        r == login_accepted(outcome),
{
    match outcome {
        HttpOutcome::Reply(code) => code == 200 || code == 302,
        _ => false,
    }
}

/// The address of a network interface.
#[derive(Debug)]
pub struct InterfaceAddress {
    pub name: String,
    pub ipv4: Option<[u8; 4]>,
}

/// The address of the router where none can be found.
pub open spec fn fallback_host() -> Seq<char> {
    "192.168.1.1"@
}

/// How an IPv4 address is written.
pub open spec fn dotted(a: [u8; 4]) -> Seq<char> {
    decimal(a[0] as nat) + "."@ + decimal(a[1] as nat) + "."@ + decimal(a[2] as nat) + "."@
        + decimal(a[3] as nat)
}

/// Whether an interface shows the router's address on the LAN: it is one
/// of the LAN bridges and has an IPv4 address that is neither a loopback
/// address nor the unspecified one.
pub open spec fn shows_lan_address(i: InterfaceAddress) -> bool {
    &&& (i.name@ == "br0"@ || i.name@ == "br-lan"@)
    &&& i.ipv4 is Some
    &&& i.ipv4->0[0] != 127
    &&& !(i.ipv4->0[0] == 0 && i.ipv4->0[1] == 0 && i.ipv4->0[2] == 0 && i.ipv4->0[3] == 0)
}

/// The router's address: that of the first interface, from index `k` on,
/// that shows it, else the fallback.
pub open spec fn lan_host(all: Seq<InterfaceAddress>, k: int) -> Seq<char>
    decreases all.len() - k,
{
    if k >= all.len() {
        fallback_host()
    } else if shows_lan_address(all[k]) {
        dotted(all[k].ipv4->0)
    } else {
        lan_host(all, k + 1)
    }
}

fn dotted_text(a: &[u8; 4]) -> (r: String)
    ensures
        r@ == dotted(*a),
{
    let mut out: Vec<char> = Vec::new();
    let dot = chars_of(".");
    push_decimal(&mut out, a[0] as u64);
    extend_chars(&mut out, &dot);
    push_decimal(&mut out, a[1] as u64);
    extend_chars(&mut out, &dot);
    push_decimal(&mut out, a[2] as u64);
    extend_chars(&mut out, &dot);
    push_decimal(&mut out, a[3] as u64);
    assert(out@ =~= dotted(*a));
    string_of(&out)
}

/// Finds the router's address on the LAN among the addresses of the
/// interfaces.
pub fn detect_ndm_host(interfaces: &Vec<InterfaceAddress>) -> (r: String)
    ensures
        r@ == lan_host(interfaces@, 0),
{
    let mut i: usize = 0;
    while i < interfaces.len()
        invariant
            i <= interfaces.len(),
            lan_host(interfaces@, 0) == lan_host(interfaces@, i as int),
        decreases interfaces.len() - i,
    {
        let name = chars_of(interfaces[i].name.as_str());
        if crate::text::chars_are(&name, "br0") || crate::text::chars_are(&name, "br-lan") {
            match &interfaces[i].ipv4 {
                Some(a) => {
                    if a[0] != 127 && !(a[0] == 0 && a[1] == 0 && a[2] == 0 && a[3] == 0) {
                        return dotted_text(a);
                    }
                },
                None => {},
            }
        }
        i += 1;
    }
    "192.168.1.1".to_owned()
}

} // verus!
