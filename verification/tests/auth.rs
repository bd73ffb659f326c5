use trusttunnel_keenetic::auth::{
    auth_url, authenticate, challenge_input, compute_response, credentials, detect_ndm_host,
    fetch_challenge, submit_auth, ChallengeReply, HttpOutcome, InterfaceAddress,
};

#[test]
fn test_compute_response() {
    let resp = compute_response("admin", "Keenetic", "12345", "abc123");
    assert!(!resp.is_empty());
    assert_eq!(resp.len(), 64);
}

#[test]
fn compute_response_known_value() {
    assert_eq!(
        compute_response("admin", "Keenetic", "12345", "abc123"),
        "3e47a9e836c84841251608a045d284a76007a28adca8f7fadf3b99352c098746"
    );
    assert_eq!(
        compute_response("user", "realm", "päss", "c"),
        "846fafb1d47517c3198e13650fac4c41a528372fc2c00cf34c24f34cc6c562aa"
    );
}

#[test]
fn credentials_are_joined_by_colons() {
    assert_eq!(credentials("admin", "Keenetic", "12345"), "admin:Keenetic:12345");
    assert_eq!(credentials("", "", ""), "::");
}

#[test]
fn challenge_input_appends_hex_of_digest() {
    assert_eq!(challenge_input("abc", &[0x00, 0x0f, 0xa5, 0xff]), "abc000fa5ff");
    assert_eq!(challenge_input("", &[]), "");
}

#[test]
fn auth_url_names_host_and_port() {
    assert_eq!(auth_url("192.168.1.1", 80), "http://192.168.1.1:80/auth");
    assert_eq!(auth_url("router", 65535), "http://router:65535/auth");
}

fn reply(error_status: bool, status: u16, realm: Option<&str>, challenge: Option<&str>, cookie: Option<&str>) -> Option<ChallengeReply> {
    Some(ChallengeReply {
        error_status,
        status,
        realm: realm.map(String::from),
        challenge: challenge.map(String::from),
        set_cookie: cookie.map(String::from),
    })
}

#[test]
fn fetch_challenge_reads_headers() {
    let c = fetch_challenge(&reply(true, 401, Some("Keenetic"), Some("abc123"), Some("sid=42; Path=/; HttpOnly"))).unwrap();
    assert_eq!(c.realm, "Keenetic");
    assert_eq!(c.challenge, "abc123");
    assert_eq!(c.cookie, "sid=42");
    let c = fetch_challenge(&reply(false, 200, Some("r"), Some("c"), None)).unwrap();
    assert_eq!(c.cookie, "");
}

#[test]
fn fetch_challenge_rejects_unusable_replies() {
    assert!(fetch_challenge(&None).is_none());
    assert!(fetch_challenge(&reply(true, 500, Some("r"), Some("c"), None)).is_none());
    assert!(fetch_challenge(&reply(true, 401, None, Some("c"), None)).is_none());
    assert!(fetch_challenge(&reply(true, 401, Some("r"), None, None)).is_none());
    assert!(fetch_challenge(&reply(true, 401, Some(""), Some("c"), None)).is_none());
    assert!(fetch_challenge(&reply(true, 401, Some("r"), Some(""), None)).is_none());
}

#[test]
fn authenticate_builds_the_login_request() {
    let r = reply(true, 401, Some("Keenetic"), Some("abc123"), Some("sid=42; Path=/"));
    let req = authenticate("192.168.1.1", 80, "admin", "12345", &r).unwrap();
    assert_eq!(req.url, "http://192.168.1.1:80/auth");
    assert_eq!(req.content_type, "application/json");
    assert_eq!(req.cookie.as_deref(), Some("sid=42"));
    assert_eq!(
        req.body,
        "{\"login\":\"admin\",\"password\":\"3e47a9e836c84841251608a045d284a76007a28adca8f7fadf3b99352c098746\"}"
    );
    let parsed: serde_json::Value = serde_json::from_str(&req.body).unwrap();
    assert_eq!(parsed.get("login").and_then(|v| v.as_str()), Some("admin"));
}

#[test]
fn authenticate_escapes_the_login() {
    let r = reply(false, 200, Some("r"), Some("c"), None);
    let req = authenticate("h", 8080, "a\"b\\c", "p", &r).unwrap();
    assert!(req.body.starts_with("{\"login\":\"a\\\"b\\\\c\",\"password\":\""));
    assert_eq!(req.cookie, None);
    let parsed: serde_json::Value = serde_json::from_str(&req.body).unwrap();
    assert_eq!(parsed.get("login").and_then(|v| v.as_str()), Some("a\"b\\c"));
}

#[test]
fn authenticate_fails_without_challenge() {
    assert!(authenticate("h", 80, "a", "b", &None).is_none());
}

#[test]
fn submit_auth_accepts_200_and_302_only() {
    assert!(submit_auth(HttpOutcome::Reply(200)));
    assert!(submit_auth(HttpOutcome::Reply(302)));
    assert!(!submit_auth(HttpOutcome::Reply(204)));
    assert!(!submit_auth(HttpOutcome::ErrorStatus(200)));
    assert!(!submit_auth(HttpOutcome::ErrorStatus(401)));
    assert!(!submit_auth(HttpOutcome::Failed));
}

fn iface(name: &str, ipv4: Option<[u8; 4]>) -> InterfaceAddress {
    InterfaceAddress { name: name.into(), ipv4 }
}

#[test]
fn detect_ndm_host_picks_the_bridge_address() {
    let all = vec![
        iface("lo", Some([127, 0, 0, 1])),
        iface("eth0", Some([10, 0, 0, 2])),
        iface("br0", None),
        iface("br0", Some([127, 0, 0, 1])),
        iface("br0", Some([0, 0, 0, 0])),
        iface("br-lan", Some([192, 168, 2, 1])),
        iface("br0", Some([192, 168, 1, 254])),
    ];
    assert_eq!(detect_ndm_host(&all), "192.168.2.1");
}

#[test]
fn detect_ndm_host_falls_back() {
    assert_eq!(detect_ndm_host(&vec![]), "192.168.1.1");
    assert_eq!(detect_ndm_host(&vec![iface("eth0", Some([10, 0, 0, 2]))]), "192.168.1.1");
}
