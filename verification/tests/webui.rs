use trusttunnel_keenetic::tunnel::TunnelStatus;
use trusttunnel_keenetic::webui::{
    api_control, api_login, api_logs, api_status, control_action, control_request, error_reply,
    get_auth_header, handle_request, login_reply, login_request, logs_reply, needs_session,
    parse_query_param, ControlAction, ControlRequest, Header, LoginRequest, Method, Route,
    Sessions, SESSION_TTL_SECS,
};

#[test]
fn sessions_expire_and_are_renewed() {
    let mut s = Sessions::new();
    assert_eq!(s.len(), 0);
    s.insert("t1".into(), 100);
    s.insert("t2".into(), 200);
    assert_eq!(s.len(), 2);
    assert!(s.validate("t1", 3699));
    assert!(s.validate("t1", 3699 + SESSION_TTL_SECS - 1));
    assert!(!s.validate("t2", 3800));
    assert_eq!(s.len(), 1);
    assert!(!s.validate("t2", 0));
    assert!(!s.validate("nobody", 0));
    assert!(!s.validate("t1", 3699 + 2 * SESSION_TTL_SECS));
    assert_eq!(s.len(), 0);
}

#[test]
fn creating_a_session_cleans_up() {
    let mut s = Sessions::new();
    s.insert("old".into(), 0);
    s.insert("new".into(), 3000);
    s.insert("new".into(), 3500);
    assert_eq!(s.len(), 2);
    let token = s.create(3600);
    assert_eq!(s.len(), 2);
    assert_eq!(token.len(), 36);
    assert!(s.validate(&token, 3600));
    assert!(!s.validate("old", 3600));
    assert!(s.validate("new", 7099));
    let other = s.create(3600);
    assert_ne!(token, other);
    s.cleanup(u64::MAX);
    assert_eq!(s.len(), 0);
}

#[test]
fn session_expiry_saturates() {
    let mut s = Sessions::new();
    s.insert("t".into(), u64::MAX - 5);
    assert!(s.validate("t", u64::MAX - 1));
    assert!(!s.validate("t", u64::MAX));
}

#[test]
fn query_parameters_are_read() {
    assert_eq!(parse_query_param("/api/logs?limit=20", "limit"), Some("20".to_string()));
    assert_eq!(parse_query_param("/api/logs?a=1&limit=20&limit=30", "limit"), Some("20".to_string()));
    assert_eq!(parse_query_param("/api/logs?limit=a=b", "limit"), Some("a=b".to_string()));
    assert_eq!(parse_query_param("/api/logs?limit=", "limit"), Some("".to_string()));
    assert_eq!(parse_query_param("/api/logs?limit", "limit"), None);
    assert_eq!(parse_query_param("/api/logs", "limit"), None);
    assert_eq!(parse_query_param("/api/logs?x=1?limit=2", "limit"), None);
    assert_eq!(parse_query_param("/api/logs?xlimit=2", "limit"), None);
    assert_eq!(parse_query_param("/p?=v", ""), Some("v".to_string()));
}

#[test]
fn requests_are_routed() {
    assert_eq!(handle_request(Method::Get, "/"), Route::Index);
    assert_eq!(handle_request(Method::Get, "/index.html?x=1"), Route::Index);
    assert_eq!(handle_request(Method::Post, "/"), Route::NotFound);
    assert_eq!(handle_request(Method::Post, "/api/login"), Route::Login);
    assert_eq!(handle_request(Method::Get, "/api/login"), Route::NotFound);
    assert_eq!(handle_request(Method::Get, "/api/status"), Route::Status);
    assert_eq!(handle_request(Method::Get, "/api/config"), Route::GetConfig);
    assert_eq!(handle_request(Method::Post, "/api/config"), Route::SetConfig);
    assert_eq!(handle_request(Method::Post, "/api/control"), Route::Control);
    assert_eq!(handle_request(Method::Get, "/api/logs?limit=5"), Route::Logs);
    assert_eq!(handle_request(Method::Other, "/api/logs"), Route::NotFound);
    assert_eq!(handle_request(Method::Get, "/api/logs/"), Route::NotFound);
    assert_eq!(handle_request(Method::Get, ""), Route::NotFound);
}

#[test]
fn api_routes_need_a_session() {
    assert!(!needs_session(Route::Index));
    assert!(!needs_session(Route::Login));
    assert!(!needs_session(Route::NotFound));
    for r in [Route::Status, Route::GetConfig, Route::SetConfig, Route::Control, Route::Logs] {
        assert!(needs_session(r));
    }
}

#[test]
fn control_actions_are_read() {
    assert_eq!(control_action("connect"), ControlAction::Connect);
    assert_eq!(control_action("disconnect"), ControlAction::Disconnect);
    assert_eq!(control_action("restart"), ControlAction::Restart);
    assert_eq!(control_action("Connect"), ControlAction::Unknown);
    assert_eq!(control_action(""), ControlAction::Unknown);
    assert_eq!(control_request(None), ControlRequest::InvalidJson);
    assert_eq!(control_request(Some(None)), ControlRequest::Action(ControlAction::Unknown));
    assert_eq!(
        control_request(Some(Some("restart".into()))),
        ControlRequest::Action(ControlAction::Restart)
    );
}

#[test]
fn control_requests_are_read_from_json() {
    assert_eq!(api_control("{\"action\":\"connect\"}"), ControlRequest::Action(ControlAction::Connect));
    assert_eq!(
        api_control("{ \"x\": 1, \"action\" : \"disconnect\" }"),
        ControlRequest::Action(ControlAction::Disconnect)
    );
    assert_eq!(api_control("{\"action\":5}"), ControlRequest::Action(ControlAction::Unknown));
    assert_eq!(api_control("{}"), ControlRequest::Action(ControlAction::Unknown));
    assert_eq!(api_control("[\"connect\"]"), ControlRequest::Action(ControlAction::Unknown));
    assert_eq!(api_control("connect"), ControlRequest::InvalidJson);
    assert_eq!(api_control(""), ControlRequest::InvalidJson);
}

#[test]
fn log_limit_is_bounded() {
    assert_eq!(api_logs("/api/logs"), 100);
    assert_eq!(api_logs("/api/logs?limit=20"), 20);
    assert_eq!(api_logs("/api/logs?limit=0"), 0);
    assert_eq!(api_logs("/api/logs?limit=500"), 500);
    assert_eq!(api_logs("/api/logs?limit=501"), 500);
    assert_eq!(api_logs("/api/logs?limit=99999999999999999999999"), 100);
    assert_eq!(api_logs("/api/logs?limit=abc"), 100);
    assert_eq!(api_logs("/api/logs?limit=-1"), 100);
    assert_eq!(api_logs("/api/logs?limit=+7"), 7);
}

fn credentials(r: LoginRequest) -> Option<(String, String)> {
    match r {
        LoginRequest::Credentials { login, password } => Some((login, password)),
        _ => None,
    }
}

#[test]
fn login_needs_both_fields() {
    assert_eq!(
        credentials(login_request(true, Some("admin".into()), Some("secret".into()))),
        Some(("admin".to_string(), "secret".to_string()))
    );
    assert!(matches!(login_request(true, None, Some("secret".into())), LoginRequest::Incomplete));
    assert!(matches!(login_request(true, Some("admin".into()), Some("".into())), LoginRequest::Incomplete));
    assert!(matches!(login_request(true, None, None), LoginRequest::Incomplete));
    assert!(matches!(login_request(false, Some("a".into()), Some("b".into())), LoginRequest::InvalidJson));
}

#[test]
fn login_requests_are_read_from_json() {
    assert_eq!(
        credentials(api_login("{\"login\":\"ad\\\"min\",\"password\":\"s\\u00e9cret\"}")),
        Some(("ad\"min".to_string(), "s\u{e9}cret".to_string()))
    );
    assert!(matches!(api_login("{\"login\":\"admin\"}"), LoginRequest::Incomplete));
    assert!(matches!(api_login("{\"login\":\"admin\",\"password\":7}"), LoginRequest::Incomplete));
    assert!(matches!(api_login("{\"login\":\"\",\"password\":\"x\"}"), LoginRequest::Incomplete));
    assert!(matches!(api_login("not json"), LoginRequest::InvalidJson));
}

fn object(members: Vec<(&str, serde_json::Value)>) -> String {
    let mut map = serde_json::Map::new();
    for (k, v) in members {
        map.insert(k.to_string(), v);
    }
    serde_json::Value::Object(map).to_string()
}

#[test]
fn status_reply_is_json() {
    let st = TunnelStatus { connected: true, uptime_seconds: 61, last_error: "a \"b\"\n".into(), pid: Some(4242) };
    assert_eq!(
        api_status(&st),
        "{\"connected\":true,\"last_error\":\"a \\\"b\\\"\\n\",\"pid\":4242,\"uptime_seconds\":61}"
    );
    assert_eq!(
        api_status(&st),
        object(vec![
            ("connected", serde_json::Value::Bool(true)),
            ("uptime_seconds", serde_json::Value::from(61u64)),
            ("last_error", serde_json::Value::from("a \"b\"\n")),
            ("pid", serde_json::Value::from(4242u32)),
        ])
    );
    let st = TunnelStatus::default();
    assert_eq!(
        api_status(&st),
        "{\"connected\":false,\"last_error\":\"\",\"pid\":null,\"uptime_seconds\":0}"
    );
}

#[test]
fn other_replies_are_json() {
    assert_eq!(login_reply("tok"), "{\"status\":\"ok\",\"token\":\"tok\"}");
    assert_eq!(
        login_reply("t\\k"),
        object(vec![("token", serde_json::Value::from("t\\k")), ("status", serde_json::Value::from("ok"))])
    );
    assert_eq!(error_reply("bad \"thing\""), "{\"error\":\"bad \\\"thing\\\"\"}");
    assert_eq!(logs_reply(&vec![], 0), "{\"lines\":[],\"total\":0}");
    assert_eq!(
        logs_reply(&vec!["a".into(), "b\tc".into(), "".into()], 500),
        "{\"lines\":[\"a\",\"b\\tc\",\"\"],\"total\":500}"
    );
    let lines: Vec<String> = vec!["x".into(), "y".into()];
    assert_eq!(
        logs_reply(&lines, 2),
        object(vec![
            ("total", serde_json::Value::from(2u64)),
            ("lines", serde_json::Value::from(lines.clone())),
        ])
    );
}

#[test]
fn authorization_header_is_found_in_any_case() {
    let headers = vec![
        Header { name: "Content-Type".into(), value: "application/json".into() },
        Header { name: "AUTHORIZATION".into(), value: "tok-1".into() },
        Header { name: "authorization".into(), value: "tok-2".into() },
    ];
    assert_eq!(get_auth_header(&headers), Some("tok-1".to_string()));
    assert_eq!(get_auth_header(&headers[..1].iter().map(|h| Header { name: h.name.clone(), value: h.value.clone() }).collect()), None);
    assert_eq!(get_auth_header(&vec![]), None);
}
