use axum_rest_api::config::{build_db_url, make_app_state};
use axum_rest_api::middleware::{
    auth_middleware, format_log_line, resolve_client_ip, AuthDecision,
};
use axum_rest_api::route::{match_route, parse_i32, route_requires_auth, Method, RouteMatch};
use axum_rest_api::user::{admin_get_app_state, get_app_state};

#[test]
fn root_greeting_text() {
    assert_eq!(axum_rest_api::root_greeting(), "hello, Rust!");
}

#[test]
fn auth_rejects_missing_header() {
    let key = String::from("s3cret");
    match auth_middleware(None, &key) {
        AuthDecision::Reject(r) => {
            assert_eq!(r.status, 401);
            assert_eq!(r.body, "Invalid API Key");
        }
        AuthDecision::Proceed => panic!("expected rejection"),
    }
}

#[test]
fn auth_rejects_wrong_key() {
    let key = String::from("s3cret");
    let sent = String::from("guess");
    assert!(matches!(auth_middleware(Some(&sent), &key), AuthDecision::Reject(_)));
}

#[test]
fn auth_accepts_exact_key() {
    let key = String::from("s3cret");
    let sent = String::from("s3cret");
    assert!(matches!(auth_middleware(Some(&sent), &key), AuthDecision::Proceed));
}

#[test]
fn client_ip_prefers_forwarded_header() {
    let ip = resolve_client_ip(
        Some(String::from("198.51.100.7")),
        Some(String::from("203.0.113.9")),
    );
    assert_eq!(ip, "198.51.100.7");
}

#[test]
fn client_ip_falls_back_to_peer_address() {
    let ip = resolve_client_ip(None, Some(String::from("203.0.113.9")));
    assert_eq!(ip, "203.0.113.9");
}

#[test]
fn client_ip_unknown_without_any_address() {
    assert_eq!(resolve_client_ip(None, None), "UNKNOWN");
}

#[test]
fn log_line_format() {
    let line = format_log_line("203.0.113.9", "GET", "/users", 200, 15);
    assert_eq!(line, "|-> 203.0.113.9 GET /users (200) [15 ms]");
}

#[test]
fn log_line_zero_elapsed() {
    let line = format_log_line("UNKNOWN", "DELETE", "/delete-user/1", 404, 0);
    assert_eq!(line, "|-> UNKNOWN DELETE /delete-user/1 (404) [0 ms]");
}

#[test]
fn app_state_snapshot_never_echoes_admin_key() {
    let state = make_app_state(
        String::from("apidb"),
        String::from("svc"),
        String::from("localhost"),
        String::from("3306"),
        Some(String::from("127.0.0.1")),
        Some(String::from("8080")),
        String::from("top-secret-key"),
    );
    let r = get_app_state(&state);
    assert_eq!(r.status, 200);
    assert_eq!(
        r.body,
        "{\"db_host\":\"localhost\",\"db_name\":\"apidb\",\"db_port\":\"3306\",\"db_user\":\"svc\",\"server_host\":\"127.0.0.1\",\"server_port\":\"8080\"}"
    );
    assert!(!r.body.contains("top-secret-key"));
}

#[test]
fn admin_endpoint_end_to_end() {
    let state = make_app_state(
        String::from("apidb"),
        String::from("svc"),
        String::from("localhost"),
        String::from("3306"),
        None,
        None,
        String::from("s3cret"),
    );
    let no_header = admin_get_app_state(&state, None);
    assert_eq!(no_header.status, 401);
    assert_eq!(no_header.body, "Invalid API Key");
    let wrong = String::from("guess");
    let wrong_key = admin_get_app_state(&state, Some(&wrong));
    assert_eq!(wrong_key.status, 401);
    assert_eq!(wrong_key.body, "Invalid API Key");
    let right = String::from("s3cret");
    let granted = admin_get_app_state(&state, Some(&right));
    assert_eq!(granted.status, 200);
    assert_eq!(
        granted.body,
        "{\"db_host\":\"localhost\",\"db_name\":\"apidb\",\"db_port\":\"3306\",\"db_user\":\"svc\",\"server_host\":\"0.0.0.0\",\"server_port\":\"3000\"}"
    );
    assert!(!granted.body.contains("s3cret"));
}

#[test]
fn app_state_defaults_host_and_port() {
    let state = make_app_state(
        String::from("apidb"),
        String::from("svc"),
        String::from("localhost"),
        String::from("3306"),
        None,
        None,
        String::from("k"),
    );
    assert_eq!(state.server_host, "0.0.0.0");
    assert_eq!(state.server_port, "3000");
}

#[test]
fn db_url_assembly() {
    let url = build_db_url("svc", "pw", "localhost", "3306", "apidb");
    assert_eq!(url, "mysql://svc:pw@localhost:3306/apidb");
}

#[test]
fn routes_fixed_paths() {
    assert_eq!(match_route(Method::Get, "/"), RouteMatch::Root);
    assert_eq!(match_route(Method::Get, "/users"), RouteMatch::Users);
    assert_eq!(match_route(Method::Get, "/axum-users"), RouteMatch::AxumUsers);
    assert_eq!(match_route(Method::Get, "/admin/get_app_state"), RouteMatch::AdminGetAppState);
    assert_eq!(match_route(Method::Post, "/create-user"), RouteMatch::CreateUser);
    assert_eq!(match_route(Method::Post, "/create-user-db"), RouteMatch::CreateUserDb);
    assert_eq!(match_route(Method::Post, "/add-item"), RouteMatch::AddItem);
}

#[test]
fn routes_parameterized_paths() {
    assert_eq!(match_route(Method::Get, "/item/42"), RouteMatch::ShowItem(42));
    assert_eq!(match_route(Method::Get, "/item/-1"), RouteMatch::ShowItem(-1));
    assert_eq!(match_route(Method::Get, "/item/xyz"), RouteMatch::NotFound);
    assert_eq!(match_route(Method::Get, "/item/"), RouteMatch::NotFound);
    assert_eq!(match_route(Method::Delete, "/delete-user/9"), RouteMatch::DeleteUser(9));
    assert_eq!(match_route(Method::Delete, "/delete-user/"), RouteMatch::NotFound);
}

#[test]
fn routes_method_mismatch_is_not_found() {
    assert_eq!(match_route(Method::Post, "/users"), RouteMatch::NotFound);
    assert_eq!(match_route(Method::Get, "/create-user"), RouteMatch::NotFound);
    assert_eq!(match_route(Method::Delete, "/users"), RouteMatch::NotFound);
    assert_eq!(match_route(Method::Other, "/users"), RouteMatch::NotFound);
}

#[test]
fn auth_gate_only_on_admin_route() {
    assert!(route_requires_auth(RouteMatch::AdminGetAppState));
    assert!(!route_requires_auth(RouteMatch::Root));
    assert!(!route_requires_auth(RouteMatch::Users));
    assert!(!route_requires_auth(RouteMatch::ShowItem(1)));
    assert!(!route_requires_auth(RouteMatch::DeleteUser(1)));
    assert!(!route_requires_auth(RouteMatch::NotFound));
}

#[test]
fn parse_i32_accepts_plain_and_signed() {
    assert_eq!(parse_i32("0"), Some(0));
    assert_eq!(parse_i32("42"), Some(42));
    assert_eq!(parse_i32("+7"), Some(7));
    assert_eq!(parse_i32("-13"), Some(-13));
    assert_eq!(parse_i32("007"), Some(7));
}

#[test]
fn parse_i32_range_limits() {
    assert_eq!(parse_i32("2147483647"), Some(i32::MAX));
    assert_eq!(parse_i32("-2147483648"), Some(i32::MIN));
    assert_eq!(parse_i32("2147483648"), None);
    assert_eq!(parse_i32("-2147483649"), None);
    assert_eq!(parse_i32("99999999999999999999"), None);
}

#[test]
fn parse_inverts_rendering() {
    for n in [0, 1, -1, 42, -37, 1000000, i32::MAX, i32::MIN] {
        assert_eq!(parse_i32(&axum_rest_api::text::dec_i32(n)), Some(n));
    }
}

#[test]
fn parse_i32_rejects_malformed_input() {
    assert_eq!(parse_i32(""), None);
    assert_eq!(parse_i32("-"), None);
    assert_eq!(parse_i32("+"), None);
    assert_eq!(parse_i32("12a"), None);
    assert_eq!(parse_i32("abc"), None);
    assert_eq!(parse_i32(" 1"), None);
}
