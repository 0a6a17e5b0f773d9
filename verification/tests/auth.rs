use ember_bridge::server::auth::{
    authorize, bearer_token, constant_time_eq, cors_decision, host_is_local, is_public_path,
    is_tokenless_path, origin_allowed,
};

#[test]
fn origin_allowlist_rules() {
    let list = vec!["https://ember.example".to_string()];
    assert!(origin_allowed("https://ember.example", &list));
    assert!(!origin_allowed("https://evil.example", &list));
    assert!(!origin_allowed("https://ember.example.evil.com", &list));
    // Loopback and the Tauri webview are always allowed.
    assert!(origin_allowed("http://localhost:1420", &list));
    assert!(origin_allowed("http://127.0.0.1:8080", &list));
    assert!(origin_allowed("tauri://localhost", &list));
    // Wildcard.
    assert!(origin_allowed("https://anything.example", &vec!["*".to_string()]));
}

#[test]
fn webview_and_loopback_hosts_count_only_with_web_schemes() {
    let none: Vec<String> = Vec::new();
    assert!(origin_allowed("https://tauri.localhost", &none));
    assert!(origin_allowed("http://localhost", &none));
    assert!(!origin_allowed("ftp://localhost", &none));
    assert!(!origin_allowed("http://localhost.evil.example", &none));
    assert!(!origin_allowed("", &none));
}

#[test]
fn constant_time_comparison_is_equality() {
    assert!(constant_time_eq(b"secret", b"secret"));
    assert!(!constant_time_eq(b"secret", b"secreT"));
    assert!(!constant_time_eq(b"secret", b"secret2"));
    assert!(constant_time_eq(b"", b""));
}

#[test]
fn bearer_scheme_is_required() {
    assert_eq!(bearer_token("Bearer abc"), Some("abc".to_string()));
    assert_eq!(bearer_token("Basic abc"), None);
    assert_eq!(bearer_token("abc"), None);
}

#[test]
fn tokenless_paths() {
    assert!(is_tokenless_path("/api/health"));
    assert!(is_tokenless_path("/api/pair"));
    assert!(is_tokenless_path("/api/pair/0123abcd"));
    assert!(!is_tokenless_path("/api/pairing"));
    assert!(!is_tokenless_path("/api/pairing/respond"));
    assert!(!is_tokenless_path("/api/status"));
    assert!(is_public_path("/api/health"));
    assert!(!is_public_path("/api/pair"));
}

#[test]
fn authorization_accepts_either_header() {
    let token = "t0k3n";
    assert!(authorize("/api/status", Some("Bearer t0k3n"), None, token));
    assert!(authorize("/api/status", None, Some("t0k3n"), token));
    assert!(!authorize("/api/status", Some("Bearer nope"), None, token));
    assert!(!authorize("/api/status", None, None, token));
    assert!(authorize("/api/health", None, None, token));
    // A malformed Authorization header falls back to x-ember-token.
    assert!(authorize("/api/status", Some("Token t0k3n"), Some("t0k3n"), token));
}

#[test]
fn loopback_hosts() {
    assert!(host_is_local(None));
    assert!(host_is_local(Some("127.0.0.1:17831")));
    assert!(host_is_local(Some("localhost")));
    assert!(host_is_local(Some("[::1]:17831")));
    assert!(!host_is_local(Some("attacker.example")));
    assert!(!host_is_local(Some("127.0.0.1.evil.example")));
}

#[test]
fn cors_preflight_for_allowed_and_denied_origins() {
    let list: Vec<String> = Vec::new();
    // Denied: unknown origin gets no CORS headers.
    let d = cors_decision(true, true, false, Some("https://evil.example"), "/api/send", &list);
    assert!(d.preflight);
    assert!(d.allow_origin.is_none());
    assert!(!d.allow_private_network);
    // Allowed: localhost origin (Ember dev server / our own UI).
    let d = cors_decision(true, true, true, Some("http://localhost:5173"), "/api/send", &list);
    assert_eq!(d.allow_origin.as_deref(), Some("http://localhost:5173"));
    assert!(d.allow_private_network);
}

#[test]
fn health_is_visible_to_every_origin() {
    let list: Vec<String> = Vec::new();
    let d = cors_decision(false, false, false, Some("https://evil.example"), "/api/health", &list);
    assert!(!d.preflight);
    assert_eq!(d.allow_origin.as_deref(), Some("https://evil.example"));
    let d = cors_decision(false, false, false, None, "/api/health", &list);
    assert!(d.allow_origin.is_none());
}
