use ember_bridge::config::AppConfig;
use ember_bridge::machine::net::NetAddr;
use ember_bridge::server::api::{
    send, create_pairing, delete_machine, require_token, get_job, poll_pairing,
    pairing_respond, save_machine, update_settings,
};
use ember_bridge::server::jobs::{JobState, JobQueue};
use ember_bridge::server::pairing::Pairing;
use ember_bridge::server::routes::{
    app_version, vet_target_ip, PairBody, PairingRespondBody, PollState, Rejection,
    SaveMachineBody, UpdateSettingsBody, API_VERSION,
};
use ember_bridge::server::state::PORT;

const NOW: u64 = 1_700_000_000_000;

/// The `ip` parameter as the HTTP layer reads it (dotted IPv4 here; the
/// tests need no other form).
fn parse_ip(text: &str) -> Option<NetAddr> {
    let parts: Vec<&str> = text.trim().split('.').collect();
    if parts.len() != 4 {
        return None;
    }
    let mut o = [0u8; 4];
    for (i, p) in parts.iter().enumerate() {
        o[i] = p.parse::<u8>().ok()?;
    }
    Some(NetAddr::V4(o[0], o[1], o[2], o[3]))
}

#[test]
fn health_needs_no_token() {
    let config = AppConfig::new_with_token();
    assert_eq!(require_token(None, "/api/health", None, None, &config.api_token), Ok(()));
    assert_eq!(app_version(), "0.1.0");
}

#[test]
fn everything_else_requires_the_token() {
    let config = AppConfig::new_with_token();
    for path in ["/api/status", "/api/machines", "/api/jobs", "/api/logs", "/api/settings"] {
        let r = require_token(None, path, None, None, &config.api_token);
        assert_eq!(r, Err(Rejection::Unauthorized), "path {path}");
        let e = r.unwrap_err();
        assert_eq!(e.status(), 401, "path {path}");
        assert_eq!(e.code(), "unauthorized", "path {path}");
    }
}

#[test]
fn wrong_token_is_rejected() {
    let config = AppConfig::new_with_token();
    let r = require_token(None, "/api/status", Some("Bearer not-the-token"), None, &config.api_token);
    assert_eq!(r.unwrap_err().status(), 401);
}

#[test]
fn bridge_status_with_valid_token() {
    let config = AppConfig::new_with_token();
    let auth = format!("Bearer {}", config.api_token);
    assert_eq!(require_token(None, "/api/status", Some(&auth), None, &config.api_token), Ok(()));
    assert_eq!(API_VERSION, 1);
    assert_eq!(JobQueue::new().pending_count(), 0);
}

#[test]
fn x_ember_token_header_also_works() {
    let config = AppConfig::new_with_token();
    let r = require_token(None, "/api/status", None, Some(&config.api_token), &config.api_token);
    assert_eq!(r, Ok(()));
}

#[test]
fn public_and_loopback_targets_are_refused() {
    for (ip, expected_code) in
        [("8.8.8.8", "ip_not_local"), ("127.0.0.1", "ip_not_local"), ("nonsense", "invalid_ip")]
    {
        let e = vet_target_ip(parse_ip(ip)).unwrap_err();
        assert_eq!(e.status(), 400, "ip {ip}");
        assert_eq!(e.code(), expected_code, "ip {ip}");
    }
}

#[test]
fn send_validates_before_queueing() {
    let mut jobs = JobQueue::new();
    let ip = parse_ip("192.168.1.120");

    // Missing filename.
    let e = send(&mut jobs, true, ip, None, "design-bytes".len(), NOW).unwrap_err();
    assert_eq!(e.status(), 400);
    assert_eq!(e.code(), "missing_filename");

    // Empty body.
    let e = send(&mut jobs, true, ip, Some("rose.pes"), 0, NOW).unwrap_err();
    assert_eq!(e.status(), 400);
    assert_eq!(e.code(), "empty_body");
    assert!(jobs.list().is_empty());

    // A valid request is queued.
    let job = send(&mut jobs, true, ip, Some("rose.pes"), "#PES0001fake".len(), NOW)
        .unwrap();
    assert_eq!(job.state, JobState::Queued);
    assert_eq!(job.filename, "rose.pes");
    assert_eq!(job.total_bytes, 12);
    assert_eq!(job.id, format!("job-{NOW}-0"));
    assert_eq!(get_job(&jobs, &job.id).unwrap(), job);
    assert_eq!(jobs.pending_count(), 1);
}

#[test]
fn send_requires_a_local_target() {
    let mut jobs = JobQueue::new();
    let e = send(&mut jobs, false, None, Some("rose.pes"), 5, NOW).unwrap_err();
    assert_eq!(e.code(), "missing_ip");
    let e = send(&mut jobs, true, parse_ip("8.8.8.8"), Some("rose.pes"), 5, NOW)
        .unwrap_err();
    assert_eq!(e.code(), "ip_not_local");
    let e = send(&mut jobs, true, None, Some("rose.pes"), 5, NOW).unwrap_err();
    assert_eq!(e.code(), "invalid_ip");
    assert!(jobs.list().is_empty());
    assert_eq!(get_job(&jobs, "job-1-0").unwrap_err(), Rejection::JobNotFound("job-1-0".into()));
}

#[test]
fn machines_can_be_saved_and_deleted() {
    let mut config = AppConfig::new_with_token();
    let body = SaveMachineBody {
        ip: "192.168.1.120".into(),
        nickname: Some("Sewing room".into()),
        manufacturer: None,
    };
    let ip = save_machine(&mut config, body.clone(), parse_ip(&body.ip)).unwrap();
    assert_eq!(config.machines[0].nickname.as_deref(), Some("Sewing room"));

    assert_eq!(delete_machine(&mut config, Some(ip)), Ok(()));

    // Deleting again: not found.
    let e = delete_machine(&mut config, Some(ip)).unwrap_err();
    assert_eq!(e.status(), 404);
}

#[test]
fn saving_again_replaces_the_entry() {
    let mut config = AppConfig::new_with_token();
    let first = SaveMachineBody { ip: " 10.0.0.5 ".into(), nickname: Some("  ".into()), manufacturer: None };
    save_machine(&mut config, first.clone(), parse_ip(&first.ip)).unwrap();
    assert_eq!(config.machines[0].nickname, None);
    let second = SaveMachineBody {
        ip: "10.0.0.5".into(),
        nickname: Some(" Attic ".into()),
        manufacturer: Some("brother".into()),
    };
    save_machine(&mut config, second.clone(), parse_ip(&second.ip)).unwrap();
    assert_eq!(config.machines.len(), 1);
    assert_eq!(config.machines[0].nickname.as_deref(), Some("Attic"));
    assert_eq!(config.machines[0].manufacturer.as_deref(), Some("brother"));

    let public = SaveMachineBody { ip: "1.1.1.1".into(), nickname: None, manufacturer: None };
    let before = config.clone();
    let e = save_machine(&mut config, public.clone(), parse_ip(&public.ip)).unwrap_err();
    assert_eq!(e.code(), "ip_not_local");
    assert_eq!(config, before);
}

#[test]
fn settings_roundtrip_updates_allowed_origins() {
    let mut config = AppConfig::new_with_token();
    let token = config.api_token.clone();
    let body = UpdateSettingsBody { allowed_origins: vec!["https://ember.example/".into()] };
    assert_eq!(update_settings(&mut config, &body), Ok(()));
    // Trailing slash is normalized away.
    assert_eq!(config.allowed_origins[0], "https://ember.example");
    assert_eq!(config.api_token, token);

    // Garbage origins are refused.
    let body = UpdateSettingsBody { allowed_origins: vec!["ember.example".into()] };
    let e = update_settings(&mut config, &body).unwrap_err();
    assert_eq!(e.status(), 400);
    assert_eq!(e.code(), "invalid_origin");
    assert_eq!(config.allowed_origins, vec!["https://ember.example".to_string()]);
}

#[test]
fn settings_drop_blank_origins_and_keep_wildcards() {
    let mut config = AppConfig::new_with_token();
    let body = UpdateSettingsBody {
        allowed_origins: vec![" * ".into(), "   ".into(), "tauri://localhost//".into()],
    };
    assert_eq!(update_settings(&mut config, &body), Ok(()));
    assert_eq!(config.allowed_origins, vec!["*".to_string(), "tauri://localhost".to_string()]);
}

#[test]
fn pairing_approve_flow() {
    let mut config = AppConfig::new_with_token();
    config.allowed_origins = Vec::new();
    let mut pairing = Pairing::new();
    let origin = "http://localhost:5173";

    // Browser creates a request — no token, with a display name.
    assert_eq!(require_token(None, "/api/pair", None, None, &config.api_token), Ok(()));
    let body = PairBody { app_name: Some("Ember".into()) };
    let request =
        create_pairing(&mut pairing, Some(origin), Some(body), &config.allowed_origins, NOW).unwrap();
    let id = request.id.clone();
    assert_eq!(request.origin, origin);
    assert_eq!(request.app_name, "Ember");

    // While pending, the browser polls…
    assert_eq!(
        poll_pairing(&mut pairing, &id, Some(origin), &config.allowed_origins, NOW + 1),
        Ok(PollState::Pending)
    );

    // …the desktop UI sees it (token-gated route)…
    assert_eq!(
        require_token(None, "/api/pairing", None, None, &config.api_token),
        Err(Rejection::Unauthorized)
    );
    let pending = pairing.pending(NOW + 2).unwrap();
    assert_eq!(pending.id, id);
    assert_eq!(pending.origin, origin);

    // …and approves it.
    let answer = PairingRespondBody { id: id.clone(), approve: true };
    assert_eq!(pairing_respond(&mut pairing, &answer, NOW + 3), Ok(origin.to_string()));

    // The next browser poll is approved (the token goes with this answer)…
    assert_eq!(
        poll_pairing(&mut pairing, &id, Some(origin), &config.allowed_origins, NOW + 4),
        Ok(PollState::Approved)
    );

    // …exactly once.
    let e = poll_pairing(&mut pairing, &id, Some(origin), &config.allowed_origins, NOW + 5)
        .unwrap_err();
    assert_eq!(e.status(), 404);
}

#[test]
fn pairing_deny_flow() {
    let allowlist: Vec<String> = Vec::new();
    let mut pairing = Pairing::new();
    let origin = "http://localhost:5173";

    let id = create_pairing(&mut pairing, Some(origin), None, &allowlist, NOW).unwrap().id;

    // A second request while one is pending is refused.
    let e = create_pairing(&mut pairing, Some(origin), None, &allowlist, NOW + 1).unwrap_err();
    assert_eq!(e.status(), 409);
    assert_eq!(e.code(), "pairing_in_progress");

    let answer = PairingRespondBody { id: id.clone(), approve: false };
    assert!(pairing_respond(&mut pairing, &answer, NOW + 2).is_ok());

    assert_eq!(
        poll_pairing(&mut pairing, &id, Some(origin), &allowlist, NOW + 3),
        Ok(PollState::Denied)
    );
}

#[test]
fn pairing_rejects_unknown_origins() {
    let allowlist: Vec<String> = Vec::new();
    let mut pairing = Pairing::new();

    let e = create_pairing(&mut pairing, None, None, &allowlist, NOW).unwrap_err();
    assert_eq!(e.status(), 400);

    let e = create_pairing(&mut pairing, Some("https://evil.example"), None, &allowlist, NOW)
        .unwrap_err();
    assert_eq!(e.status(), 403);
    assert_eq!(e.code(), "origin_not_allowed");
    assert!(pairing.pending(NOW).is_none());
}

#[test]
fn pairing_result_is_origin_bound() {
    let allowlist: Vec<String> = Vec::new();
    let mut pairing = Pairing::new();

    let id = create_pairing(&mut pairing, Some("http://localhost:5173"), None, &allowlist, NOW)
        .unwrap()
        .id;

    let e = poll_pairing(&mut pairing, &id, Some("http://localhost:9999"), &allowlist, NOW + 1)
        .unwrap_err();
    assert_eq!(e.status(), 403);
    assert_eq!(e.code(), "pairing_origin_mismatch");
}

#[test]
fn pairing_names_are_trimmed_and_bounded() {
    let allowlist: Vec<String> = Vec::new();
    let mut pairing = Pairing::new();
    let long = format!("  {}  ", "é".repeat(80));
    let body = PairBody { app_name: Some(long) };
    let req = create_pairing(&mut pairing, Some("tauri://localhost"), Some(body), &allowlist, NOW)
        .unwrap();
    assert_eq!(req.app_name, "é".repeat(64));

    let mut pairing = Pairing::new();
    let body = PairBody { app_name: Some("   ".into()) };
    let req = create_pairing(&mut pairing, Some("tauri://localhost"), Some(body), &allowlist, NOW)
        .unwrap();
    assert_eq!(req.app_name, "Unnamed app");
}

#[test]
fn responding_to_an_unknown_request_is_not_found() {
    let mut pairing = Pairing::new();
    let answer = PairingRespondBody { id: "nope".into(), approve: true };
    let e = pairing_respond(&mut pairing, &answer, NOW).unwrap_err();
    assert_eq!(e, Rejection::NoPendingPairing);
    assert_eq!(e.status(), 404);
}

#[test]
fn non_loopback_host_is_rejected() {
    let config = AppConfig::new_with_token();
    let e = require_token(Some("attacker.example"), "/api/health", None, None, &config.api_token)
        .unwrap_err();
    assert_eq!(e.status(), 403);
    assert_eq!(e.code(), "host_not_local");

    let host = format!("127.0.0.1:{PORT}");
    assert_eq!(require_token(Some(&host), "/api/health", None, None, &config.api_token), Ok(()));
}
