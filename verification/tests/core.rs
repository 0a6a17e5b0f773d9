use ember_bridge::brother::backend::BrotherBackend;
use ember_bridge::brother::client::{
    brother_machine_info, check_format, check_free_memory, check_session, check_size_limit,
    file_extension, new_file_name, storage_from_session, supported_formats, upload_status,
    wire_progress, BrotherUpload, UploadAction, UploadPhase, READ_RETRIES,
    UPLOAD_RETRIES,
};
use ember_bridge::brother::models::{BrotherApi, BrotherFeatures, BrotherInfo, SewingResponse};
use ember_bridge::config::{load_decision, AppConfig, ConfigFile, ConfigLoad};
use ember_bridge::dongle_setup::link::{
    classify_line, is_setup_port, take_line, LineAction, ResponseLine, USB_PID, USB_VID,
};
use ember_bridge::dongle_setup::setup::{
    provision_outcome, update_step, PairAnswer, SetupError, UpdateLine, UpdateProgress, UpdateStep,
};
use ember_bridge::logging::{LogBuffer, LogLevel, LOG_CAPACITY};
use ember_bridge::machine::discovery::{candidate_networks, dongle_candidates, sweep_addresses};
use ember_bridge::machine::error::MachineError;
use ember_bridge::machine::models::{DiscoveredMachine, UploadReceipt};
use ember_bridge::machine::net::NetAddr;
use ember_bridge::machine::registry::identify;
use ember_bridge::machine::retry::{after_failure, RetryDecision};
use ember_bridge::server::error::ApiError;
use ember_bridge::server::jobs::{JobState, JobQueue, MAX_FINISHED_JOBS};
use ember_bridge::server::routes::{parse_after_seq, Rejection};
use ember_bridge::server::state::{DiscoveryCache, ServerHealth, PORT};
use ember_bridge::shell::{autostart_checkmark, starts_minimized, tray_action, TrayAction};

const IP: NetAddr = NetAddr::V4(192, 168, 1, 120);

fn brother_info(postsize: Option<u64>) -> BrotherInfo {
    BrotherInfo {
        model: Some(34),
        machine_type: None,
        oem: None,
        version: Some("1.10".into()),
        machine_id: None,
        serial: Some("S123".into()),
        name: Some("Innov-is".into()),
        apis: vec![("pedxml".into(), BrotherApi { version: 1 })],
        features: BrotherFeatures {
            embwidth: Some(2600),
            embheight: Some(1600),
            needles: Some(1),
            postsize,
        },
    }
}

fn session(free: Option<u64>, files: &[&str]) -> SewingResponse {
    SewingResponse {
        error_code: 0,
        session_id: Some("0".into()),
        upload_path: None,
        upload_size: Some(4_194_304),
        upload_freesize: free,
        files: files.iter().map(|f| f.to_string()).collect(),
    }
}

#[test]
fn brother_identity_from_info() {
    let info = brother_machine_info(&brother_info(Some(3_000_000)), IP);
    assert_eq!(info.identity.manufacturer, "brother");
    assert_eq!(info.identity.model, "Brother (model 34)");
    assert_eq!(info.identity.name.as_deref(), Some("Innov-is"));
    assert_eq!(info.capabilities.emb_width_tenth_mm, Some(2600));
    assert_eq!(info.capabilities.max_file_bytes, Some(3_000_000));
    assert_eq!(info.capabilities.formats, supported_formats());
    let mut raw = brother_info(None);
    raw.model = None;
    assert_eq!(brother_machine_info(&raw, IP).identity.model, "Brother");
}

#[test]
fn brother_probe_needs_the_pedxml_api() {
    let backend = BrotherBackend::new();
    assert_eq!(backend.manufacturer(), "brother");
    let ours = backend.probe_verdict(Ok(brother_info(None)), IP).unwrap();
    assert_eq!(ours, Some(brother_machine_info(&brother_info(None), IP)));
    let mut other = brother_info(None);
    other.apis = vec![("ipp".into(), BrotherApi { version: 2 })];
    assert_eq!(backend.probe_verdict(Ok(other), IP), Ok(None));
    assert_eq!(
        backend.probe_verdict(Err(MachineError::Timeout), IP),
        Err(MachineError::Timeout)
    );
}

#[test]
fn format_gate_uses_the_last_extension() {
    assert_eq!(file_extension("Rose.Bud.PES"), "pes");
    assert_eq!(file_extension("noext"), "noext");
    assert!(check_format("rose.PES").is_ok());
    assert!(check_format("rose.dst").is_ok());
    match check_format("rose.svg").unwrap_err() {
        MachineError::UnsupportedFormat { format, supported } => {
            assert_eq!(format, "svg");
            assert_eq!(supported, "pes, phc, dst, phx");
        }
        other => panic!("unexpected {other:?}"),
    }
}

#[test]
fn size_and_memory_checks() {
    assert_eq!(check_size_limit(10, None), Ok(()));
    assert_eq!(check_size_limit(10, Some(10)), Ok(()));
    assert_eq!(
        check_size_limit(11, Some(10)),
        Err(MachineError::FileTooLarge { size: 11, limit: 10 })
    );
    assert_eq!(check_free_memory(5, None), Ok(()));
    assert_eq!(
        check_free_memory(6, Some(5)),
        Err(MachineError::InsufficientStorage { size: 6, free: 5 })
    );
}

#[test]
fn session_and_status_checks() {
    let mut s = session(Some(1), &[]);
    assert!(check_session(s.clone()).is_ok());
    s.error_code = 4;
    assert_eq!(check_session(s), Err(MachineError::Rejected { code: 4 }));
    assert_eq!(upload_status(200), Ok(()));
    assert_eq!(upload_status(204), Ok(()));
    assert_eq!(upload_status(500), Err(MachineError::UploadFailed(500)));
    let st = storage_from_session(session(Some(4_133_845), &["32769.PES"]));
    assert_eq!(st.total_bytes, 4_194_304);
    assert_eq!(st.free_bytes, 4_133_845);
    assert_eq!(st.used_bytes, 4_194_304 - 4_133_845);
    assert_eq!(st.files, vec!["32769.PES".to_string()]);
}

#[test]
fn new_file_is_the_first_one_not_there_before() {
    let before = vec!["32769.PES".to_string()];
    let after = vec!["32769.PES".to_string(), "32770.PES".to_string(), "32771.PES".to_string()];
    assert_eq!(new_file_name(&before, &after).as_deref(), Some("32770.PES"));
    assert_eq!(new_file_name(&after, &before), None);
}

#[test]
fn wire_progress_excludes_the_form_overhead() {
    assert_eq!(wire_progress(0, 300, 1000).sent_bytes, 0);
    assert_eq!(wire_progress(200, 300, 1000).sent_bytes, 0);
    assert_eq!(wire_progress(800, 300, 1000).sent_bytes, 500);
    assert_eq!(wire_progress(5000, 300, 1000).sent_bytes, 1000);
    assert_eq!(wire_progress(5000, 300, 1000).total_bytes, 1000);
}

#[test]
fn brother_upload_checks_everything_before_sending() {
    let (mut up, action) = BrotherUpload::start("rose.pes", 1000);
    assert_eq!(action, UploadAction::FetchInfo);
    assert_eq!(up.on_info(Ok(brother_info(Some(3000)))), UploadAction::FetchSession);
    assert_eq!(up.on_session(Ok(session(Some(5000), &["a.PES"]))), UploadAction::SendDesign);
    assert_eq!(up.on_sent(Ok(())), UploadAction::FetchSessionAfter);
    assert_eq!(
        up.on_after(Ok(session(Some(4000), &["a.PES", "b.PES"]))),
        UploadAction::Finish(Ok(UploadReceipt { bytes_sent: 1000, stored_as: Some("b.PES".into()) }))
    );
    assert_eq!(up.phase, UploadPhase::Finished);
}

#[test]
fn brother_upload_stops_at_the_first_failed_check() {
    let (_, action) = BrotherUpload::start("rose.svg", 1000);
    assert!(matches!(action, UploadAction::Finish(Err(MachineError::UnsupportedFormat { .. }))));

    let (mut up, _) = BrotherUpload::start("rose.pes", 1000);
    assert_eq!(
        up.on_info(Ok(brother_info(Some(999)))),
        UploadAction::Finish(Err(MachineError::FileTooLarge { size: 1000, limit: 999 }))
    );

    let (mut up, _) = BrotherUpload::start("rose.pes", 1000);
    up.on_info(Ok(brother_info(None)));
    assert_eq!(
        up.on_session(Ok(session(Some(10), &[]))),
        UploadAction::Finish(Err(MachineError::InsufficientStorage { size: 1000, free: 10 }))
    );

    // The name lookup afterwards is best effort.
    let (mut up, _) = BrotherUpload::start("rose.pes", 1000);
    up.on_info(Ok(brother_info(None)));
    up.on_session(Ok(session(None, &[])));
    up.on_sent(Ok(()));
    assert_eq!(
        up.on_after(Err(MachineError::Timeout)),
        UploadAction::Finish(Ok(UploadReceipt { bytes_sent: 1000, stored_as: None }))
    );
}

#[test]
fn machine_error_codes_and_messages() {
    let cases = vec![
        (MachineError::Unreachable("refused".into()), "machine_unreachable", "machine unreachable: refused", 502),
        (MachineError::Timeout, "machine_timeout", "request to machine timed out", 504),
        (MachineError::Protocol("bad".into()), "protocol_error", "protocol error: bad", 502),
        (MachineError::Rejected { code: -3 }, "machine_rejected", "machine rejected the request (machine error code -3)", 502),
        (MachineError::FileTooLarge { size: 10, limit: 5 }, "file_too_large", "design is 10 bytes but the machine accepts at most 5 bytes", 422),
        (MachineError::InsufficientStorage { size: 10, free: 0 }, "insufficient_storage", "not enough free memory on the machine: design is 10 bytes, 0 bytes free", 422),
        (MachineError::UnsupportedFormat { format: "s\"vg".into(), supported: "pes".into() }, "unsupported_format", "unsupported design format \"s\\\"vg\"; this machine accepts pes", 422),
        (MachineError::UploadFailed(500), "upload_failed", "upload rejected with HTTP status 500", 502),
        (MachineError::PairingRequired { hint: "replug".into() }, "pairing_required", "machine requires pairing: replug", 502),
    ];
    for (e, code, message, status) in cases {
        assert_eq!(e.code(), code);
        assert_eq!(e.message(), message);
        let api = ApiError::from_machine(&e);
        assert_eq!(api.status, status);
        assert_eq!(api.code, code);
        assert_eq!(api.message, message);
    }
}

#[test]
fn api_error_constructors() {
    let e = ApiError::unauthorized();
    assert_eq!((e.status, e.code.as_str(), e.message.as_str()), (401, "unauthorized", "missing or invalid API token"));
    let e = ApiError::not_found("gone".into());
    assert_eq!((e.status, e.code.as_str()), (404, "not_found"));
    let e = ApiError::internal("disk".into());
    assert_eq!((e.status, e.code.as_str()), (500, "internal_error"));
    let e = ApiError::bad_request("invalid_ip", "no".into());
    assert_eq!((e.status, e.code.as_str()), (400, "invalid_ip"));
}

#[test]
fn retries_are_bounded_and_skip_rejections() {
    let t = MachineError::Timeout;
    assert_eq!(after_failure(0, 4, &t, false), RetryDecision::RetryAfterDelay);
    assert_eq!(after_failure(2, 4, &t, false), RetryDecision::RetryAfterDelay);
    assert_eq!(after_failure(3, 4, &t, false), RetryDecision::Stop);
    let r = MachineError::Rejected { code: 1 };
    assert_eq!(after_failure(0, 4, &r, false), RetryDecision::Stop);
    let f = MachineError::FileTooLarge { size: 2, limit: 1 };
    assert_eq!(after_failure(0, 4, &f, false), RetryDecision::Stop);
}

#[test]
fn uploads_are_retried_at_most_once() {
    let t = MachineError::Timeout;
    assert_eq!(after_failure(0, UPLOAD_RETRIES, &t, false), RetryDecision::RetryAfterDelay);
    assert_eq!(after_failure(1, UPLOAD_RETRIES, &t, false), RetryDecision::Stop);
    assert_eq!(READ_RETRIES, 4);
}

#[test]
fn first_claiming_backend_wins() {
    assert_eq!(identify(&vec![Ok(false), Ok(true), Ok(true)]), Ok(Some(1)));
    assert_eq!(identify(&vec![Ok(false), Err(MachineError::Timeout)]), Ok(None));
    assert_eq!(
        identify(&vec![Err(MachineError::Timeout), Err(MachineError::Unreachable("x".into()))]),
        Err(MachineError::Unreachable("x".into()))
    );
    assert_eq!(identify(&vec![]), Ok(None));
}

#[test]
fn sweeps_cover_private_slash_24s() {
    let nets = candidate_networks(&vec![
        (false, NetAddr::V4(192, 168, 1, 7)),
        (false, NetAddr::V4(192, 168, 1, 9)),
        (true, NetAddr::V4(127, 0, 0, 1)),
        (false, NetAddr::V4(8, 8, 8, 8)),
        (false, NetAddr::V4(10, 0, 3, 2)),
        (false, NetAddr::V6(1)),
    ]);
    assert_eq!(nets, vec![NetAddr::V4(10, 0, 3, 0), NetAddr::V4(192, 168, 1, 0)]);
    let hosts = sweep_addresses(&nets);
    assert_eq!(hosts.len(), 2 * 254);
    assert_eq!(hosts[0], NetAddr::V4(10, 0, 3, 1));
    assert_eq!(hosts[253], NetAddr::V4(10, 0, 3, 254));
    assert_eq!(hosts[254], NetAddr::V4(192, 168, 1, 1));
}

#[test]
fn dongle_candidates_are_unique_ipv4() {
    let found = vec![NetAddr::V4(10, 0, 0, 9), NetAddr::V6(5), NetAddr::V4(10, 0, 0, 2), NetAddr::V4(10, 0, 0, 9)];
    assert_eq!(dongle_candidates(&found), vec![NetAddr::V4(10, 0, 0, 2), NetAddr::V4(10, 0, 0, 9)]);
}

#[test]
fn jobs_are_listed_newest_first_and_settle() {
    let mut jobs = JobQueue::new();
    let a = jobs.enqueue(IP, "a.pes".into(), 10, 5);
    let b = jobs.enqueue(IP, "b.pes".into(), 20, 5);
    assert_eq!(a.id, "job-5-0");
    assert_eq!(b.id, "job-5-1");
    let listed: Vec<String> = jobs.list().into_iter().map(|j| j.id).collect();
    assert_eq!(listed, vec!["job-5-1".to_string(), "job-5-0".to_string()]);

    jobs.mark_uploading(&a.id);
    jobs.record_progress(&a.id, 4, 10);
    let r = jobs.get(&a.id).unwrap();
    assert_eq!((r.state, r.sent_bytes, r.total_bytes), (JobState::Uploading, 4, 10));
    jobs.settle(&a.id, Ok(UploadReceipt { bytes_sent: 10, stored_as: Some("A.PES".into()) }), 9);
    let r = jobs.get(&a.id).unwrap();
    assert_eq!(r.state, JobState::Done);
    assert_eq!(r.stored_as.as_deref(), Some("A.PES"));
    assert_eq!(r.finished_at_ms, Some(9));

    jobs.settle(&b.id, Err(MachineError::Timeout), 11);
    let r = jobs.get(&b.id).unwrap();
    assert_eq!(r.state, JobState::Failed);
    assert_eq!(r.error_code.as_deref(), Some("machine_timeout"));
    assert_eq!(r.error.as_deref(), Some("request to machine timed out"));
    assert_eq!(jobs.pending_count(), 0);
    // Unknown ids change nothing.
    jobs.mark_uploading("job-0-0");
    assert_eq!(jobs.list().len(), 2);
}

#[test]
fn enqueued_job_is_newest_found_and_pending() {
    let mut jobs = JobQueue::new();
    let first = jobs.enqueue(IP, "a.pes".into(), 3, 7);
    jobs.mark_done(&first.id, 3, None, 8);
    let before = jobs.pending_count();
    let job = jobs.enqueue(IP, "b.pes".into(), 12, 7);
    assert_ne!(job.id, first.id);
    assert_eq!(job.id, "job-7-1");
    assert_eq!(jobs.get(&job.id), Some(job.clone()));
    assert_eq!(jobs.list()[0].id, job.id);
    assert_eq!(jobs.pending_count(), before + 1);
}

#[test]
fn pruning_keeps_pending_and_the_newest_finished() {
    let mut jobs = JobQueue::new();
    let pending = jobs.enqueue(IP, "keep.pes".into(), 1, 0);
    let mut ids = Vec::new();
    for i in 0..(MAX_FINISHED_JOBS + 3) {
        let j = jobs.enqueue(IP, "x.pes".into(), 1, i as u64);
        jobs.mark_done(&j.id, 1, None, 1);
        ids.push(j.id);
    }
    jobs.prune();
    let left = jobs.list();
    assert_eq!(left.len(), MAX_FINISHED_JOBS + 1);
    assert!(jobs.get(&pending.id).is_some());
    assert!(jobs.get(&ids[0]).is_none());
    assert!(jobs.get(&ids[2]).is_none());
    assert!(jobs.get(&ids[3]).is_some());
}

#[test]
fn log_polling_by_sequence() {
    let mut logs = LogBuffer::new();
    assert_eq!(logs.last_seq(), 0);
    logs.info("one".into());
    logs.warn("two".into());
    logs.error("three".into());
    assert_eq!(logs.last_seq(), 3);
    let all = logs.since(0);
    assert_eq!(all.len(), 3);
    assert_eq!(all[1].level, LogLevel::Warn);
    let newer = logs.since(2);
    assert_eq!(newer.len(), 1);
    assert_eq!(newer[0].message, "three");
    assert!(logs.since(3).is_empty());
    assert_eq!(parse_after_seq(Some("2")), 2);
    assert_eq!(parse_after_seq(Some("x")), 0);
    assert_eq!(parse_after_seq(None), 0);
}

#[test]
fn the_log_keeps_the_newest_entries() {
    let mut logs = LogBuffer::new();
    for i in 0..(LOG_CAPACITY + 5) {
        logs.push_at(LogLevel::Info, format!("m{i}"), i as u64);
    }
    let all = logs.since(0);
    assert_eq!(all.len(), LOG_CAPACITY);
    assert_eq!(all[0].seq, 6);
    assert_eq!(all[LOG_CAPACITY - 1].seq, (LOG_CAPACITY + 5) as u64);
}

#[test]
fn configuration_loading() {
    match load_decision(ConfigFile::Missing) {
        ConfigLoad::Create(c) => {
            assert_eq!(c.api_token.len(), 32);
            assert!(c.api_token.chars().all(|ch| ch.is_ascii_hexdigit()));
            assert!(c.allowed_origins.is_empty() && c.machines.is_empty());
        }
        other => panic!("unexpected {other:?}"),
    }
    let stored = AppConfig::new_with_token();
    match load_decision(ConfigFile::Parsed(stored.clone())) {
        ConfigLoad::Use(c) => assert_eq!(c, stored),
        other => panic!("unexpected {other:?}"),
    }
    match load_decision(ConfigFile::Corrupt("bad json".into())) {
        ConfigLoad::Fail(m) => assert_eq!(m, "bad json"),
        other => panic!("unexpected {other:?}"),
    }
    match load_decision(ConfigFile::Unreadable("denied".into())) {
        ConfigLoad::Fail(m) => assert_eq!(m, "denied"),
        other => panic!("unexpected {other:?}"),
    }
    assert_ne!(AppConfig::new_with_token().api_token, stored.api_token);
}

#[test]
fn setup_ports_and_lines() {
    assert!(is_setup_port(true, USB_VID, USB_PID, "/dev/cu.usbmodem1101", true));
    assert!(!is_setup_port(true, USB_VID, USB_PID, "/dev/tty.usbmodem1101", true));
    assert!(is_setup_port(true, USB_VID, USB_PID, "/dev/ttyACM0", false));
    assert!(!is_setup_port(true, USB_VID, 1, "COM5", false));
    assert!(!is_setup_port(false, USB_VID, USB_PID, "COM5", false));

    let mut buf = b"{\"id\":1}\r\npartial".to_vec();
    assert_eq!(take_line(&mut buf), Some(b"{\"id\":1}".to_vec()));
    assert_eq!(buf, b"partial".to_vec());
    assert_eq!(take_line(&mut buf), None);
    assert_eq!(buf, b"partial".to_vec());
}

#[test]
fn response_lines_are_matched_by_id() {
    let line = |parsed, has_event, id, ok| ResponseLine {
        parsed,
        has_event,
        id,
        ok,
        error_code: None,
        error_message: None,
    };
    assert_eq!(classify_line(&line(false, false, Some(7), Some(true)), 7), LineAction::Skip);
    assert_eq!(classify_line(&line(true, true, Some(7), None), 7), LineAction::Event);
    assert_eq!(classify_line(&line(true, false, Some(6), Some(true)), 7), LineAction::Stale);
    assert_eq!(classify_line(&line(true, false, Some(7), Some(true)), 7), LineAction::Done);
    assert_eq!(
        classify_line(&line(true, false, Some(7), Some(false)), 7),
        LineAction::Failed(SetupError::new("dongle_error", "the dongle rejected the request"))
    );
}

#[test]
fn provisioning_and_firmware_updates() {
    let (outcome, token) = provision_outcome(
        "Home".into(),
        "192.168.1.50".into(),
        Some(PairAnswer { serial: Some("S1".into()), token: Some("T1".into()) }),
    );
    assert!(outcome.paired);
    assert_eq!(token, Some(("S1".to_string(), "T1".to_string())));
    let (outcome, token) = provision_outcome("Home".into(), "x".into(), None);
    assert!(!outcome.paired && outcome.serial.is_none() && token.is_none());

    let progress = UpdateLine { event: Some("update".into()), written: Some(10), total: None, ok: None, error_code: None, error_message: None };
    assert_eq!(update_step(&progress, 99), UpdateStep::Progress(UpdateProgress { written: 10, total: 99 }));
    let done = UpdateLine { event: None, written: None, total: None, ok: Some(true), error_code: None, error_message: None };
    assert_eq!(update_step(&done, 99), UpdateStep::Done);
    let failed = UpdateLine { ok: Some(false), ..done.clone() };
    assert_eq!(
        update_step(&failed, 99),
        UpdateStep::Failed(SetupError::new("update_failed", "the dongle rejected the image"))
    );
    let noise = UpdateLine { ok: None, ..done };
    assert_eq!(update_step(&noise, 99), UpdateStep::Ignore);
}

#[test]
fn server_health_and_discovery_state() {
    let mut health = ServerHealth::new(PORT);
    assert_eq!((health.running, health.port, health.error.clone()), (false, 17831, None));
    health.mark_listening();
    assert!(health.running && health.error.is_none());
    health.mark_failed("could not bind".into());
    assert_eq!((health.running, health.error.as_deref()), (false, Some("could not bind")));

    let mut cache = DiscoveryCache::new();
    assert_eq!(cache.begin_sweep(), Ok(()));
    assert_eq!(cache.begin_sweep(), Err(Rejection::DiscoveryRunning));
    assert_eq!(Rejection::DiscoveryRunning.code(), "discovery_running");
    let found: Vec<DiscoveredMachine> = Vec::new();
    cache.finish_sweep(found, 42);
    assert_eq!(cache.completed_at_ms, Some(42));
    assert!(!cache.running);
    assert_eq!(cache.begin_sweep(), Ok(()));
    cache.abandon_sweep();
    assert_eq!(cache.completed_at_ms, Some(42));
    assert!(!cache.running);
}

#[test]
fn shell_decisions() {
    assert_eq!(tray_action("show"), TrayAction::Show);
    assert_eq!(tray_action("quit"), TrayAction::Quit);
    assert_eq!(tray_action("autostart"), TrayAction::ToggleAutostart);
    assert_eq!(tray_action("other"), TrayAction::Ignore);
    assert!(autostart_checkmark(false, true));
    assert!(autostart_checkmark(true, false));
    assert!(!autostart_checkmark(true, true));
    assert!(starts_minimized(&vec!["app".into(), "--minimized".into()]));
    assert!(!starts_minimized(&vec!["app".into()]));
}
