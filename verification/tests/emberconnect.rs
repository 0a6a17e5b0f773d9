use ember_bridge::emberconnect::backend::EmberConnectBackend;
use ember_bridge::emberconnect::client::{
    check_card_space, check_is_dongle, common_formats, dongle_machine_info, dongle_storage,
    map_api_error, pairing_hint, stale_token_error, stream_progress, upload_answer, read_answer, ReadAnswer, UploadAnswer,
};
use ember_bridge::emberconnect::models::{DongleFile, DongleInfo, DongleStorage, FileList, Health};
use ember_bridge::emberconnect::tokens::TokenStore;
use ember_bridge::emberconnect::upload::{DongleAction, DonglePhase, DongleReply, DongleUpload};
use ember_bridge::machine::error::MachineError;
use ember_bridge::machine::models::UploadReceipt;
use ember_bridge::machine::net::NetAddr;
use ember_bridge::machine::retry::{classify_transport, is_retryable};

const LOCALHOST: NetAddr = NetAddr::V4(127, 0, 0, 1);

fn mock_health() -> Health {
    Health {
        ok: true,
        name: "EmberConnect".into(),
        version: Some("0.1.0".into()),
        serial: Some("A1B2C3D4E5F6".into()),
        device_name: String::new(),
    }
}

fn mock_info(free_bytes: u64) -> DongleInfo {
    DongleInfo {
        name: "EmberConnect".into(),
        version: Some("0.1.0".into()),
        serial: Some("A1B2C3D4E5F6".into()),
        storage: DongleStorage { total_bytes: 1_000_000, free_bytes },
    }
}

#[test]
fn probe_identifies_a_dongle_and_builds_identity() {
    let health = check_is_dongle(mock_health()).unwrap();
    let info = dongle_machine_info(&health, LOCALHOST);
    assert_eq!(info.identity.manufacturer, "emberconnect");
    assert_eq!(info.identity.name.as_deref(), Some("EmberConnect-E5F6"));
    assert_eq!(info.identity.serial.as_deref(), Some("A1B2C3D4E5F6"));
    assert_eq!(info.identity.firmware.as_deref(), Some("0.1.0"));
    assert!(info.capabilities.formats.iter().any(|f| f == "pes"));
    assert_eq!(info.identity.ip, LOCALHOST);

    let backend = EmberConnectBackend::new();
    assert_eq!(backend.manufacturer(), "emberconnect");
    assert_eq!(backend.probe_verdict(Ok(mock_health()), LOCALHOST), Ok(Some(info)));
}

#[test]
fn a_named_dongle_is_called_by_its_name() {
    let mut health = mock_health();
    health.device_name = "Sewing room".into();
    let info = dongle_machine_info(&health, LOCALHOST);
    assert_eq!(info.identity.name.as_deref(), Some("Sewing room"));
    health.device_name = String::new();
    health.serial = Some("E5F".into());
    assert_eq!(dongle_machine_info(&health, LOCALHOST).identity.name, None);
    health.serial = None;
    assert_eq!(dongle_machine_info(&health, LOCALHOST).identity.name, None);
}

#[test]
fn fallback_names_take_the_last_four_bytes() {
    let mut health = mock_health();
    health.serial = Some("ééé".into());
    assert_eq!(
        dongle_machine_info(&health, LOCALHOST).identity.name.as_deref(),
        Some("EmberConnect-éé")
    );
    health.serial = Some("abcé".into());
    assert_eq!(
        dongle_machine_info(&health, LOCALHOST).identity.name.as_deref(),
        Some("EmberConnect-bcé")
    );
    health.serial = Some("aé".into());
    assert_eq!(dongle_machine_info(&health, LOCALHOST).identity.name, None);
}

#[test]
fn probing_a_foreign_device_claims_nothing() {
    let backend = EmberConnectBackend::new();
    let mut health = mock_health();
    health.name = "SmartToaster".into();
    assert_eq!(backend.probe_verdict(Ok(health.clone()), LOCALHOST), Ok(None));
    let e = check_is_dongle(health).unwrap_err();
    assert_eq!(
        e,
        MachineError::Protocol("device at this address is not an EmberConnect dongle".into())
    );
    assert_eq!(backend.probe_verdict(Err(MachineError::Timeout), LOCALHOST), Err(MachineError::Timeout));
}

#[test]
fn storage_merges_stats_and_file_list() {
    let files = FileList { files: vec![DongleFile { name: "existing.pes".into(), size: 1024 }] };
    let storage = dongle_storage(&mock_info(400_000), files);
    assert_eq!(storage.total_bytes, 1_000_000);
    assert_eq!(storage.free_bytes, 400_000);
    assert_eq!(storage.used_bytes, 600_000);
    assert_eq!(storage.files, vec!["existing.pes".to_string()]);
}

#[test]
fn used_space_never_goes_negative() {
    let mut info = mock_info(0);
    info.storage = DongleStorage { total_bytes: 10, free_bytes: 20 };
    assert_eq!(dongle_storage(&info, FileList { files: vec![] }).used_bytes, 0);
}

#[test]
fn upload_streams_bytes_and_reports_progress() {
    let size = 100_000u64;
    assert_eq!(check_card_space(size, &mock_info(500_000)), Ok(()));
    let mut points = vec![stream_progress(0, size).sent_bytes];
    let mut sent = 0u64;
    while sent < size {
        sent += 16 * 1024;
        points.push(stream_progress(sent, size).sent_bytes);
    }
    let answer = upload_answer(201, "", Some("rose bud.pes".into()), size);
    let receipt = match answer {
        UploadAnswer::Stored(r) => r,
        other => panic!("unexpected {other:?}"),
    };
    points.push(size);
    assert_eq!(receipt.bytes_sent, 100_000);
    assert_eq!(receipt.stored_as.as_deref(), Some("rose bud.pes"));
    assert_eq!(*points.first().unwrap(), 0);
    assert_eq!(*points.last().unwrap(), 100_000);
    assert!(points.windows(2).all(|w| w[0] <= w[1]));
    assert!(points.iter().all(|p| *p <= size));
}

#[test]
fn full_card_maps_to_insufficient_storage() {
    let err = check_card_space(1000, &mock_info(10)).unwrap_err();
    assert!(matches!(err, MachineError::InsufficientStorage { size: 1000, .. }));
    assert_eq!(err, MachineError::InsufficientStorage { size: 1000, free: 10 });
}

#[test]
fn unreachable_dongle_is_a_transport_error() {
    let err = classify_transport(false, true, "connection refused".into());
    assert!(matches!(err, MachineError::Unreachable(_) | MachineError::Timeout));
    assert_eq!(classify_transport(true, true, "x".into()), MachineError::Timeout);
    assert_eq!(classify_transport(false, false, "x".into()), MachineError::Protocol("x".into()));
}

#[test]
fn error_envelopes_map_to_neutral_errors() {
    assert_eq!(
        map_api_error(507, "insufficient_storage", 1000),
        MachineError::InsufficientStorage { size: 1000, free: 0 }
    );
    assert_eq!(
        map_api_error(400, "invalid_filename", 1000),
        MachineError::Protocol("the dongle rejected the filename (FAT-illegal characters?)".into())
    );
    assert_eq!(map_api_error(400, "filename_required", 1000), MachineError::UploadFailed(400));
    assert_eq!(map_api_error(500, "", 1000), MachineError::UploadFailed(500));
    match upload_answer(507, "insufficient_storage", None, 7) {
        UploadAnswer::Failed(e) => assert_eq!(e, MachineError::InsufficientStorage { size: 7, free: 0 }),
        other => panic!("unexpected {other:?}"),
    }
}

#[test]
fn a_stale_token_is_repaired_and_retried() {
    assert_eq!(upload_answer(401, "", None, 10), UploadAnswer::Repair);
    let e = stale_token_error();
    assert_eq!(e, MachineError::Protocol("dongle token was stale; re-paired".into()));
    assert!(is_retryable(&e, true));
    assert!(!is_retryable(&MachineError::PairingRequired { hint: "h".into() }, true));
    assert!(is_retryable(&MachineError::PairingRequired { hint: "h".into() }, false));
}

#[test]
fn pairing_hint_falls_back_to_the_replug_advice() {
    assert_eq!(pairing_hint(Some("tap the button".into())), "tap the button");
    assert_eq!(
        pairing_hint(Some(String::new())),
        "unplug and replug the dongle, then try again within 5 minutes"
    );
    assert_eq!(pairing_hint(None), "unplug and replug the dongle, then try again within 5 minutes");
}

#[test]
fn common_formats_are_advertised() {
    assert_eq!(
        common_formats(),
        vec!["pes", "pec", "dst", "exp", "jef", "vp3", "hus", "vip", "xxx"]
    );
}

#[test]
fn a_token_read_back_is_the_one_written() {
    let mut store = TokenStore::new();
    assert_eq!(store.get("A1B2"), None);
    store.set("A1B2", "t1");
    store.set("C3D4", "t2");
    assert_eq!(store.get("A1B2").as_deref(), Some("t1"));
    store.set("A1B2", "t3");
    assert_eq!(store.get("A1B2").as_deref(), Some("t3"));
    assert_eq!(store.entries().len(), 2);
    assert!(store.forget("A1B2"));
    assert_eq!(store.get("A1B2"), None);
    assert!(!store.forget("A1B2"));
    assert_eq!(store.get("C3D4").as_deref(), Some("t2"));
}

#[test]
fn a_receipt_reports_the_stored_name() {
    assert_eq!(
        upload_answer(200, "", None, 3),
        UploadAnswer::Stored(UploadReceipt { bytes_sent: 3, stored_as: None })
    );
}

#[test]
fn a_refused_read_pairs_once_then_decodes() {
    assert_eq!(read_answer(401, false), ReadAnswer::Repair);
    assert_eq!(read_answer(401, true), ReadAnswer::Decode);
    assert_eq!(read_answer(200, false), ReadAnswer::Decode);
    assert_eq!(read_answer(404, false), ReadAnswer::Decode);
}

fn reply(status: u16, code: &str, stored_as: Option<&str>) -> DongleReply {
    DongleReply { status, error_code: code.to_string(), stored_as: stored_as.map(str::to_string) }
}

#[test]
fn a_full_card_gets_no_bytes() {
    let (mut up, action) = DongleUpload::start(5000);
    assert_eq!(action, DongleAction::FetchInfo);
    let action = up.on_info(Ok(mock_info(4999)));
    assert_eq!(
        action,
        DongleAction::Finish(Err(MachineError::InsufficientStorage { size: 5000, free: 4999 }))
    );
    assert_eq!(up.phase, DonglePhase::Finished);
}

#[test]
fn a_refused_token_is_repaired_and_the_design_sent_again() {
    let (mut up, _) = DongleUpload::start(100);
    assert_eq!(up.on_info(Ok(mock_info(100))), DongleAction::Send);
    assert_eq!(up.on_reply(Ok(reply(401, "", None))), DongleAction::Repair);
    assert_eq!(up.on_repaired(Ok(())), DongleAction::SendAfterDelay);
    assert_eq!(up.attempt, 1);
    assert_eq!(
        up.on_reply(Ok(reply(200, "", Some("ROSE.PES")))),
        DongleAction::Finish(Ok(UploadReceipt { bytes_sent: 100, stored_as: Some("ROSE.PES".into()) }))
    );
}

#[test]
fn a_second_refusal_ends_the_upload_with_the_stale_token_error() {
    let (mut up, _) = DongleUpload::start(100);
    up.on_info(Ok(mock_info(1000)));
    up.on_reply(Ok(reply(401, "", None)));
    assert_eq!(up.on_repaired(Ok(())), DongleAction::SendAfterDelay);
    assert_eq!(up.on_reply(Ok(reply(401, "", None))), DongleAction::Repair);
    assert_eq!(
        up.on_repaired(Ok(())),
        DongleAction::Finish(Err(MachineError::Protocol("dongle token was stale; re-paired".into())))
    );
}

#[test]
fn transport_failures_are_retried_once_and_rejections_never() {
    let (mut up, _) = DongleUpload::start(10);
    up.on_info(Ok(mock_info(10)));
    assert_eq!(up.on_reply(Err(MachineError::Timeout)), DongleAction::SendAfterDelay);
    assert_eq!(up.on_reply(Err(MachineError::Timeout)), DongleAction::Finish(Err(MachineError::Timeout)));

    let (mut up, _) = DongleUpload::start(10);
    up.on_info(Ok(mock_info(10)));
    assert_eq!(
        up.on_reply(Ok(reply(507, "insufficient_storage", None))),
        DongleAction::Finish(Err(MachineError::InsufficientStorage { size: 10, free: 0 }))
    );
}
