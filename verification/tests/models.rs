use ember_bridge::emberconnect::models::{
    DongleFile, DongleInfo, DongleStorage, ErrorBody, ErrorResponse, FileList, Health,
};
use ember_bridge::emberconnect::client::{check_card_space, dongle_storage, map_api_error};
use ember_bridge::machine::error::MachineError;
use serde_json::Value;

fn text(v: &Value, key: &str) -> Option<String> {
    v.get(key).and_then(|x| x.as_str()).map(|s| s.to_string())
}

fn number(v: &Value, key: &str) -> u64 {
    v.get(key).and_then(|x| x.as_u64()).unwrap_or(0)
}

/// The dongle's health answer, read as leniently as the app reads it.
fn health_from(json: &str) -> Health {
    let v: Value = serde_json::from_str(json).unwrap();
    Health {
        ok: v.get("ok").and_then(|x| x.as_bool()).unwrap_or(false),
        name: text(&v, "name").unwrap_or_default(),
        version: text(&v, "version"),
        serial: text(&v, "serial"),
        device_name: text(&v, "deviceName").unwrap_or_default(),
    }
}

#[test]
fn health_parses_and_identifies() {
    let health = health_from(
        r#"{"ok":true,"name":"EmberConnect","version":"0.1.0","serial":"A1B2C3D4E5F6"}"#,
    );
    assert!(health.is_ember_connect());
    assert_eq!(health.serial.as_deref(), Some("A1B2C3D4E5F6"));
}

#[test]
fn foreign_devices_are_not_ours() {
    // Some random LAN thing answering 200 with JSON on port 80.
    let health = health_from(r#"{"ok":true,"name":"SmartToaster"}"#);
    assert!(!health.is_ember_connect());
    // Non-JSON-matching shapes should still deserialize leniently.
    let health = health_from(r#"{}"#);
    assert!(!health.is_ember_connect());
}

#[test]
fn a_dongle_that_is_not_ok_is_not_ours() {
    let health = health_from(r#"{"ok":false,"name":"EmberConnect"}"#);
    assert!(!health.is_ember_connect());
}

#[test]
fn info_and_files_parse() {
    let v: Value = serde_json::from_str(
        r#"{"name":"EmberConnect","version":"0.1.0","serial":"A1B2C3D4E5F6",
            "ip":"192.168.1.50","storage":{"totalBytes":31914983424,"freeBytes":31914950656}}"#,
    )
    .unwrap();
    let info = DongleInfo {
        name: text(&v, "name").unwrap_or_default(),
        version: text(&v, "version"),
        serial: text(&v, "serial"),
        storage: DongleStorage {
            total_bytes: number(&v["storage"], "totalBytes"),
            free_bytes: number(&v["storage"], "freeBytes"),
        },
    };
    assert_eq!(info.storage.total_bytes, 31_914_983_424);

    let v: Value =
        serde_json::from_str(r#"{"files":[{"name":"rose.pes","size":24576}]}"#).unwrap();
    let files = FileList {
        files: v["files"]
            .as_array()
            .unwrap()
            .iter()
            .map(|f| DongleFile { name: text(f, "name").unwrap_or_default(), size: number(f, "size") })
            .collect(),
    };
    assert_eq!(files.files[0].name, "rose.pes");

    // What the library makes of the decoded answers.
    let storage = dongle_storage(&info, files);
    assert_eq!(storage.total_bytes, 31_914_983_424);
    assert_eq!(storage.free_bytes, 31_914_950_656);
    assert_eq!(storage.used_bytes, 32_768);
    assert_eq!(storage.files, vec!["rose.pes".to_string()]);
    assert_eq!(check_card_space(24_576, &info), Ok(()));
}

#[test]
fn error_envelope_parses() {
    let v: Value = serde_json::from_str(
        r#"{"error":{"code":"insufficient_storage","message":"not enough free space"}}"#,
    )
    .unwrap();
    let err = ErrorResponse {
        error: ErrorBody {
            code: text(&v["error"], "code").unwrap_or_default(),
            message: text(&v["error"], "message").unwrap_or_default(),
        },
    };
    assert_eq!(err.error.code, "insufficient_storage");
    assert_eq!(
        map_api_error(507, &err.error.code, 1000),
        MachineError::InsufficientStorage { size: 1000, free: 0 }
    );
}
