use ember_bridge::brother::models::SewingResponse;
use ember_bridge::brother::protocol::{
    multipart_boundary, parse_sewing_response, sanitize_filename, status_body, truncate,
    upload_body, upload_content_type,
};
use ember_bridge::machine::error::MachineError;

/// Response captured from an Innov-is BP1530L (note the firmware's
/// misspelled root element).
const CAPTURED_STATUS: &str = r#"<respose_info>
  <respose_status><error_code>0</error_code></respose_status>
  <term_info><session_id>0</session_id></term_info>
  <data_path>
    <upload_path>/sewing/dataupl.cgi</upload_path>
    <upload_size>4194304</upload_size>
    <upload_freesize>4133845</upload_freesize>
  </data_path>
  <files>
    <file_name>32769.PES</file_name>
    <file_name>32770.PES</file_name>
  </files>
</respose_info>"#;

#[test]
fn parses_captured_status_response() {
    let parsed = parse_sewing_response(CAPTURED_STATUS).unwrap();
    assert_eq!(
        parsed,
        SewingResponse {
            error_code: 0,
            session_id: Some("0".into()),
            upload_path: Some("/sewing/dataupl.cgi".into()),
            upload_size: Some(4_194_304),
            upload_freesize: Some(4_133_845),
            files: vec!["32769.PES".into(), "32770.PES".into()],
        }
    );
}

#[test]
fn missing_error_code_is_a_protocol_error() {
    assert!(matches!(
        parse_sewing_response("<html>gateway error</html>"),
        Err(MachineError::Protocol(_))
    ));
}

#[test]
fn status_body_matches_capture() {
    assert_eq!(
        status_body(),
        "req_sessionid=0&req_appid=23&req_appver=1.2.0&req_appstate=2"
    );
}

#[test]
fn upload_body_matches_captured_layout() {
    let boundary = multipart_boundary("0123456789ab");
    let body = upload_body(&boundary, "rose.pes", b"#PES0001");
    let text = String::from_utf8_lossy(&body);

    let expected = "-----------------------------0123456789ab\r\n\
Content-Disposition:form-data;name=\"req_parameter\";filename=\"req_parameter\"\r\n\
Content-Type:application/x-www-form-urlencoded\r\n\
\r\n\
req_sessionid=0&req_appid=23&req_appver=100&req_appstate=3\r\n\
-----------------------------0123456789ab\r\n\
Content-Disposition:form-data;name=\"myfile\";filename=\"rose.pes\"\r\n\
Content-Type:application/octet-stream\r\n\
\r\n\
#PES0001\r\n\
-----------------------------0123456789ab--\r\n";
    assert_eq!(text, expected);
}

#[test]
fn filenames_are_sanitized() {
    let body = upload_body("b", "wéird name\";.pes", b"x");
    let text = String::from_utf8_lossy(&body);
    assert!(text.contains("filename=\"w_ird_name__.pes\""));
}

#[test]
fn sanitizing_keeps_only_safe_characters() {
    assert_eq!(sanitize_filename("rose-01_a.PES"), "rose-01_a.PES");
    assert_eq!(sanitize_filename("a/b\\c:d.pes"), "a_b_c_d.pes");
    assert_eq!(sanitize_filename(""), "");
    for c in sanitize_filename("ünï cødé ✂.pes").chars() {
        assert!(c.is_ascii_alphanumeric() || c == '.' || c == '-' || c == '_');
    }
}

#[test]
fn content_type_names_the_boundary() {
    let boundary = multipart_boundary("abc");
    assert_eq!(boundary, format!("{}abc", "-".repeat(27)));
    assert_eq!(
        upload_content_type(&boundary),
        format!("multipart/form-data;boundary={}abc", "-".repeat(27))
    );
}

#[test]
fn error_code_rejection_is_parsed_not_judged() {
    let parsed = parse_sewing_response("<a><error_code> -7 </error_code></a>").unwrap();
    assert_eq!(parsed.error_code, -7);
    assert_eq!(parsed.session_id, None);
    assert_eq!(parsed.upload_size, None);
    assert!(parsed.files.is_empty());
}

#[test]
fn unparsable_numbers_are_absent() {
    let parsed = parse_sewing_response(
        "<error_code>0</error_code><upload_size>lots</upload_size><upload_freesize>12</upload_freesize>",
    )
    .unwrap();
    assert_eq!(parsed.upload_size, None);
    assert_eq!(parsed.upload_freesize, Some(12));
}

#[test]
fn unclosed_tags_end_the_file_list() {
    let parsed =
        parse_sewing_response("<error_code>0</error_code><file_name> a.pes </file_name><file_name>b.pes")
            .unwrap();
    assert_eq!(parsed.files, vec!["a.pes".to_string()]);
}

#[test]
fn error_message_quotes_at_most_200_characters() {
    let long = "x".repeat(300);
    match parse_sewing_response(&long) {
        Err(MachineError::Protocol(m)) => {
            assert_eq!(
                m,
                format!("machine response has no parsable <error_code>: {}", "x".repeat(200))
            );
        }
        other => panic!("unexpected {other:?}"),
    }
    match parse_sewing_response("<html>gateway error</html>") {
        Err(MachineError::Protocol(m)) => assert_eq!(
            m,
            "machine response has no parsable <error_code>: <html>gateway error</html>"
        ),
        other => panic!("unexpected {other:?}"),
    }
}

#[test]
fn truncate_counts_characters() {
    assert_eq!(truncate("héllo", 2), "hé");
    assert_eq!(truncate("abc", 10), "abc");
    assert_eq!(truncate("abc", 0), "");
}

#[test]
fn every_closed_file_name_is_listed_trimmed_in_order() {
    let parsed = parse_sewing_response(
        "<error_code>0</error_code><file_name>1</file_name><file_name> 2 </file_name><file_name>3",
    )
    .unwrap();
    assert_eq!(parsed.files, vec!["1".to_string(), "2".to_string()]);
}
