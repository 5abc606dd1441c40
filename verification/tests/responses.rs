use cbr_client::error::{check_response, is_legacy_error_payload, summarize_body};
use cbr_client::ResponseError;

#[test]
fn legacy_error_payload_is_recognised_before_the_status() {
    let error = check_response(200, b"{Error:true}").unwrap_err();
    assert_eq!(
        error,
        ResponseError::LegacyErrorResponse {
            payload_preview: "{Error:true}".to_owned(),
            payload_size: "{Error:true}".len(),
        }
    );
    let error = check_response(500, b"{Error:true}").unwrap_err();
    assert!(matches!(error, ResponseError::LegacyErrorResponse { .. }));
}

#[test]
fn legacy_error_payload_allows_spaces_quotes_and_case() {
    assert!(is_legacy_error_payload(b" {  eRrOr : TruE  } "));
    assert!(is_legacy_error_payload(b"{\"Error\": \"true\"}"));
    assert!(is_legacy_error_payload(b"{'error':true,}"));
    assert!(is_legacy_error_payload(b"\n{ error : true , }\n"));
}

#[test]
fn other_payloads_are_not_legacy_errors() {
    assert!(!is_legacy_error_payload(b"{Error:false}"));
    assert!(!is_legacy_error_payload(b"{Error:true:1}"));
    assert!(!is_legacy_error_payload(b"{Errors:true}"));
    assert!(!is_legacy_error_payload(b"[{\"id\":1}]"));
    assert!(!is_legacy_error_payload(b"{"));
    assert!(!is_legacy_error_payload(b""));
    assert!(!is_legacy_error_payload(b"{Error true}"));
    assert!(!is_legacy_error_payload(&[0x7b, 0xff, 0x7d]));
}

#[test]
fn non_success_status_is_an_error_with_the_body() {
    let error = check_response(503, b"service unavailable").unwrap_err();
    assert_eq!(
        error,
        ResponseError::Status {
            status: 503,
            body_preview: "service unavailable".to_owned(),
            body_size: "service unavailable".len(),
        }
    );
    assert!(check_response(404, b"").is_err());
    assert!(check_response(199, b"[]").is_err());
    assert!(check_response(300, b"[]").is_err());
}

#[test]
fn success_status_passes_to_parsing() {
    assert_eq!(check_response(200, b"{not-json"), Ok(()));
    assert_eq!(check_response(299, b"[]"), Ok(()));
}

#[test]
fn summary_of_a_short_body_is_the_body() {
    let (preview, size) = summarize_body(b"{not-json");
    assert_eq!(preview, "{not-json");
    assert_eq!(size, 9);
}

#[test]
fn summary_of_a_long_body_is_cut() {
    let body = vec![b'a'; 600];
    let (preview, size) = summarize_body(&body);
    assert_eq!(size, 600);
    assert_eq!(preview, format!("{}...<truncated>", "a".repeat(512)));
    let body = vec![b'b'; 512];
    let (preview, size) = summarize_body(&body);
    assert_eq!(size, 512);
    assert_eq!(preview, "b".repeat(512));
}

#[test]
fn summary_replaces_invalid_utf8() {
    let (preview, size) = summarize_body(&[b'o', b'k', 0xff]);
    assert_eq!(size, 3);
    assert_eq!(preview, "ok\u{fffd}");
}

#[test]
fn legacy_error_payload_ignores_ascii_white_space_and_case() {
    let bodies: [&[u8]; 4] = [b"{Error:true}", b"{Error:false}", b"[1,2]", b"{'error' : TRUE ,}"];
    for body in bodies {
        let expected = is_legacy_error_payload(body);
        let wrapped = [b" \t\r\n".as_slice(), body, b"\x0c \n".as_slice()].concat();
        assert_eq!(is_legacy_error_payload(&wrapped), expected);
        assert_eq!(is_legacy_error_payload(&body.to_ascii_uppercase()), expected);
        assert_eq!(is_legacy_error_payload(&body.to_ascii_lowercase()), expected);
    }
}

#[test]
fn previews_of_valid_text_are_the_text() {
    let (preview, size) = summarize_body(b"service unavailable");
    assert_eq!(preview, "service unavailable");
    assert_eq!(size, 19);
    let long = vec![b'a'; 600];
    let (preview, size) = summarize_body(&long);
    assert_eq!(preview, format!("{}...<truncated>", "a".repeat(512)));
    assert_eq!(size, 600);
}
