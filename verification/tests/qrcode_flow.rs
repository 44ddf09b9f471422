use bili_qr::classify_poll;
use bili_qr::decode_generate_response;
use bili_qr::decode_poll_response;
use bili_qr::find_cookie;
use bili_qr::find_csrf_cookie;
use bili_qr::generate_url;
use bili_qr::poll_url;
use bili_qr::ProtocolViolation;
use bili_qr::QrError;
use bili_qr::QrGenResponse;
use bili_qr::QrScanStatus;

fn gen_body(url: &str, key: &str) -> String {
    format!(
        "{{\"code\":0,\"message\":\"0\",\"ttl\":180,\"data\":{{\"url\":\"{}\",\"qrcode_key\":\"{}\"}}}}",
        url, key
    )
}

#[test]
fn generate_returns_payload_verbatim() {
    let url = "https://passport.bilibili.com/h5-app/passport/login/scan?qrcode_key=abc123";
    let body = gen_body(url, "abc123");
    let got = decode_generate_response(&body);
    assert_eq!(
        got,
        Ok(QrGenResponse { url: url.to_string(), qrcode_key: "abc123".to_string() })
    );
}

#[test]
fn generate_rejects_non_json() {
    assert_eq!(decode_generate_response("not json at all"), Err(QrError::Decode));
    assert_eq!(decode_generate_response(""), Err(QrError::Decode));
}

#[test]
fn generate_rejects_missing_fields() {
    // no data.qrcode_key
    let body = "{\"code\":0,\"message\":\"0\",\"ttl\":180,\"data\":{\"url\":\"u\"}}";
    assert_eq!(decode_generate_response(body), Err(QrError::Decode));
    // no message
    let body = "{\"code\":0,\"ttl\":180,\"data\":{\"url\":\"u\",\"qrcode_key\":\"k\"}}";
    assert_eq!(decode_generate_response(body), Err(QrError::Decode));
    // no data at all
    let body = "{\"code\":0,\"message\":\"0\",\"ttl\":180}";
    assert_eq!(decode_generate_response(body), Err(QrError::Decode));
}

#[test]
fn generate_rejects_ill_typed_fields() {
    // ttl is a string, not an integer
    let body = "{\"code\":0,\"message\":\"0\",\"ttl\":\"soon\",\"data\":{\"url\":\"u\",\"qrcode_key\":\"k\"}}";
    assert_eq!(decode_generate_response(body), Err(QrError::Decode));
    // url is a number, not a string
    let body = "{\"code\":0,\"message\":\"0\",\"ttl\":180,\"data\":{\"url\":7,\"qrcode_key\":\"k\"}}";
    assert_eq!(decode_generate_response(body), Err(QrError::Decode));
}

#[test]
fn poll_confirmed_login_succeeds() {
    let body = "{\"code\":0,\"message\":\"0\",\"data\":{\"code\":0,\"timestamp\":1662689007,\"url\":\"https://www.example.test\"}}";
    let got = decode_poll_response(body, Some("csrf-token-value".to_string()));
    assert_eq!(
        got,
        Ok(QrScanStatus::Success { timestamp: 1662689007, csrf: "csrf-token-value".to_string() })
    );
}

#[test]
fn poll_code_zero_without_cookie_is_no_silent_success() {
    let body = "{\"data\":{\"code\":0,\"timestamp\":1662689007}}";
    let got = decode_poll_response(body, None);
    assert_eq!(got, Err(QrError::Protocol(ProtocolViolation::MissingCsrf)));
}

#[test]
fn poll_code_zero_without_timestamp_is_protocol_error() {
    let body = "{\"data\":{\"code\":0}}";
    let got = decode_poll_response(body, Some("tok".to_string()));
    assert_eq!(got, Err(QrError::Protocol(ProtocolViolation::MissingTimestamp)));
}

#[test]
fn poll_waiting_codes_map_regardless_of_other_fields() {
    let expired = "{\"data\":{\"code\":86038,\"timestamp\":5,\"message\":\"expired\"}}";
    assert_eq!(
        decode_poll_response(expired, Some("tok".to_string())),
        Ok(QrScanStatus::Expired)
    );
    let unconfirmed = "{\"data\":{\"code\":86090}}";
    assert_eq!(decode_poll_response(unconfirmed, None), Ok(QrScanStatus::Unconfirmed));
    let unscanned = "{\"data\":{\"code\":86101,\"url\":\"\"}}";
    assert_eq!(decode_poll_response(unscanned, None), Ok(QrScanStatus::Unscanned));
}

#[test]
fn poll_unknown_code_is_protocol_error() {
    let body = "{\"data\":{\"code\":99999}}";
    let got = decode_poll_response(body, Some("tok".to_string()));
    assert_eq!(got, Err(QrError::Protocol(ProtocolViolation::UnknownCode(99999))));
}

#[test]
fn poll_missing_or_ill_typed_code_is_protocol_error() {
    let no_code = "{\"data\":{\"timestamp\":3}}";
    assert_eq!(
        decode_poll_response(no_code, None),
        Err(QrError::Protocol(ProtocolViolation::MissingCode))
    );
    let stringy = "{\"data\":{\"code\":\"zero\"}}";
    assert_eq!(
        decode_poll_response(stringy, None),
        Err(QrError::Protocol(ProtocolViolation::MissingCode))
    );
    let negative = "{\"data\":{\"code\":-3}}";
    assert_eq!(
        decode_poll_response(negative, None),
        Err(QrError::Protocol(ProtocolViolation::MissingCode))
    );
}

#[test]
fn poll_non_json_body_is_decode_error() {
    assert_eq!(decode_poll_response("<html>502</html>", None), Err(QrError::Decode));
}

#[test]
fn classify_poll_matches_the_table() {
    assert_eq!(
        classify_poll(0, Some(42), Some("v".to_string())),
        Ok(QrScanStatus::Success { timestamp: 42, csrf: "v".to_string() })
    );
    assert_eq!(
        classify_poll(0, None, Some("v".to_string())),
        Err(QrError::Protocol(ProtocolViolation::MissingTimestamp))
    );
    assert_eq!(
        classify_poll(0, None, None),
        Err(QrError::Protocol(ProtocolViolation::MissingTimestamp))
    );
    assert_eq!(classify_poll(86038, None, None), Ok(QrScanStatus::Expired));
    assert_eq!(classify_poll(86090, None, None), Ok(QrScanStatus::Unconfirmed));
    assert_eq!(classify_poll(86101, None, None), Ok(QrScanStatus::Unscanned));
    assert_eq!(
        classify_poll(1, None, None),
        Err(QrError::Protocol(ProtocolViolation::UnknownCode(1)))
    );
}

#[test]
fn terminal_statuses() {
    assert!(QrScanStatus::Success { timestamp: 1, csrf: "c".to_string() }.is_terminal());
    assert!(QrScanStatus::Expired.is_terminal());
    assert!(!QrScanStatus::Unconfirmed.is_terminal());
    assert!(!QrScanStatus::Unscanned.is_terminal());
}

#[test]
fn offending_field_names() {
    assert_eq!(ProtocolViolation::MissingCode.offending_field(), "data.code");
    assert_eq!(ProtocolViolation::MissingTimestamp.offending_field(), "data.timestamp");
    assert_eq!(ProtocolViolation::MissingCsrf.offending_field(), "bili_jct");
    assert_eq!(ProtocolViolation::UnknownCode(7).offending_field(), "data.code");
}

#[test]
fn cookie_lookup_finds_first_match() {
    let jar = vec![
        ("SESSDATA".to_string(), "sess".to_string()),
        ("bili_jct".to_string(), "first".to_string()),
        ("bili_jct".to_string(), "second".to_string()),
    ];
    assert_eq!(find_csrf_cookie(&jar), Some("first".to_string()));
    assert_eq!(find_cookie(&jar, "SESSDATA"), Some("sess".to_string()));
    assert_eq!(find_cookie(&jar, "DedeUserID"), None);
    let empty: Vec<(String, String)> = Vec::new();
    assert_eq!(find_csrf_cookie(&empty), None);
}

#[test]
fn endpoint_urls() {
    assert_eq!(
        generate_url(),
        "https://passport.bilibili.com/x/passport-login/web/qrcode/generate"
    );
    assert_eq!(
        poll_url("abc123"),
        "https://passport.bilibili.com/x/passport-login/web/qrcode/poll?qrcode_key=abc123"
    );
}

#[test]
fn full_login_scenario() {
    // The generator answers with a key ...
    let body = gen_body("https://passport.bilibili.com/h5-app/passport/login/scan?qrcode_key=abc123", "abc123");
    let gen = decode_generate_response(&body).unwrap();
    assert_eq!(gen.qrcode_key, "abc123");

    // ... which the caller interpolates into the poll URL ...
    let url = poll_url(&gen.qrcode_key);
    assert_eq!(
        url,
        "https://passport.bilibili.com/x/passport-login/web/qrcode/poll?qrcode_key=abc123"
    );

    // ... and polls until the user confirms: not scanned, scanned but
    // unconfirmed, then confirmed with a session cookie set.
    let first = decode_poll_response("{\"data\":{\"code\":86101}}", None).unwrap();
    assert_eq!(first, QrScanStatus::Unscanned);
    assert!(!first.is_terminal());

    let second = decode_poll_response("{\"data\":{\"code\":86090}}", None).unwrap();
    assert_eq!(second, QrScanStatus::Unconfirmed);
    assert!(!second.is_terminal());

    let jar = vec![
        ("DedeUserID".to_string(), "12345".to_string()),
        ("bili_jct".to_string(), "csrf-token-value".to_string()),
    ];
    let csrf = find_csrf_cookie(&jar);
    let last = decode_poll_response(
        "{\"data\":{\"code\":0,\"timestamp\":1662689007}}",
        csrf,
    )
    .unwrap();
    assert_eq!(
        last,
        QrScanStatus::Success { timestamp: 1662689007, csrf: "csrf-token-value".to_string() }
    );
    assert!(last.is_terminal());
}
