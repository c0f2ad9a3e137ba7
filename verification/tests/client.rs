use skitter_ro_client::client::{
    decode_batch, evaluate_response, Client, ClientError, Operation,
};
use skitter_ro_client::codec::encode;
use skitter_ro_client::record::{CompressedWeb, Web};

const USER: &str = "api_user";
const PASS: &str = "api_pass";

fn test_client() -> Client {
    Client::new(
        "https://example.com".to_string(),
        USER.to_string(),
        PASS.to_string(),
    )
}

fn b64(s: &str) -> Vec<u8> {
    base64::Engine::decode(&base64::engine::general_purpose::STANDARD, s).unwrap()
}

fn record(id: i64, created: &str, url: &str, payload: Vec<u8>) -> CompressedWeb {
    CompressedWeb {
        id,
        created: created.to_string(),
        url: url.to_string(),
        status: 200,
        response: payload,
    }
}

#[test]
fn stat_request_shape() {
    let c = test_client();
    let r = c.stat_request();
    assert_eq!(r.path, "v0/web/stat");
    assert!(r.query.is_empty());
    assert_eq!(r.user, USER);
    assert_eq!(r.pass, PASS);
    assert_eq!(r.user_agent, "skitter-ro-client-rs/0.0.1 +api_user");
}

#[test]
fn range_request_shape() {
    let c = test_client();
    let r = c.range_request(100, 200, Some("%foo%")).unwrap();
    assert_eq!(r.path, "v0/web/range");
    assert_eq!(
        r.query,
        vec![
            ("min_wid".to_string(), "100".to_string()),
            ("max_wid".to_string(), "200".to_string()),
            ("url_like".to_string(), "%foo%".to_string()),
        ]
    );
    assert_eq!(r.user, USER);
    assert_eq!(r.pass, PASS);
    assert_eq!(r.user_agent, "skitter-ro-client-rs/0.0.1 +api_user");
}

#[test]
fn range_request_without_filter() {
    let c = test_client();
    let r = c.range_request(-5, 995, None).unwrap();
    assert_eq!(
        r.query,
        vec![
            ("min_wid".to_string(), "-5".to_string()),
            ("max_wid".to_string(), "995".to_string()),
        ]
    );
}

#[test]
fn range_request_error_overlimit() {
    let c = test_client();
    let r = c.range_request(100, 1200, None);
    match r {
        Err(e) => assert_eq!(e.message(), "max_wid - min_wid must be less than 1000"),
        Ok(_) => panic!("a window of width 1100 must be refused"),
    }
}

#[test]
fn range_request_width_exactly_thousand_is_accepted() {
    let c = test_client();
    assert!(c.range_request(100, 1100, None).is_ok());
    assert!(c.range_request(100, 1101, None).is_err());
}

#[test]
fn evaluate_response_success_passes_body_through() {
    let r = evaluate_response(Operation::Range, 200, Ok(br#"{"entries":[]}"#.to_vec()));
    assert_eq!(r.unwrap(), br#"{"entries":[]}"#.to_vec());
}

#[test]
fn evaluate_response_error_failed_to_fetch() {
    let body = br#"{"err":1,"msg":"internal server error"}"#.to_vec();
    let r = evaluate_response(Operation::Range, 500, Ok(body));
    match r {
        Err(e) => assert_eq!(
            e.message(),
            "failed to fetch web range unexpected status: 500 Internal Server Error: b\"{\\\"err\\\":1,\\\"msg\\\":\\\"internal server error\\\"}\""
        ),
        Ok(_) => panic!("a 500 must be an error"),
    }
}

#[test]
fn evaluate_response_error_unreadable_body() {
    let r = evaluate_response(Operation::Stat, 502, Err("connection reset".to_string()));
    match r {
        Err(e) => assert_eq!(
            e.message(),
            "failed to fetch web stat unexpected status and failed to read body: 502 Bad Gateway: connection reset"
        ),
        Ok(_) => panic!("a 502 must be an error"),
    }
}

#[test]
fn evaluate_response_error_unknown_status_code() {
    let r = evaluate_response(Operation::Stat, 599, Ok(b"x".to_vec()));
    match r {
        Err(e) => assert_eq!(
            e.message(),
            r#"failed to fetch web stat unexpected status: 599 <unknown status code>: b"x""#
        ),
        Ok(_) => panic!("a 599 must be an error"),
    }
}

#[test]
fn evaluate_response_error_escapes_the_body() {
    let body = vec![0x01, b'"', b'\n', b'\\', 0x00, 0xff, b'A'];
    let r = evaluate_response(Operation::Range, 404, Ok(body));
    match r {
        Err(e) => assert_eq!(
            e.message(),
            "failed to fetch web range unexpected status: 404 Not Found: b\"\\x01\\\"\\n\\\\\\0\\xffA\""
        ),
        Ok(_) => panic!("a 404 must be an error"),
    }
}

#[test]
fn evaluate_response_error_body_fetch_failed_on_success_status() {
    let r = evaluate_response(Operation::Stat, 200, Err("timed out".to_string()));
    match r {
        Err(e) => assert_eq!(e.message(), "failed to fetch response body: timed out"),
        Ok(_) => panic!("an unreadable body must be an error"),
    }
}

#[test]
fn client_error_messages() {
    let e = ClientError::Transport {
        detail: "dns failure".to_string(),
    };
    assert_eq!(e.message(), "failed to send request: dns failure");
    let e = ClientError::Deserialize {
        detail: "expected value".to_string(),
    };
    assert_eq!(
        e.message(),
        "failed to deserialize response body: expected value"
    );
}

#[test]
fn decode_batch_empty_is_ok() {
    let r = decode_batch(Vec::new());
    assert_eq!(r.unwrap().len(), 0);
}

#[test]
fn decode_batch_decodes_in_order() {
    let entries = vec![
        record(
            100,
            "2023-06-01T23:24:25.065Z",
            "https://example.com/s/1/1",
            b64("AAAADHicS61IzC3ISVVIyk+pBAAfFwS7"),
        ),
        record(
            101,
            "2023-06-02T23:24:25.065Z",
            "https://example.com/s/1/2",
            b64("AAAADHicS61IzC3ISVVIyk+pBAAfFwS7"),
        ),
        record(
            102,
            "2023-06-03T23:24:25.065Z",
            "https://example.com/s/2/1",
            b64("AAAADHicS61IzC3ISVVIyk+pBAAfFwS7"),
        ),
    ];
    let webs = decode_batch(entries).unwrap();
    assert_eq!(webs.len(), 3);
    assert_eq!(
        webs[0],
        Web {
            id: 100,
            created: "2023-06-01T23:24:25.065Z".to_string(),
            url: "https://example.com/s/1/1".to_string(),
            status: 200,
            response: b"example body".to_vec(),
        }
    );
    assert_eq!(
        webs[1],
        Web {
            id: 101,
            created: "2023-06-02T23:24:25.065Z".to_string(),
            url: "https://example.com/s/1/2".to_string(),
            status: 200,
            response: b"example body".to_vec(),
        }
    );
    assert_eq!(
        webs[2],
        Web {
            id: 102,
            created: "2023-06-03T23:24:25.065Z".to_string(),
            url: "https://example.com/s/2/1".to_string(),
            status: 200,
            response: b"example body".to_vec(),
        }
    );
}

#[test]
fn decode_batch_error_when_every_entry_fails() {
    let entries = vec![record(
        100,
        "2023-06-01T23:24:25.065Z",
        "https://example.com/s/1/1",
        b64("XDA="),
    )];
    match decode_batch(entries) {
        Err(e) => assert_eq!(
            e.message(),
            "failed to decompress response: decompression error: missing header, length: 2"
        ),
        Ok(_) => panic!("a batch whose every entry fails must be an error"),
    }
}

#[test]
fn decode_batch_error_enumerates_a_bad_stream() {
    let entries = vec![record(
        100,
        "2023-06-01T23:24:25.065Z",
        "https://example.com/s/1/1",
        b64("AAAADHicS61IzC3ISVVIyk+pBAAfFwS6"),
    )];
    match decode_batch(entries) {
        Err(e) => {
            let msg = e.message();
            assert!(
                msg.starts_with(
                    "failed to decompress response: decompression error: could not read to end: "
                ),
                "{msg}"
            );
        }
        Ok(_) => panic!("a batch whose every entry fails must be an error"),
    }
}

#[test]
fn decode_batch_aggregates_every_failure() {
    let entries = vec![
        record(1, "2023-06-01T23:24:25.065Z", "a", b64("XDA=")),
        record(2, "2023-06-01T23:24:25.065Z", "b", b64("AAAAZHicS61IzC3ISVVIyk+pBAAfFwS7")),
    ];
    match decode_batch(entries) {
        Err(e) => assert_eq!(
            e.message(),
            "failed to decompress response: decompression error: missing header, length: 2; decompression error: expected 100 bytes, got 12"
        ),
        Ok(_) => panic!("a batch whose every entry fails must be an error"),
    }
}

#[test]
fn decode_batch_drops_partial_failures() {
    let good = encode(b"kept");
    let entries = vec![
        record(1, "2023-06-01T23:24:25.065Z", "a", b64("XDA=")),
        record(2, "2023-06-02T23:24:25.065Z", "b", good),
        record(3, "2023-06-03T23:24:25.065Z", "c", b64("XDA=")),
    ];
    let webs = decode_batch(entries).unwrap();
    assert_eq!(webs.len(), 1);
    assert_eq!(webs[0].id, 2);
    assert_eq!(webs[0].response, b"kept".to_vec());
}

#[test]
fn decompress_keeps_every_other_field() {
    let c = record(
        7,
        "2023-06-01T23:24:25.065Z",
        "https://example.com/s/9/9",
        encode(b"example body"),
    );
    let w = c.decompress().unwrap();
    assert_eq!(w.id, 7);
    assert_eq!(w.created, "2023-06-01T23:24:25.065Z");
    assert_eq!(w.url, "https://example.com/s/9/9");
    assert_eq!(w.status, 200);
    assert_eq!(w.response, b"example body".to_vec());
}

#[test]
fn describe_redacts_the_payload() {
    let c = record(
        7,
        "2023-06-01T23:24:25.065Z",
        "https://example.com/s/9/9",
        b64("AAAADHicS61IzC3ISVVIyk+pBAAfFwS7"),
    );
    assert_eq!(
        c.describe(),
        "CompressedWeb { id: 7, created: 2023-06-01T23:24:25.065Z, url: https://example.com/s/9/9, status: 200, response.len: 24 }"
    );
    let w = c.decompress().unwrap();
    assert_eq!(
        w.describe(),
        "Web { id: 7, created: 2023-06-01T23:24:25.065Z, url: https://example.com/s/9/9, status: 200, response.len: 12 }"
    );
}

#[test]
fn decompress_error_messages_match_the_codec() {
    let c = record(7, "2023-06-01T23:24:25.065Z", "u", b64("XDA="));
    assert_eq!(
        c.decompress().unwrap_err(),
        "decompression error: missing header, length: 2"
    );
    let c = record(
        7,
        "2023-06-01T23:24:25.065Z",
        "u",
        b64("AAAAZHicS61IzC3ISVVIyk+pBAAfFwS7"),
    );
    assert_eq!(
        c.decompress().unwrap_err(),
        "decompression error: expected 100 bytes, got 12"
    );
    let c = record(
        7,
        "2023-06-01T23:24:25.065Z",
        "u",
        b64("AAAADHicS61IzC3ISVVIyk+pBAAfFwS6"),
    );
    let err = c.decompress().unwrap_err();
    assert!(
        err.starts_with("decompression error: could not read to end: "),
        "{err}"
    );
}
