//! The client, its handshakes and the test of its credentials.

use doubao_asr::cloud_asr::doubao::client::{
    verify_outcome, DoubaoClient, DEFAULT_ENDPOINT, DEFAULT_RESOURCE_ID, PCM_BYTES_PER_SECOND,
    SEGMENT_DURATION_MS, SEGMENT_SIZE_BYTES, VERIFY_ENDPOINT,
};
use doubao_asr::cloud_asr::doubao::handshake::{
    build_doubao_handshake, handshake_with_host, handshake_with_key, new_connection, HandshakeError, HandshakeRequest,
};
use doubao_asr::cloud_asr::doubao::response::{AsrResponsePayload, DoubaoResponse, ResponseError};
use doubao_asr::cloud_asr::doubao::session::{ServerReply, SessionError};
use doubao_asr::cloud_asr::doubao::stream::open_stream;

fn header<'a>(request: &'a HandshakeRequest, name: &str) -> &'a str {
    request
        .headers
        .iter()
        .find(|h| h.name == name)
        .map(|h| h.value.as_str())
        .unwrap()
}

#[test]
fn test_segment_size_constants_consistent() {
    assert_eq!(SEGMENT_SIZE_BYTES, 6400);
}

#[test]
fn segment_size_follows_from_rate_and_duration() {
    assert_eq!(SEGMENT_SIZE_BYTES, PCM_BYTES_PER_SECOND * SEGMENT_DURATION_MS / 1000);
}

#[test]
fn test_new_falls_back_to_default_resource_id() {
    let client = DoubaoClient::new("dummy".to_string(), "  ".to_string());
    assert_eq!(client.resource_id, DEFAULT_RESOURCE_ID);
}

#[test]
fn test_new_keeps_custom_resource_id() {
    let client = DoubaoClient::new(
        "dummy".to_string(),
        "volc.seedasr.sauc.concurrent".to_string(),
    );
    assert_eq!(client.resource_id, "volc.seedasr.sauc.concurrent");
}

#[test]
fn test_handshake_request_has_required_headers() {
    let client = DoubaoClient::new("test-key".to_string(), DEFAULT_RESOURCE_ID.to_string());
    let req = client
        .build_handshake_request("rid-1234", &client.endpoint)
        .unwrap();
    assert_eq!(header(&req, "X-Api-Key"), "test-key");
    assert_eq!(header(&req, "X-Api-Resource-Id"), DEFAULT_RESOURCE_ID);
    assert_eq!(header(&req, "X-Api-Request-Id"), "rid-1234");
    assert_eq!(header(&req, "X-Api-Sequence"), "-1");
}

#[test]
fn test_endpoints_select_expected_modes() {
    assert!(
        DEFAULT_ENDPOINT.ends_with("/bigmodel_async"),
        "transcribe must use the async optimized endpoint for low latency, got {DEFAULT_ENDPOINT}"
    );
    assert!(
        VERIFY_ENDPOINT.ends_with("/bigmodel_nostream"),
        "verify must use the nostream endpoint (it acks on config without audio), got {VERIFY_ENDPOINT}"
    );
}

#[test]
fn test_handshake_uses_given_endpoint() {
    let client = DoubaoClient::new("k".to_string(), DEFAULT_RESOURCE_ID.to_string());
    let req = client
        .build_handshake_request("rid", VERIFY_ENDPOINT)
        .unwrap();
    assert!(req.uri.ends_with("/bigmodel_nostream"));
}

#[test]
fn handshake_headers_stand_in_order() {
    let req = handshake_with_key("key", "res", "rid", "wss://user@host.example:81/p", "K").unwrap();
    let pairs: Vec<(&str, &str)> =
        req.headers.iter().map(|h| (h.name, h.value.as_str())).collect();
    assert_eq!(
        pairs,
        vec![
            ("Host", "host.example"),
            ("Connection", "Upgrade"),
            ("Upgrade", "websocket"),
            ("Sec-WebSocket-Version", "13"),
            ("Sec-WebSocket-Key", "K"),
            ("X-Api-Key", "key"),
            ("X-Api-Resource-Id", "res"),
            ("X-Api-Request-Id", "rid"),
            ("X-Api-Connect-Id", "rid"),
            ("X-Api-Sequence", "-1"),
        ]
    );
    assert_eq!(req.uri, "wss://user@host.example:81/p");
}

#[test]
fn handshake_follows_from_the_host() {
    let made = |host| handshake_with_host("key", "res", "rid", "end", host, "K");
    let req = made(Ok(Some("h".to_string()))).unwrap();
    assert_eq!((req.uri.as_str(), header(&req, "Host")), ("end", "h"));
    let missing = made(Ok(None)).err().unwrap().message();
    assert_eq!(missing, "Doubao endpoint missing host: end");
    let invalid = made(Err("e".to_string())).err().unwrap().message();
    assert_eq!(invalid, "invalid Doubao endpoint URI end: e");
}

#[test]
fn handshake_refuses_bad_endpoints() {
    let invalid = build_doubao_handshake("k", "r", "i", "wss://bad host/").err().unwrap();
    assert!(matches!(invalid, HandshakeError::InvalidEndpoint { .. }));
    assert!(invalid.message().starts_with("invalid Doubao endpoint URI wss://bad host/: "));
    let missing = build_doubao_handshake("k", "r", "i", "/only/a/path").err().unwrap();
    assert!(matches!(missing, HandshakeError::MissingHost { .. }));
    assert_eq!(missing.message(), "Doubao endpoint missing host: /only/a/path");
}

#[test]
fn handshake_refuses_bad_header_values() {
    for (key, resource, request) in [("k\n", "r", "i"), ("k", "r\u{7f}", "i"), ("k", "r", "\0")] {
        let error = build_doubao_handshake(key, resource, request, DEFAULT_ENDPOINT).err().unwrap();
        assert!(matches!(error, HandshakeError::InvalidHeader(_)));
        assert_eq!(error.message(), "failed to parse header value");
    }
    assert!(build_doubao_handshake("k\t", "资源", "i", DEFAULT_ENDPOINT).is_ok());
}

#[test]
fn keys_and_ids_are_fresh() {
    let a = new_connection("k", "r", DEFAULT_ENDPOINT).unwrap();
    let b = new_connection("k", "r", DEFAULT_ENDPOINT).unwrap();
    for name in ["Sec-WebSocket-Key", "X-Api-Request-Id"] {
        assert_ne!(header(&a, name), header(&b, name));
    }
    let key = header(&a, "Sec-WebSocket-Key");
    assert_eq!(key.len(), 24);
    assert!(key.ends_with("=="));
    assert!(key[..22].chars().all(|c| c.is_ascii_alphanumeric() || c == '+' || c == '/'));
    let id: Vec<char> = header(&a, "X-Api-Request-Id").chars().collect();
    assert_eq!(id.len(), 36);
    for (i, c) in id.iter().enumerate() {
        if [8, 13, 18, 23].contains(&i) {
            assert_eq!(*c, '-');
        } else {
            assert!(c.is_ascii_digit() || ('a'..='f').contains(c));
        }
    }
    assert_eq!(id[14], '4');
    assert!(['8', '9', 'a', 'b'].contains(&id[19]));
    assert_eq!(header(&a, "X-Api-Connect-Id"), header(&a, "X-Api-Request-Id"));
}

#[test]
fn sessions_use_their_endpoints() {
    let client = DoubaoClient::new("k".to_string(), String::new());
    assert_eq!(client.open_transcription(&[0, 0]).unwrap().uri, DEFAULT_ENDPOINT);
    assert_eq!(client.open_verification().unwrap().uri, VERIFY_ENDPOINT);
    let stream = open_stream("k", "").unwrap();
    assert_eq!(stream.uri, DEFAULT_ENDPOINT);
    assert_eq!(header(&stream, "X-Api-Resource-Id"), DEFAULT_RESOURCE_ID);
    let named = open_stream("k", "volc.seedasr.sauc.concurrent").unwrap();
    assert_eq!(header(&named, "X-Api-Resource-Id"), "volc.seedasr.sauc.concurrent");
    assert_eq!(header(&stream, "Host"), "openspeech.bytedance.com");
}

#[test]
fn sessions_check_key_then_audio() {
    let blank = DoubaoClient::new(" \u{3000}".to_string(), String::new());
    assert!(matches!(blank.open_transcription(&[]), Err(SessionError::EmptyApiKey)));
    assert!(matches!(blank.open_verification(), Err(SessionError::EmptyApiKey)));
    let client = DoubaoClient::new("k".to_string(), String::new());
    let error = client.open_transcription(&[]).err().unwrap();
    assert_eq!(error.message(), "Empty audio buffer");
    let broken = DoubaoClient::new("k\r".to_string(), String::new());
    assert!(matches!(
        broken.open_transcription(&[1]),
        Err(SessionError::Handshake(HandshakeError::InvalidHeader(_)))
    ));
}

#[test]
fn test_empty_api_key_finishes_with_error_offline() {
    let err = open_stream("", "").err().expect("empty api key must error").message();
    assert!(err.contains("API key is empty"), "unexpected error: {err}");
}

fn frame(code: u32, error: Option<&str>) -> ServerReply {
    let payload = AsrResponsePayload {
        error: error.map(|e| e.to_string()),
        ..AsrResponsePayload::default()
    };
    ServerReply::Frame(Ok(DoubaoResponse {
        code,
        payload: Some(payload),
        ..DoubaoResponse::default()
    }))
}

#[test]
fn credentials_are_good_unless_the_server_objects() {
    let logid = Some("log".to_string());
    assert_eq!(verify_outcome(frame(0, None), logid.clone()).unwrap(), logid);
    assert_eq!(verify_outcome(ServerReply::Other, logid.clone()).unwrap(), logid);
    assert_eq!(verify_outcome(ServerReply::Close, None).unwrap(), None);
}

#[test]
fn failed_test_keeps_the_log_id() {
    let failure = verify_outcome(ServerReply::Timeout, Some("log".to_string())).unwrap_err();
    assert_eq!(failure.logid.as_deref(), Some("log"));
    let text = "Doubao server did not respond within 10s; check network or X-Api-Resource-Id";
    assert_eq!(failure.message(), format!("{text} (X-Tt-Logid: log)"));
    assert_eq!(verify_outcome(ServerReply::Timeout, None).unwrap_err().message(), text);
}

#[test]
fn credential_errors_have_their_messages() {
    let message = |reply| verify_outcome(reply, None).unwrap_err().error.message();
    assert_eq!(
        message(frame(45000001, Some("invalid \"key\""))),
        "Doubao server returned error code 45000001: Some(\"invalid \\\"key\\\"\")"
    );
    assert_eq!(message(frame(7, None)), "Doubao server returned error code 7: None");
    assert_eq!(
        message(ServerReply::Frame(Err(ResponseError::MissingSequence))),
        "response missing sequence field"
    );
    assert_eq!(
        message(ServerReply::Ended),
        "Doubao server closed connection before responding"
    );
    assert_eq!(
        message(ServerReply::Failed("reset".to_string())),
        "read first response failed: reset"
    );
    assert_eq!(
        message(ServerReply::Timeout),
        "Doubao server did not respond within 10s; check network or X-Api-Resource-Id"
    );
}
