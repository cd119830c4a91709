//! Headers, compression, request frames and server frames.

use byteorder::{BigEndian, ReadBytesExt, WriteBytesExt};
use doubao_asr::cloud_asr::doubao::payload::{
    build_audio_only_request, build_full_client_request, finish_frame, frame_full_client_request,
    i16_samples_to_pcm_s16le, AsrRequestPayload, RequestError,
};
use doubao_asr::cloud_asr::doubao::protocol::{
    encode_header, gzip_compress, gzip_decompress, GzipError, CLIENT_AUDIO_ONLY_REQUEST,
    CLIENT_FULL_REQUEST, COMPRESSION_GZIP, COMPRESSION_NONE, NEG_SEQUENCE, NEG_WITH_SEQUENCE,
    POS_SEQUENCE, SERIALIZATION_JSON, SERIALIZATION_NONE, SERVER_ERROR_RESPONSE,
    SERVER_FULL_RESPONSE,
};
use doubao_asr::cloud_asr::doubao::response::{
    attach_payload, complete_frame, parse_frame, parse_response, AsrResponsePayload, AsrResult, DoubaoResponse,
    ResponseError, ResponseFrame,
};
use doubao_asr::cloud_asr::doubao::session::{session_configuration, SessionError};
use serde_json::Value;
use std::io::{Cursor, Write};

fn encode(payload: &AsrRequestPayload) -> Result<Vec<u8>, String> {
    let mut user = serde_json::Map::new();
    if let Some(uid) = &payload.user.uid {
        user.insert("uid".to_string(), Value::from(uid.as_str()));
    }
    let mut audio = serde_json::Map::new();
    audio.insert("format".to_string(), Value::from(payload.audio.format));
    audio.insert("codec".to_string(), Value::from(payload.audio.codec));
    audio.insert("rate".to_string(), Value::from(payload.audio.rate));
    audio.insert("bits".to_string(), Value::from(payload.audio.bits));
    audio.insert("channel".to_string(), Value::from(payload.audio.channel));
    if let Some(language) = &payload.audio.language {
        audio.insert("language".to_string(), Value::from(language.as_str()));
    }
    let mut request = serde_json::Map::new();
    request.insert("model_name".to_string(), Value::from(payload.request.model_name));
    request.insert("enable_itn".to_string(), Value::from(payload.request.enable_itn));
    request.insert("enable_punc".to_string(), Value::from(payload.request.enable_punc));
    request.insert("enable_ddc".to_string(), Value::from(payload.request.enable_ddc));
    request.insert("show_utterances".to_string(), Value::from(payload.request.show_utterances));
    let mut top = serde_json::Map::new();
    top.insert("user".to_string(), Value::Object(user));
    top.insert("audio".to_string(), Value::Object(audio));
    top.insert("request".to_string(), Value::Object(request));
    serde_json::to_vec(&Value::Object(top)).map_err(|e| e.to_string())
}

fn decode(json: &[u8]) -> Result<AsrResponsePayload, String> {
    let value: Value = serde_json::from_slice(json).map_err(|e| e.to_string())?;
    let text = value["result"]["text"].as_str().unwrap_or("").to_string();
    let error = value["error"].as_str().map(|s| s.to_string());
    Ok(AsrResponsePayload { result: AsrResult { text, utterances: Vec::new() }, error })
}

fn parse(msg: &[u8]) -> Result<DoubaoResponse, ResponseError> {
    parse_response(msg, decode)
}

fn make_full_response(payload_json: &[u8], seq: i32, is_last: bool) -> Vec<u8> {
    let flags = if is_last { POS_SEQUENCE | NEG_SEQUENCE } else { POS_SEQUENCE };
    let header = encode_header(SERVER_FULL_RESPONSE, flags, SERIALIZATION_JSON, COMPRESSION_GZIP);
    let compressed = gzip_compress(payload_json).unwrap();
    let mut buf = Vec::new();
    buf.extend_from_slice(&header);
    buf.write_i32::<BigEndian>(seq).unwrap();
    buf.write_u32::<BigEndian>(compressed.len() as u32).unwrap();
    buf.write_all(&compressed).unwrap();
    buf
}

#[test]
fn test_encode_header_full_client_request() {
    let header = encode_header(
        CLIENT_FULL_REQUEST,
        POS_SEQUENCE,
        SERIALIZATION_JSON,
        COMPRESSION_GZIP,
    );
    assert_eq!(header, [0x11, 0x11, 0x11, 0x00]);
}

#[test]
fn test_encode_header_audio_only_with_neg_seq() {
    let header = encode_header(
        CLIENT_AUDIO_ONLY_REQUEST,
        NEG_WITH_SEQUENCE,
        SERIALIZATION_NONE,
        COMPRESSION_GZIP,
    );
    assert_eq!(header, [0x11, 0x23, 0x01, 0x00]);
}

#[test]
fn header_fields_are_cut_to_four_bits() {
    assert_eq!(encode_header(0x1f, 0xf2, 0x12, 0xf3), [0x11, 0xf2, 0x23, 0x00]);
}

#[test]
fn test_gzip_round_trip() {
    let input = b"the quick brown fox jumps over the lazy dog";
    let compressed = gzip_compress(input).unwrap();
    assert!(!compressed.is_empty());
    let decompressed = gzip_decompress(&compressed).unwrap();
    assert_eq!(decompressed, input);
}

#[test]
fn test_gzip_empty_input_round_trip() {
    let compressed = gzip_compress(&[]).unwrap();
    let decompressed = gzip_decompress(&compressed).unwrap();
    assert!(decompressed.is_empty());
}

#[test]
fn gzip_output_is_not_its_input() {
    assert!(gzip_compress(&[]).unwrap().len() >= 18);
    let mut noise: Vec<u8> = Vec::new();
    let mut x: u32 = 1;
    for _ in 0..100_000 {
        x = x.wrapping_mul(1664525).wrapping_add(1013904223);
        noise.push((x >> 24) as u8);
    }
    assert!(gzip_compress(&noise).unwrap().len() <= 3 * noise.len() + 4096);
    let input = b"aaaaaaaaaaaaaaaaaaaaaaaaaaaaaaaaaaaaaaaaaaaaaaaa";
    let compressed = gzip_compress(input).unwrap();
    assert_ne!(compressed, input.to_vec());
    assert_eq!(compressed[0..2], [0x1f, 0x8b]);
    assert_eq!(compressed, gzip_compress(input).unwrap());
}

#[test]
fn gzip_rejects_what_is_not_gzip() {
    let error = gzip_decompress(b"not gzip").unwrap_err();
    assert!(matches!(error, GzipError::Decompress(_)));
    assert!(error.message().starts_with("gzip decompress failed: "));
}

#[test]
fn gzip_messages() {
    assert_eq!(GzipError::Write("x".to_string()).message(), "gzip write failed: x");
    assert_eq!(GzipError::Finish("x".to_string()).message(), "gzip finish failed: x");
}

#[test]
fn test_full_client_request_layout_and_json() {
    let raw = build_full_client_request(Some("zh-CN".to_string()), encode).unwrap();

    assert_eq!(raw[0], 0x11);
    assert_eq!(raw[1], 0x11);
    assert_eq!(raw[2], 0x11);
    assert_eq!(raw[3], 0x00);

    let mut cursor = Cursor::new(&raw[4..]);
    let seq = cursor.read_i32::<BigEndian>().unwrap();
    let size = cursor.read_u32::<BigEndian>().unwrap() as usize;
    assert_eq!(seq, 1);

    let payload_start = 12;
    let compressed = &raw[payload_start..payload_start + size];
    let json_bytes = gzip_decompress(compressed).unwrap();
    let parsed: Value = serde_json::from_slice(&json_bytes).unwrap();

    assert_eq!(parsed["audio"]["rate"], 16000);
    assert_eq!(parsed["audio"]["bits"], 16);
    assert_eq!(parsed["audio"]["channel"], 1);
    assert_eq!(parsed["audio"]["format"], "pcm");
    assert_eq!(parsed["audio"]["language"], "zh-CN");
    assert_eq!(parsed["request"]["model_name"], "bigmodel");
    assert_eq!(parsed["request"]["enable_itn"], true);
}

#[test]
fn test_full_client_request_omits_language_when_none() {
    let raw = build_full_client_request(None, encode).unwrap();
    let payload_start = 12;
    let size = u32::from_be_bytes(raw[8..12].try_into().unwrap()) as usize;
    let compressed = &raw[payload_start..payload_start + size];
    let parsed: Value = serde_json::from_slice(&gzip_decompress(compressed).unwrap()).unwrap();
    assert!(parsed["audio"].get("language").is_none());
}

#[test]
fn default_configuration_has_every_field() {
    let payload = AsrRequestPayload::handy_default(None);
    assert_eq!(payload.user.uid.as_deref(), Some("handy"));
    assert_eq!(payload.audio.codec, "raw");
    assert!(payload.request.enable_punc);
    assert!(!payload.request.enable_ddc);
    assert!(!payload.request.show_utterances);
}

#[test]
fn encoder_error_is_passed_on() {
    let error = build_full_client_request(None, |_| Err("no JSON".to_string())).unwrap_err();
    assert!(matches!(error, RequestError::Encode(_)));
    assert_eq!(error.message(), "no JSON");
    let gzip = RequestError::Gzip(GzipError::Write("full".to_string()));
    assert_eq!(gzip.message(), "gzip write failed: full");
}

#[test]
fn sessions_send_no_language() {
    let frame = session_configuration(encode).unwrap();
    let json: Value = serde_json::from_slice(&gzip_decompress(&frame[12..]).unwrap()).unwrap();
    assert!(json["audio"].get("language").is_none());
    assert_eq!(json["user"]["uid"], "handy");
    let error = session_configuration(|_| Err("no JSON".to_string())).unwrap_err();
    assert!(matches!(error, SessionError::Request(RequestError::Encode(_))));
}

#[test]
fn configuration_frame_carries_the_json() {
    let frame = frame_full_client_request(b"{}").unwrap();
    assert_eq!(frame[4..8], [0, 0, 0, 1]);
    assert_eq!(gzip_decompress(&frame[12..]).unwrap(), b"{}");
}

#[test]
fn test_audio_only_request_neg_seq_uses_neg_flags() {
    let raw = build_audio_only_request(-5, b"raw audio bytes").unwrap();
    assert_eq!(raw[1], 0x23);
    let seq = i32::from_be_bytes(raw[4..8].try_into().unwrap());
    assert_eq!(seq, -5);
}

#[test]
fn test_audio_only_request_pos_seq_uses_pos_flags() {
    let raw = build_audio_only_request(7, b"raw audio bytes").unwrap();
    assert_eq!(raw[1], 0x21);
    let seq = i32::from_be_bytes(raw[4..8].try_into().unwrap());
    assert_eq!(seq, 7);
}

#[test]
fn audio_frame_carries_the_audio() {
    let raw = build_audio_only_request(7, b"raw audio bytes").unwrap();
    assert_eq!(raw[0], 0x11);
    assert_eq!(raw[2], 0x01);
    assert_eq!(raw[3], 0x00);
    let size = u32::from_be_bytes(raw[8..12].try_into().unwrap()) as usize;
    assert_eq!(size, raw.len() - 12);
    assert_eq!(gzip_decompress(&raw[12..]).unwrap(), b"raw audio bytes");
}

#[test]
fn frame_is_header_number_size_and_payload() {
    let frame = finish_frame([1, 2, 3, 4], -2, Ok(vec![9, 8])).unwrap();
    assert_eq!(frame, [1, 2, 3, 4, 0xff, 0xff, 0xff, 0xfe, 0, 0, 0, 2, 9, 8]);
    let error = finish_frame([1, 2, 3, 4], -2, Err(GzipError::Write("w".to_string())));
    assert_eq!(error.unwrap_err().message(), "gzip write failed: w");
}

#[test]
fn samples_become_little_endian_bytes() {
    let bytes = i16_samples_to_pcm_s16le(&[-32767, 0, 32767, 16383, -16383, i16::MIN]);
    assert_eq!(bytes.len(), 12);
    let read_i16 = |off: usize| i16::from_le_bytes([bytes[off], bytes[off + 1]]);
    assert_eq!(read_i16(0), -32767);
    assert_eq!(read_i16(2), 0);
    assert_eq!(read_i16(4), 32767);
    assert_eq!(read_i16(6), 16383);
    assert_eq!(read_i16(8), -16383);
    assert_eq!(read_i16(10), i16::MIN);
    let mut pieces = i16_samples_to_pcm_s16le(&[-32767, 0]);
    pieces.extend(i16_samples_to_pcm_s16le(&[32767, 16383, -16383, i16::MIN]));
    assert_eq!(pieces, bytes);
}

#[test]
fn test_parse_full_response_with_text() {
    let json = r#"{"result":{"text":"你好世界","utterances":[]}}"#.as_bytes();
    let frame = make_full_response(json, 42, false);

    let parsed = parse(&frame).unwrap();
    assert_eq!(parsed.code, 0);
    assert!(!parsed.is_last_package);
    assert_eq!(parsed.sequence, 42);
    assert_eq!(parsed.payload.unwrap().result.text, "你好世界");
}

#[test]
fn test_parse_last_package_flag() {
    let json = br#"{"result":{"text":"final"}}"#;
    let frame = make_full_response(json, 7, true);
    let parsed = parse(&frame).unwrap();
    assert!(parsed.is_last_package);
    assert_eq!(parsed.payload.unwrap().result.text, "final");
}

#[test]
fn test_parse_error_response() {
    let header = encode_header(SERVER_ERROR_RESPONSE, 0, SERIALIZATION_JSON, COMPRESSION_GZIP);
    let json = br#"{"error":"invalid params"}"#;
    let compressed = gzip_compress(json).unwrap();

    let mut buf = Vec::new();
    buf.extend_from_slice(&header);
    buf.write_u32::<BigEndian>(45_000_001).unwrap();
    buf.write_u32::<BigEndian>(compressed.len() as u32).unwrap();
    buf.write_all(&compressed).unwrap();

    let parsed = parse(&buf).unwrap();
    assert_eq!(parsed.code, 45_000_001);
    assert_eq!(parsed.payload.unwrap().error.unwrap(), "invalid params");
}

#[test]
fn test_parse_short_input_returns_err() {
    assert!(parse(&[0x11, 0x91]).is_err());
}

fn message_of(msg: &[u8]) -> String {
    parse_frame(msg).unwrap_err().message()
}

#[test]
fn broken_frames_are_told_apart() {
    assert_eq!(message_of(&[0x11, 0x91]), "response too short: 2 bytes");
    assert_eq!(
        message_of(&[0x12, 0x90, 0x11, 0]),
        "response shorter than declared header (4 < 8)"
    );
    assert_eq!(message_of(&[0x11, 0x91, 0x11, 0, 1, 2]), "response missing sequence field");
    assert_eq!(message_of(&[0x11, 0x90, 0x11, 0, 1, 2]), "full response missing payload size");
    assert_eq!(
        message_of(&[0x11, 0xf0, 0x11, 0, 1, 2, 3, 4, 5]),
        "error response missing code/size"
    );
    assert_eq!(
        message_of(&[0x11, 0x90, 0x10, 0, 0, 0, 0, 10, 1, 2, 3]),
        "response payload truncated: need 10 more, have 3"
    );
    let bad_gzip = [0x11, 0x90, 0x11, 0, 0, 0, 0, 2, 1, 2];
    assert!(matches!(parse_frame(&bad_gzip), Err(ResponseError::Gzip(GzipError::Decompress(_)))));
    assert!(message_of(&bad_gzip).starts_with("gzip decompress failed: "));
}

#[test]
fn invalid_json_is_quoted() {
    let frame = make_full_response(b"{\xff", 1, false);
    let error = parse_response(&frame, |_| Err("bad".to_string())).unwrap_err();
    assert!(matches!(error, ResponseError::InvalidJson { .. }));
    assert_eq!(error.message(), "invalid response JSON: bad; raw={\u{fffd}");
}

#[test]
fn plain_payloads_and_other_frames() {
    let header = encode_header(SERVER_FULL_RESPONSE, 0, SERIALIZATION_JSON, COMPRESSION_NONE);
    let mut plain = header.to_vec();
    plain.extend_from_slice(&[0, 0, 0, 2, b'{', b'}', 99]);
    assert_eq!(parse_frame(&plain).unwrap().body.unwrap(), b"{}");

    let mut empty = header.to_vec();
    empty.extend_from_slice(&[0, 0, 0, 0]);
    assert!(parse(&empty).unwrap().payload.is_none());

    let raw = encode_header(SERVER_FULL_RESPONSE, 0, SERIALIZATION_NONE, COMPRESSION_NONE);
    let mut bytes = raw.to_vec();
    bytes.extend_from_slice(&[0, 0, 0, 1, 7]);
    assert!(parse(&bytes).unwrap().payload.is_none());

    let other = parse(&[0x11, 0xb3, 0x11, 0, 0xff, 0xff, 0xff, 0xfe]).unwrap();
    assert_eq!(other.sequence, -2);
    assert!(other.is_last_package);
    assert!(other.payload.is_none());
}

#[test]
fn frame_is_completed_with_its_content() {
    let full = complete_frame(1, true, 2, SERIALIZATION_JSON, Ok(b"{}".to_vec())).unwrap();
    assert_eq!((full.code, full.is_last_package, full.sequence), (1, true, 2));
    assert_eq!(full.body.unwrap(), b"{}");
    assert!(complete_frame(0, false, 0, SERIALIZATION_JSON, Ok(Vec::new())).unwrap().body.is_none());
    assert!(complete_frame(0, false, 0, SERIALIZATION_NONE, Ok(vec![1])).unwrap().body.is_none());
    let bad = complete_frame(0, false, 0, 1, Err(GzipError::Decompress("d".to_string())));
    assert_eq!(bad.unwrap_err().message(), "gzip decompress failed: d");
}

#[test]
fn frame_without_json_takes_nothing() {
    let frame = ResponseFrame { code: 3, is_last_package: true, sequence: 9, body: None };
    let r = attach_payload(frame, Err("unused".to_string())).unwrap();
    assert_eq!((r.code, r.is_last_package, r.sequence), (3, true, 9));
    assert!(r.payload.is_none());
}
