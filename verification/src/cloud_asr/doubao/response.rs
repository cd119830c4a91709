//! Server frames.
//!
//! A full response carries a recognition result as JSON, an error response an error
//! code and a message. Frames of other types are accepted without a payload.

use crate::cloud_asr::doubao::protocol::{
    gzip_decompress, read_be32, read_be_i32, unpack, GzipError, COMPRESSION_GZIP,
    SERIALIZATION_JSON, SERVER_ERROR_RESPONSE, SERVER_FULL_RESPONSE,
};
#[allow(unused_imports)]
use crate::cloud_asr::doubao::protocol::{
    be32, be32_at, be32_round_trip, be_i32_at, be_i32_round_trip, gunzip, header_bytes, nibbles,
    nibbles_round_trip, twos_complement, HEADER_SIZE_VALUE, NEG_WITH_SEQUENCE, NO_SEQUENCE,
    POS_SEQUENCE, PROTOCOL_VERSION,
};
use crate::text::decimal_text;
#[allow(unused_imports)]
use crate::text::{appended_texts_are_ends, decimal, ends_in};
use vstd::prelude::*;

verus! {

/// One recognised sentence.
#[derive(Debug, Clone, Default)]
pub struct AsrUtterance {
    pub definite: bool,
    pub start_time: i64,
    pub end_time: i64,
    pub text: String,
}

/// A recognition result: the whole text so far, and its sentences.
#[derive(Debug, Clone, Default)]
pub struct AsrResult {
    pub text: String,
    pub utterances: Vec<AsrUtterance>,
}

/// The JSON content of a server frame.
#[derive(Debug, Clone, Default)]
pub struct AsrResponsePayload {
    pub result: AsrResult,
    /// The message of an error response.
    pub error: Option<String>,
}

/// A server frame, decoded.
#[derive(Debug, Clone, Default)]
pub struct DoubaoResponse {
    /// The error code; 0 where there is no error.
    pub code: u32,
    /// Whether this is the last frame of the session.
    pub is_last_package: bool,
    /// The sequence number that the frame carries, or 0.
    pub sequence: i32,
    pub payload: Option<AsrResponsePayload>,
}

/// A server frame whose payload has been unpacked, but not read as JSON.
#[derive(Debug)]
pub struct ResponseFrame {
    pub code: u32,
    pub is_last_package: bool,
    pub sequence: i32,
    /// The JSON bytes, where the frame carries any.
    pub body: Option<Vec<u8>>,
}

/// Why a server frame could not be decoded.
#[derive(Debug)]
pub enum ResponseError {
    TooShort { len: usize },
    ShorterThanHeader { len: usize, header: usize },
    MissingSequence,
    MissingPayloadSize,
    MissingCodeOrSize,
    Truncated { need: usize, have: usize },
    Gzip(GzipError),
    InvalidJson { error: String, raw: String },
}

impl ResponseError {
    /// The text of the error.
    pub open spec fn text(self) -> Seq<char> {
        match self {
            ResponseError::TooShort { len } => "response too short: "@ + decimal(len as nat)
                + " bytes"@,
            ResponseError::ShorterThanHeader { len, header } =>
                "response shorter than declared header ("@ + decimal(len as nat) + " < "@ + decimal(
                header as nat,
            ) + ")"@,
            ResponseError::MissingSequence => "response missing sequence field"@,
            ResponseError::MissingPayloadSize => "full response missing payload size"@,
            ResponseError::MissingCodeOrSize => "error response missing code/size"@,
            ResponseError::Truncated { need, have } => "response payload truncated: need "@
                + decimal(need as nat) + " more, have "@ + decimal(have as nat),
            ResponseError::Gzip(e) => e.text(),
            ResponseError::InvalidJson { error, raw } => "invalid response JSON: "@ + error@
                + "; raw="@ + raw@,
        }
    }

    /// The error as a message.
    pub fn message(&self) -> (r: String)
        ensures
            r@ == self.text(),
    {
        match self {
            ResponseError::TooShort { len } => "response too short: ".to_owned().concat(
                decimal_text(*len as u64).as_str(),
            ).concat(" bytes"),
            ResponseError::ShorterThanHeader { len, header } =>
                "response shorter than declared header (".to_owned().concat(
                decimal_text(*len as u64).as_str(),
            ).concat(" < ").concat(decimal_text(*header as u64).as_str()).concat(")"),
            ResponseError::MissingSequence => "response missing sequence field".to_owned(),
            ResponseError::MissingPayloadSize => "full response missing payload size".to_owned(),
            ResponseError::MissingCodeOrSize => "error response missing code/size".to_owned(),
            ResponseError::Truncated { need, have } =>
                "response payload truncated: need ".to_owned().concat(
                decimal_text(*need as u64).as_str(),
            ).concat(" more, have ").concat(decimal_text(*have as u64).as_str()),
            ResponseError::Gzip(e) => e.message(),
            ResponseError::InvalidJson { error, raw } =>
                "invalid response JSON: ".to_owned().concat(error.as_str()).concat(
                "; raw=",
            ).concat(raw.as_str()),
        }
    }
}

/// The header length in bytes that a frame declares.
pub open spec fn header_len(msg: Seq<u8>) -> int {
    (msg[0] % 16) * 4
}

/// The frame's type.
pub open spec fn message_type(msg: Seq<u8>) -> u8 {
    msg[1] / 16
}

/// Whether a sequence number follows the header: the lowest flag.
pub open spec fn has_sequence(msg: Seq<u8>) -> bool {
    msg[1] % 2 == 1
}

/// Whether the frame says that it is the last one: the second lowest flag.
pub open spec fn last_flag(msg: Seq<u8>) -> bool {
    (msg[1] / 2) % 2 == 1
}

/// Where the fields start that depend on the frame's type.
pub open spec fn fields_at(msg: Seq<u8>) -> int {
    header_len(msg) + if has_sequence(msg) {
        4int
    } else {
        0int
    }
}

/// Where the payload starts in a frame that has one: behind its size, which in an
/// error response stands behind the error code.
pub open spec fn payload_at(msg: Seq<u8>) -> int {
    fields_at(msg) + if message_type(msg) == SERVER_ERROR_RESPONSE {
        8int
    } else {
        4int
    }
}

/// The payload's length as the frame declares it.
pub open spec fn payload_size(msg: Seq<u8>) -> nat {
    be32_at(msg, payload_at(msg) - 4)
}

/// The payload as it stands in the frame.
pub open spec fn raw_payload(msg: Seq<u8>) -> Seq<u8> {
    msg.subrange(payload_at(msg), payload_at(msg) + payload_size(msg))
}

/// Whether `f` has the fields that stand before the payload.
pub open spec fn head_fields(msg: Seq<u8>, f: ResponseFrame) -> bool {
    &&& f.sequence == (if has_sequence(msg) {
        be_i32_at(msg, header_len(msg))
    } else {
        0
    })
    &&& f.is_last_package == last_flag(msg)
    &&& f.code == (if message_type(msg) == SERVER_ERROR_RESPONSE {
        be32_at(msg, fields_at(msg))
    } else {
        0
    })
}

/// Whether `r` is what a frame with the decompressed payload `content` comes to. Only
/// JSON is kept, and only where there is any.
pub open spec fn carries_content(
    msg: Seq<u8>,
    content: Seq<u8>,
    r: Result<ResponseFrame, ResponseError>,
) -> bool {
    &&& r is Ok
    &&& head_fields(msg, r->Ok_0)
    &&& (r->Ok_0.body is Some <==> content.len() > 0 && msg[2] / 16 == SERIALIZATION_JSON)
    &&& r->Ok_0.body matches Some(b) ==> b@ == content
}

/// What unpacking the server frame `msg` comes to.
pub open spec fn frame_outcome(msg: Seq<u8>, r: Result<ResponseFrame, ResponseError>) -> bool {
    if msg.len() < 4 {
        r == Err::<ResponseFrame, _>(ResponseError::TooShort { len: msg.len() as usize })
    } else if msg.len() < header_len(msg) {
        r == Err::<ResponseFrame, _>(
            ResponseError::ShorterThanHeader {
                len: msg.len() as usize,
                header: header_len(msg) as usize,
            },
        )
    } else if msg.len() < fields_at(msg) {
        r == Err::<ResponseFrame, _>(ResponseError::MissingSequence)
    } else if message_type(msg) != SERVER_FULL_RESPONSE && message_type(msg)
        != SERVER_ERROR_RESPONSE {
        &&& r is Ok
        &&& head_fields(msg, r->Ok_0)
        &&& r->Ok_0.body is None
    } else if msg.len() < payload_at(msg) {
        r == Err::<ResponseFrame, _>(
            if message_type(msg) == SERVER_FULL_RESPONSE {
                ResponseError::MissingPayloadSize
            } else {
                ResponseError::MissingCodeOrSize
            },
        )
    } else if msg.len() < payload_at(msg) + payload_size(msg) {
        r == Err::<ResponseFrame, _>(
            ResponseError::Truncated {
                need: payload_size(msg) as usize,
                have: (msg.len() - payload_at(msg)) as usize,
            },
        )
    } else if msg[2] % 16 == COMPRESSION_GZIP {
        match gunzip(raw_payload(msg)) {
            Ok(content) => carries_content(msg, content, r),
            Err(text) => {
                &&& r is Err
                &&& r->Err_0 is Gzip
                &&& r->Err_0->Gzip_0 is Decompress
                &&& r->Err_0->Gzip_0->Decompress_0@ == text
            },
        }
    } else {
        carries_content(msg, raw_payload(msg), r)
    }
}

fn unpack_payload(raw: &[u8], compression: u8) -> (r: Result<Vec<u8>, GzipError>)
    ensures
        if compression == COMPRESSION_GZIP {
            match r {
                Ok(content) => gunzip(raw@) == Ok::<Seq<u8>, Seq<char>>(content@),
                Err(e) => e is Decompress && gunzip(raw@) == Err::<Seq<u8>, Seq<char>>(
                    e->Decompress_0@,
                ),
            }
        } else {
            r is Ok && r->Ok_0@ == raw@
        },
{
    if compression == COMPRESSION_GZIP {
        gzip_decompress(raw)
    } else {
        Ok(vstd::slice::slice_to_vec(raw))
    }
}

/// Completes the head of a frame with what unpacking its payload gave: JSON is kept where
/// there is any, an error is passed on.
pub fn complete_frame(
    code: u32,
    is_last_package: bool,
    sequence: i32,
    serialization: u8,
    content: Result<Vec<u8>, GzipError>,
) -> (r: Result<ResponseFrame, ResponseError>)
    ensures
        r == (match content {
            Ok(content) => Ok::<_, ResponseError>(
                ResponseFrame {
                    code,
                    is_last_package,
                    sequence,
                    body: if content@.len() > 0 && serialization == SERIALIZATION_JSON {
                        Some(content)
                    } else {
                        None
                    },
                },
            ),
            Err(e) => Err(ResponseError::Gzip(e)),
        }),
{
    match content {
        Ok(content) => {
            let body: Option<Vec<u8>> = if content.len() > 0 && serialization
                == SERIALIZATION_JSON {
                Some(content)
            } else {
                None
            };
            Ok(ResponseFrame { code, is_last_package, sequence, body })
        },
        Err(e) => Err(ResponseError::Gzip(e)),
    }
}

/// Unpacks a server frame up to its JSON.
#[verifier::spinoff_prover]
#[verifier::rlimit(40)]
pub fn parse_frame(msg: &[u8]) -> (r: Result<ResponseFrame, ResponseError>)
    ensures
        frame_outcome(msg@, r),
{
    if msg.len() < 4 {
        return Err(ResponseError::TooShort { len: msg.len() });
    }
    let header_bytes: usize = unpack(msg[0]).1 as usize * 4;
    if msg.len() < header_bytes {
        return Err(ResponseError::ShorterThanHeader { len: msg.len(), header: header_bytes });
    }
    let (kind, flags): (u8, u8) = unpack(msg[1]);
    let (serialization, compression): (u8, u8) = unpack(msg[2]);
    let mut cursor: usize = header_bytes;
    let mut sequence: i32 = 0;
    if flags % 2 == 1 {
        if msg.len() < cursor + 4 {
            return Err(ResponseError::MissingSequence);
        }
        sequence = read_be_i32(msg, cursor);
        cursor = cursor + 4;
    }
    let is_last_package = (flags / 2) % 2 == 1;
    let mut code: u32 = 0;
    let size: u32;
    if kind == SERVER_FULL_RESPONSE {
        if msg.len() < cursor + 4 {
            return Err(ResponseError::MissingPayloadSize);
        }
        size = read_be32(msg, cursor);
        cursor = cursor + 4;
    } else if kind == SERVER_ERROR_RESPONSE {
        if msg.len() < cursor + 8 {
            return Err(ResponseError::MissingCodeOrSize);
        }
        code = read_be32(msg, cursor);
        size = read_be32(msg, cursor + 4);
        cursor = cursor + 8;
    } else {
        return Ok(ResponseFrame { code, is_last_package, sequence, body: None });
    }
    let payload_size: usize = size as usize;
    if msg.len() - cursor < payload_size {
        return Err(ResponseError::Truncated { need: payload_size, have: msg.len() - cursor });
    }
    let raw = vstd::slice::slice_subrange(msg, cursor, cursor + payload_size);
    assert(raw@ == raw_payload(msg@));
    let content = unpack_payload(raw, compression);
    complete_frame(code, is_last_package, sequence, serialization, content)
}

/// What reading bytes as UTF-8 gives, with every malformed piece replaced.
pub uninterp spec fn utf8_lossy(bytes: Seq<u8>) -> Seq<char>;

/// Reads bytes as UTF-8 for an error message, by `String::from_utf8_lossy`. The result
/// is a function of the bytes alone and carries the name [`utf8_lossy`].
#[verifier::external_body]
fn lossy_text(bytes: &[u8]) -> (r: String)
    ensures
        r@ == utf8_lossy(bytes@),
{
    String::from_utf8_lossy(bytes).into_owned()
}

/// Whether `r` is the response that `frame` makes together with what its JSON was read as.
pub open spec fn response_outcome(
    frame: ResponseFrame,
    decoded: Result<AsrResponsePayload, String>,
    r: Result<DoubaoResponse, ResponseError>,
) -> bool {
    match (frame.body, decoded) {
        (Some(_), Ok(payload)) => r == Ok::<_, ResponseError>(
            DoubaoResponse {
                code: frame.code,
                is_last_package: frame.is_last_package,
                sequence: frame.sequence,
                payload: Some(payload),
            },
        ),
        (Some(body), Err(error)) => {
            &&& r is Err
            &&& r->Err_0 is InvalidJson
            &&& r->Err_0->error == error
            &&& r->Err_0->raw@ == utf8_lossy(body@)
        },
        (None, _) => r == Ok::<_, ResponseError>(
            DoubaoResponse {
                code: frame.code,
                is_last_package: frame.is_last_package,
                sequence: frame.sequence,
                payload: None,
            },
        ),
    }
}

/// Completes a frame with what its JSON was read as. A frame without JSON takes nothing
/// from `decoded`.
pub fn attach_payload(
    frame: ResponseFrame,
    decoded: Result<AsrResponsePayload, String>,
) -> (r: Result<DoubaoResponse, ResponseError>)
    ensures
        response_outcome(frame, decoded, r),
{
    let payload: Option<AsrResponsePayload> = match frame.body {
        Some(body) => match decoded {
            Ok(payload) => Some(payload),
            Err(error) => {
                let raw = lossy_text(body.as_slice());
                return Err(ResponseError::InvalidJson { error, raw });
            },
        },
        None => None,
    };
    Ok(
        DoubaoResponse {
            code: frame.code,
            is_last_package: frame.is_last_package,
            sequence: frame.sequence,
            payload,
        },
    )
}

/// Whether `d` is an outcome of `decode` on the JSON of `f`, where it carries some.
pub open spec fn decoded_by<F: Fn(&[u8]) -> Result<AsrResponsePayload, String>>(
    decode: F,
    f: Result<ResponseFrame, ResponseError>,
    d: Result<AsrResponsePayload, String>,
) -> bool {
    f is Ok && f->Ok_0.body is Some ==> exists|b: &[u8]|
        b@ == f->Ok_0.body->0@ && #[trigger] call_ensures(decode, (b,), d)
}

/// Whether `r` is what decoding the server frame `msg` comes to, where `decode` reads JSON.
pub open spec fn reads<F: Fn(&[u8]) -> Result<AsrResponsePayload, String>>(
    msg: Seq<u8>,
    decode: F,
    r: Result<DoubaoResponse, ResponseError>,
) -> bool {
    exists|f: Result<ResponseFrame, ResponseError>, d: Result<AsrResponsePayload, String>|
        {
            &&& frame_outcome(msg, f)
            &&& #[trigger] decoded_by(decode, f, d)
            &&& match f {
                Ok(frame) => response_outcome(frame, d, r),
                Err(e) => r == Err::<DoubaoResponse, _>(e),
            }
        }
}

/// Decodes a server frame; `decode` reads the JSON, and is asked only where the frame
/// carries some.
pub fn parse_response<F: Fn(&[u8]) -> Result<AsrResponsePayload, String>>(
    msg: &[u8],
    decode: F,
) -> (r: Result<DoubaoResponse, ResponseError>)
    requires
        forall|b: &[u8]| #[trigger] call_requires(decode, (b,)),
    ensures
        exists|f: Result<ResponseFrame, ResponseError>, d: Result<AsrResponsePayload, String>|
            {
                &&& frame_outcome(msg@, f)
                &&& #[trigger] decoded_by(decode, f, d)
                &&& match f {
                    Ok(frame) => response_outcome(frame, d, r),
                    Err(e) => r == Err::<DoubaoResponse, _>(e),
                }
            },
        reads(msg@, decode, r),
{
    let f = parse_frame(msg);
    let ghost unpacked = f;
    match f {
        Ok(frame) => {
            let d: Result<AsrResponsePayload, String> = match &frame.body {
                Some(body) => decode(body.as_slice()),
                None => Err(String::new()),
            };
            assert(decoded_by(decode, unpacked, d));
            attach_payload(frame, d)
        },
        Err(e) => {
            assert(decoded_by(decode, unpacked, arbitrary()));
            Err(e)
        },
    }
}

/// The bytes of a full response: header, sequence number, payload size, payload.
pub open spec fn full_response_bytes(last: bool, seq: i32, payload: Seq<u8>) -> Seq<u8> {
    header_bytes(
        SERVER_FULL_RESPONSE,
        if last {
            NEG_WITH_SEQUENCE
        } else {
            POS_SEQUENCE
        },
        SERIALIZATION_JSON,
        COMPRESSION_GZIP,
    ) + be32(twos_complement(seq)) + be32(payload.len()) + payload
}

/// The bytes of an error response: header, error code, payload size, payload.
pub open spec fn error_response_bytes(code: u32, payload: Seq<u8>) -> Seq<u8> {
    header_bytes(SERVER_ERROR_RESPONSE, NO_SEQUENCE, SERIALIZATION_JSON, COMPRESSION_GZIP) + be32(
        code as nat,
    ) + be32(payload.len()) + payload
}

/// A full response gives back its sequence number, its last-frame flag and, where its
/// payload decompresses, the JSON in it.
pub proof fn full_response_reads_back(
    last: bool,
    seq: i32,
    payload: Seq<u8>,
    json: Seq<u8>,
    r: Result<ResponseFrame, ResponseError>,
)
    requires
        payload.len() < 0x1_0000_0000,
        gunzip(payload) == Ok::<Seq<u8>, Seq<char>>(json),
        json.len() > 0,
        frame_outcome(full_response_bytes(last, seq, payload), r),
    ensures
        r is Ok,
        r->Ok_0.code == 0,
        r->Ok_0.is_last_package == last,
        r->Ok_0.sequence == seq,
        r->Ok_0.body is Some,
        r->Ok_0.body->0@ == json,
{
    let msg = full_response_bytes(last, seq, payload);
    let flags = if last {
        NEG_WITH_SEQUENCE
    } else {
        POS_SEQUENCE
    };
    nibbles_round_trip(PROTOCOL_VERSION, HEADER_SIZE_VALUE);
    nibbles_round_trip(SERVER_FULL_RESPONSE, flags);
    nibbles_round_trip(SERIALIZATION_JSON, COMPRESSION_GZIP);
    assert(msg[0] == nibbles(PROTOCOL_VERSION, HEADER_SIZE_VALUE));
    assert(msg[1] == nibbles(SERVER_FULL_RESPONSE, flags));
    assert(msg[2] == nibbles(SERIALIZATION_JSON, COMPRESSION_GZIP));
    assert(msg.subrange(4, 8) =~= be32(twos_complement(seq)));
    be_i32_round_trip(seq, msg, 4);
    assert(msg.subrange(8, 12) =~= be32(payload.len()));
    be32_round_trip(payload.len(), msg, 8);
    assert(raw_payload(msg) =~= payload);
}

/// An error response gives back its error code and, where its payload decompresses, the
/// JSON in it.
pub proof fn error_response_reads_back(
    code: u32,
    payload: Seq<u8>,
    json: Seq<u8>,
    r: Result<ResponseFrame, ResponseError>,
)
    requires
        payload.len() < 0x1_0000_0000,
        gunzip(payload) == Ok::<Seq<u8>, Seq<char>>(json),
        json.len() > 0,
        frame_outcome(error_response_bytes(code, payload), r),
    ensures
        r is Ok,
        r->Ok_0.code == code,
        !r->Ok_0.is_last_package,
        r->Ok_0.sequence == 0,
        r->Ok_0.body is Some,
        r->Ok_0.body->0@ == json,
{
    let msg = error_response_bytes(code, payload);
    nibbles_round_trip(PROTOCOL_VERSION, HEADER_SIZE_VALUE);
    nibbles_round_trip(SERVER_ERROR_RESPONSE, NO_SEQUENCE);
    nibbles_round_trip(SERIALIZATION_JSON, COMPRESSION_GZIP);
    assert(msg[0] == nibbles(PROTOCOL_VERSION, HEADER_SIZE_VALUE));
    assert(msg[1] == nibbles(SERVER_ERROR_RESPONSE, NO_SEQUENCE));
    assert(msg[2] == nibbles(SERIALIZATION_JSON, COMPRESSION_GZIP));
    assert(msg.subrange(4, 8) =~= be32(code as nat));
    be32_round_trip(code as nat, msg, 4);
    assert(msg.subrange(8, 12) =~= be32(payload.len()));
    be32_round_trip(payload.len(), msg, 8);
    assert(raw_payload(msg) =~= payload);
}

/// Where the fields of a frame stand, in bytes. The low half of the first byte gives the
/// header's size in words. Of the flags in the low half of the second byte, the lowest says
/// that a signed number follows the header, the next that the frame is the last. Only an
/// error response, type 15, has a code, which follows then.
pub proof fn frame_fields_stand_in_place(msg: Seq<u8>, frame: ResponseFrame)
    requires
        frame_outcome(msg, Ok(frame)),
    ensures
        ({
            let header = 4 * (msg[0] % 16);
            let numbered = msg[1] % 2 == 1;
            let at = header + if numbered {
                4int
            } else {
                0int
            };
            &&& 4 <= msg.len()
            &&& at <= msg.len()
            &&& frame.is_last_package <==> msg[1] % 4 >= 2
            &&& !numbered ==> frame.sequence == 0
            &&& numbered ==> 0x100_0000 * msg[header] + 0x1_0000 * msg[header + 1] + 0x100
                * msg[header + 2] + msg[header + 3] == if frame.sequence < 0 {
                0x1_0000_0000 + frame.sequence
            } else {
                frame.sequence as int
            }
            &&& msg[1] / 16 != 15 ==> frame.code == 0
            &&& msg[1] / 16 == 15 ==> at + 8 <= msg.len() && frame.code == 0x100_0000 * msg[at]
                + 0x1_0000 * msg[at + 1] + 0x100 * msg[at + 2] + msg[at + 3]
            &&& msg[1] / 16 != 9 && msg[1] / 16 != 15 ==> frame.body is None
            &&& msg[2] / 16 != 1 ==> frame.body is None
        }),
{
    assert(msg[0] % 16 * 4 == 4 * (msg[0] % 16));
    assert(msg[1] % 4 >= 2 <==> (msg[1] / 2) % 2 == 1);
}

/// What a full response, type 9, or an error response, type 15, carries: as many bytes as its
/// size says, decompressed where they are marked as compressed. They are kept just where
/// they are marked as JSON and there are any.
pub proof fn payloads_are_taken_out(msg: Seq<u8>, r: Result<ResponseFrame, ResponseError>, at: int)
    requires
        frame_outcome(msg, r),
        4 <= msg.len(),
        msg[1] / 16 == 9 || msg[1] / 16 == 15,
        at == 4 * (msg[0] % 16) + (if msg[1] % 2 == 1 {
            4int
        } else {
            0int
        }) + (if msg[1] / 16 == 15 {
            4int
        } else {
            0int
        }),
        at + 4 <= msg.len(),
    ensures
        ({
            let size = 0x100_0000 * msg[at] + 0x1_0000 * msg[at + 1] + 0x100 * msg[at + 2] + msg[at
                + 3];
            let payload = msg.subrange(at + 4, at + 4 + size);
            let plain = msg[2] % 16 != 1;
            if at + 4 + size > msg.len() {
                r matches Err(ResponseError::Truncated { need, have }) && need == size && have
                    == msg.len() - at - 4
            } else {
                &&& plain ==> r is Ok
                &&& !plain ==> (r is Ok <==> gunzip(payload) is Ok)
                &&& r matches Ok(frame) ==> {
                    let content = if plain {
                        payload
                    } else {
                        gunzip(payload)->Ok_0
                    };
                    &&& frame.body is Some <==> content.len() > 0 && msg[2] / 16 == 1
                    &&& frame.body matches Some(body) ==> body@ == content
                }
                &&& r matches Err(e) ==> (e matches ResponseError::Gzip(GzipError::Decompress(t))
                    && t@ == gunzip(payload)->Err_0)
            }
        }),
{
    let size = 0x100_0000 * msg[at] + 0x1_0000 * msg[at + 1] + 0x100 * msg[at + 2] + msg[at + 3];
    assert(msg[0] % 16 * 4 == 4 * (msg[0] % 16));
    assert(payload_at(msg) == at + 4);
    assert(payload_size(msg) == size);
    if at + 4 + size <= msg.len() {
        assert(raw_payload(msg) =~= msg.subrange(at + 4, at + 4 + size));
    }
}

/// Why a frame is refused. Each error comes only from the bytes that it speaks of: a message
/// of less than four bytes, one that is shorter than its header, one that ends before the
/// number that its flags promise, before its size or its code, or before the end of its
/// payload, or one whose payload is marked as compressed and is not.
pub proof fn frames_are_refused_for_what_they_lack(msg: Seq<u8>, e: ResponseError)
    requires
        frame_outcome(msg, Err(e)),
        msg.len() <= usize::MAX,
    ensures
        ({
            let header = 4 * (msg[0] % 16);
            let at = header + if msg[1] % 2 == 1 {
                4int
            } else {
                0int
            };
            match e {
                ResponseError::TooShort { len } => len == msg.len() && msg.len() < 4,
                ResponseError::ShorterThanHeader { len, header: declared } => len == msg.len()
                    && declared == header && 4 <= msg.len() < header,
                ResponseError::MissingSequence => msg[1] % 2 == 1 && 4 <= msg.len() && header
                    <= msg.len() < header + 4,
                ResponseError::MissingPayloadSize => msg[1] / 16 == 9 && 4 <= msg.len() && at
                    <= msg.len() < at + 4,
                ResponseError::MissingCodeOrSize => msg[1] / 16 == 15 && 4 <= msg.len() && at
                    <= msg.len() < at + 8,
                ResponseError::Truncated { need, have } => have < need && (msg[1] / 16 == 9 && have
                    == msg.len() - at - 4 || msg[1] / 16 == 15 && have == msg.len() - at - 8),
                ResponseError::Gzip(_) => msg[2] % 16 == 1 && (msg[1] / 16 == 9 && at + 4
                    <= msg.len() || msg[1] / 16 == 15 && at + 8 <= msg.len()),
                ResponseError::InvalidJson { .. } => false,
            }
        }),
{
    assert(msg[0] % 16 * 4 == 4 * (msg[0] % 16));
    if msg.len() >= 4 && msg.len() >= payload_at(msg) && (msg[1] / 16 == 9 || msg[1] / 16 == 15) {
        be32_at_is_small(msg, payload_at(msg) - 4);
    }
}

proof fn be32_at_is_small(msg: Seq<u8>, at: int)
    ensures
        be32_at(msg, at) <= u32::MAX,
{
}

/// Bytes behind the end of a frame that could be read change nothing.
pub proof fn trailing_bytes_are_ignored(
    msg: Seq<u8>,
    more: Seq<u8>,
    frame: ResponseFrame,
    r: Result<ResponseFrame, ResponseError>,
)
    requires
        frame_outcome(msg, Ok(frame)),
        frame_outcome(msg + more, r),
    ensures
        r matches Ok(same) && {
            &&& same.code == frame.code
            &&& same.is_last_package == frame.is_last_package
            &&& same.sequence == frame.sequence
            &&& same.body is Some <==> frame.body is Some
            &&& same.body matches Some(body) ==> body@ == frame.body->0@
        },
{
    let long = msg + more;
    assert(long[0] == msg[0] && long[1] == msg[1] && long[2] == msg[2]);
    assert(header_len(long) == header_len(msg));
    assert(fields_at(long) == fields_at(msg));
    assert(payload_at(long) == payload_at(msg));
    if has_sequence(msg) {
        assert(be32_at(long, header_len(msg)) == be32_at(msg, header_len(msg)));
    }
    if message_type(msg) == SERVER_ERROR_RESPONSE {
        assert(be32_at(long, fields_at(msg)) == be32_at(msg, fields_at(msg)));
    }
    if message_type(msg) == SERVER_ERROR_RESPONSE || message_type(msg) == SERVER_FULL_RESPONSE {
        assert(be32_at(long, payload_at(msg) - 4) == be32_at(msg, payload_at(msg) - 4));
        assert(raw_payload(long) =~= raw_payload(msg));
    }
}

/// A frame keeps its code, its flag and its number whatever its JSON is read as. It is refused
/// just where it carries JSON that cannot be read, and has a payload just where it carries
/// JSON; then the payload is what that was read as.
pub proof fn responses_keep_what_the_frame_says(
    frame: ResponseFrame,
    decoded: Result<AsrResponsePayload, String>,
    r: Result<DoubaoResponse, ResponseError>,
)
    requires
        response_outcome(frame, decoded, r),
    ensures
        r is Err <==> frame.body is Some && decoded is Err,
        r matches Ok(response) ==> {
            &&& response.code == frame.code
            &&& response.is_last_package == frame.is_last_package
            &&& response.sequence == frame.sequence
            &&& response.payload is Some <==> frame.body is Some
            &&& response.payload matches Some(payload) ==> decoded == Ok::<_, String>(payload)
        },
        r matches Err(e) ==> (e matches ResponseError::InvalidJson { error, raw } && decoded
            == Err::<AsrResponsePayload, _>(error) && raw@ == utf8_lossy(frame.body->0@)),
{
}

/// A message is refused with just the error of its frame where that is refused. Otherwise it
/// keeps the frame's code, flag and number; only what `decode` makes of the frame's JSON can
/// refuse it or give it a payload, and without JSON `decode` has no part in it.
pub proof fn messages_are_read_by_their_frame<F: Fn(&[u8]) -> Result<AsrResponsePayload, String>>(
    msg: Seq<u8>,
    decode: F,
    r: Result<DoubaoResponse, ResponseError>,
)
    requires
        reads(msg, decode, r),
    ensures
        exists|f: Result<ResponseFrame, ResponseError>| #[trigger]
            frame_outcome(msg, f) && match f {
                Err(e) => r == Err::<DoubaoResponse, _>(e),
                Ok(frame) => {
                    &&& r matches Ok(response) ==> {
                        &&& response.code == frame.code
                        &&& response.is_last_package == frame.is_last_package
                        &&& response.sequence == frame.sequence
                        &&& response.payload is Some <==> frame.body is Some
                    }
                    &&& frame.body is None ==> r is Ok
                    &&& r matches Ok(response) ==> (response.payload matches Some(payload)
                        ==> exists|b: &[u8]|
                        b@ == frame.body->0@ && #[trigger] call_ensures(
                            decode,
                            (b,),
                            Ok::<_, String>(payload),
                        ))
                    &&& r matches Err(e) ==> (e matches ResponseError::InvalidJson { error, .. }
                        && exists|b: &[u8]|
                        b@ == frame.body->0@ && #[trigger] call_ensures(
                            decode,
                            (b,),
                            Err::<AsrResponsePayload, _>(error),
                        ))
                },
            },
{
    let (f, d) = choose|
        f: Result<ResponseFrame, ResponseError>,
        d: Result<AsrResponsePayload, String>,
    |
        {
            &&& frame_outcome(msg, f)
            &&& #[trigger] decoded_by(decode, f, d)
            &&& match f {
                Ok(frame) => response_outcome(frame, d, r),
                Err(e) => r == Err::<DoubaoResponse, _>(e),
            }
        };
    assert(frame_outcome(msg, f));
    assert(decoded_by(decode, f, d));
    if let Ok(frame) = f {
        responses_keep_what_the_frame_says(frame, d, r);
        if frame.body is Some {
            let b = choose|b: &[u8]|
                b@ == frame.body->0@ && #[trigger] call_ensures(decode, (b,), d);
            assert(call_ensures(decode, (b,), d));
        }
    }
}

/// A frame that is too short is told with the lengths that it has and should have, each in its
/// place, and JSON that cannot be read with the reader's error and the text itself at the end.
pub proof fn refusals_tell_their_numbers(e: ResponseError)
    ensures
        match e {
            ResponseError::TooShort { len } => e.text() == "response too short: "@ + decimal(
                len as nat,
            ) + " bytes"@,
            ResponseError::ShorterThanHeader { len, header } => e.text()
                == "response shorter than declared header ("@ + decimal(len as nat) + " < "@
                + decimal(header as nat) + ")"@,
            ResponseError::Truncated { need, have } => ends_in(e.text(), decimal(have as nat))
                && e.text() == "response payload truncated: need "@ + decimal(need as nat)
                + " more, have "@ + decimal(have as nat),
            ResponseError::InvalidJson { error, raw } => ends_in(e.text(), raw@) && e.text()
                == "invalid response JSON: "@ + error@ + "; raw="@ + raw@,
            ResponseError::Gzip(cause) => e.text() == cause.text(),
            _ => true,
        },
{
    match e {
        ResponseError::Truncated { need, have } => appended_texts_are_ends(
            "response payload truncated: need "@ + decimal(need as nat) + " more, have "@,
            decimal(have as nat),
        ),
        ResponseError::InvalidJson { error, raw } => appended_texts_are_ends(
            "invalid response JSON: "@ + error@ + "; raw="@,
            raw@,
        ),
        _ => {},
    }
}

} // verus!
