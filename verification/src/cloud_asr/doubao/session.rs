//! What the sessions have in common: their errors, the server's replies and how a reply
//! is taken in.

use crate::cloud_asr::doubao::handshake::HandshakeError;
use crate::cloud_asr::doubao::payload::{build_full_client_request, AsrRequestPayload, RequestError};
#[allow(unused_imports)]
use crate::cloud_asr::doubao::payload::{
    audio_frames_mark_the_last, audio_request_header, carries, configuration_frames_come_first,
    declares_its_size, full_request_header, request_frame,
};
use crate::cloud_asr::doubao::protocol::GzipError;
#[allow(unused_imports)]
use crate::cloud_asr::doubao::protocol::gunzip;
use crate::cloud_asr::doubao::response::{DoubaoResponse, ResponseError};
use crate::text::{debug_text, decimal_text, signed_decimal_text};
#[allow(unused_imports)]
use crate::text::{
    appended_texts_are_ends, debug_form, decimal, ends_in, opt_text, signed_decimal,
};
use vstd::prelude::*;

verus! {

/// How long a packet that was sent is followed by waiting for a reply, in milliseconds.
pub const REPLY_TICK_MS: u64 = 10;

/// How long the final text is awaited after the last packet, in seconds.
pub const TAIL_TIMEOUT_SECS: u64 = 30;

/// Why a session failed.
#[derive(Debug)]
pub enum SessionError {
    EmptyApiKey,
    EmptyAudio,
    Handshake(HandshakeError),
    Dial(String),
    StreamDial(String),
    Request(RequestError),
    Gzip(GzipError),
    SendConfig(String),
    SendAudio { seq: i32, error: String },
    SendLast(String),
    Response(ResponseError),
    /// The server reported an error.
    Server { code: u32, error: Option<String> },
    ReadTail(String),
    ReadFirst(String),
    ClosedBeforeResponse,
    NoResponse,
    /// The server closed the connection before its last frame.
    ClosedBeforeLast,
    StreamClosed,
    StreamRead(String),
    StreamTail(String),
}

impl SessionError {
    /// The text of the error.
    pub open spec fn text(self) -> Seq<char> {
        match self {
            SessionError::EmptyApiKey => "Doubao API key is empty"@,
            SessionError::EmptyAudio => "Empty audio buffer"@,
            SessionError::Handshake(e) => e.text(),
            SessionError::Dial(e) => "Doubao WebSocket dial failed: "@ + e@,
            SessionError::StreamDial(e) => "Doubao stream dial failed: "@ + e@,
            SessionError::Request(e) => e.text(),
            SessionError::Gzip(e) => e.text(),
            SessionError::SendConfig(e) => "send full client request failed: "@ + e@,
            SessionError::SendAudio { seq, error } => "send audio packet seq="@ + signed_decimal(
                seq as int,
            ) + " failed: "@ + error@,
            SessionError::SendLast(e) => "send last packet failed: "@ + e@,
            SessionError::Response(e) => e.text(),
            SessionError::Server { code, error } => "Doubao server returned error code "@
                + decimal(code as nat) + ": "@ + debug_form(opt_text(error)),
            SessionError::ReadTail(e) => "read tail response failed: "@ + e@,
            SessionError::ReadFirst(e) => "read first response failed: "@ + e@,
            SessionError::ClosedBeforeResponse =>
                "Doubao server closed connection before responding"@,
            SessionError::NoResponse =>
                "Doubao server did not respond within 10s; check network or X-Api-Resource-Id"@,
            SessionError::ClosedBeforeLast =>
                "Doubao server closed before sending last_package frame"@,
            SessionError::StreamClosed => "Doubao stream closed before recording finished"@,
            SessionError::StreamRead(e) => "Doubao stream read failed: "@ + e@,
            SessionError::StreamTail(e) => "Doubao stream tail read failed: "@ + e@,
        }
    }

    /// The error as a message.
    pub fn message(&self) -> (r: String)
        ensures
            r@ == self.text(),
    {
        match self {
            SessionError::EmptyApiKey => "Doubao API key is empty".to_owned(),
            SessionError::EmptyAudio => "Empty audio buffer".to_owned(),
            SessionError::Handshake(e) => e.message(),
            SessionError::Dial(e) => "Doubao WebSocket dial failed: ".to_owned().concat(e.as_str()),
            SessionError::StreamDial(e) => "Doubao stream dial failed: ".to_owned().concat(
                e.as_str(),
            ),
            SessionError::Request(e) => e.message(),
            SessionError::Gzip(e) => e.message(),
            SessionError::SendConfig(e) => "send full client request failed: ".to_owned().concat(
                e.as_str(),
            ),
            SessionError::SendAudio { seq, error } => "send audio packet seq=".to_owned().concat(
                signed_decimal_text(*seq).as_str(),
            ).concat(" failed: ").concat(error.as_str()),
            SessionError::SendLast(e) => "send last packet failed: ".to_owned().concat(e.as_str()),
            SessionError::Response(e) => e.message(),
            SessionError::Server { code, error } =>
                "Doubao server returned error code ".to_owned().concat(
                decimal_text(*code as u64).as_str(),
            ).concat(": ").concat(debug_text(error).as_str()),
            SessionError::ReadTail(e) => "read tail response failed: ".to_owned().concat(
                e.as_str(),
            ),
            SessionError::ReadFirst(e) => "read first response failed: ".to_owned().concat(
                e.as_str(),
            ),
            SessionError::ClosedBeforeResponse =>
                "Doubao server closed connection before responding".to_owned(),
            SessionError::NoResponse =>
                "Doubao server did not respond within 10s; check network or X-Api-Resource-Id".to_owned(),
            SessionError::ClosedBeforeLast =>
                "Doubao server closed before sending last_package frame".to_owned(),
            SessionError::StreamClosed =>
                "Doubao stream closed before recording finished".to_owned(),
            SessionError::StreamRead(e) => "Doubao stream read failed: ".to_owned().concat(
                e.as_str(),
            ),
            SessionError::StreamTail(e) => "Doubao stream tail read failed: ".to_owned().concat(
                e.as_str(),
            ),
        }
    }
}

/// Whether `r` is the frame that opens a session, for what writing the configuration as
/// JSON gave.
pub open spec fn session_frame(
    json: Result<Vec<u8>, String>,
    r: Result<Vec<u8>, SessionError>,
) -> bool {
    match json {
        Ok(json) => {
            &&& r is Ok
            &&& r->Ok_0@ == request_frame(full_request_header(), 1, json@)
            &&& carries(r->Ok_0@, full_request_header(), 1, json@)
            &&& json@.len() < 0x4000_0000 ==> declares_its_size(r->Ok_0@)
        },
        Err(e) => r == Err::<Vec<u8>, _>(SessionError::Request(RequestError::Encode(e))),
    }
}

/// Builds the frame that opens a session after its handshake: the default configuration
/// without a language, which the transcription endpoint does not take. `encode` writes it
/// as JSON.
pub fn session_configuration<F: Fn(&AsrRequestPayload) -> Result<Vec<u8>, String>>(
    encode: F,
) -> (r: Result<Vec<u8>, SessionError>)
    requires
        forall|p: &AsrRequestPayload| #[trigger] call_requires(encode, (p,)),
    ensures
        configures(encode, r),
{
    match build_full_client_request(None, encode) {
        Ok(frame) => Ok(frame),
        Err(e) => Err(SessionError::Request(e)),
    }
}

/// An audio frame to be sent, with its sequence number.
#[derive(Debug)]
pub struct Packet {
    pub seq: i32,
    pub frame: Vec<u8>,
}

/// Whether a writer of JSON always writes the default configuration without a language the
/// same way.
pub open spec fn encodes_alike<F: Fn(&AsrRequestPayload) -> Result<Vec<u8>, String>>(
    encode: F,
) -> bool {
    forall|p: &AsrRequestPayload, q: &AsrRequestPayload, a: Vec<u8>, b: Vec<u8>|
        p.is_handy_default(None) && q.is_handy_default(None) && #[trigger] call_ensures(
            encode,
            (p,),
            Ok::<Vec<u8>, String>(a),
        ) && #[trigger] call_ensures(encode, (q,), Ok::<Vec<u8>, String>(b)) ==> a@ == b@
}

/// Whether `r` is an outcome of building the frame that opens a session.
pub open spec fn configures<F: Fn(&AsrRequestPayload) -> Result<Vec<u8>, String>>(
    encode: F,
    r: Result<Vec<u8>, SessionError>,
) -> bool {
    exists|p: AsrRequestPayload, json: Result<Vec<u8>, String>|
        {
            &&& p.is_handy_default(None)
            &&& #[trigger] call_ensures(encode, (&p,), json)
            &&& session_frame(json, r)
        }
}

/// Every session opens with the same bytes, whatever language its user prefers.
pub proof fn sessions_open_alike<F: Fn(&AsrRequestPayload) -> Result<Vec<u8>, String>>(
    encode: F,
    a: Vec<u8>,
    b: Vec<u8>,
)
    requires
        encodes_alike(encode),
        configures(encode, Ok(a)),
        configures(encode, Ok(b)),
    ensures
        a@ == b@,
{
    let (p, json_a) = choose|p: AsrRequestPayload, json: Result<Vec<u8>, String>|
        {
            &&& p.is_handy_default(None)
            &&& #[trigger] call_ensures(encode, (&p,), json)
            &&& session_frame(json, Ok(a))
        };
    let (q, json_b) = choose|p: AsrRequestPayload, json: Result<Vec<u8>, String>|
        {
            &&& p.is_handy_default(None)
            &&& #[trigger] call_ensures(encode, (&p,), json)
            &&& session_frame(json, Ok(b))
        };
    assert(call_ensures(encode, (&p,), Ok::<Vec<u8>, String>(json_a->Ok_0)));
    assert(call_ensures(encode, (&q,), Ok::<Vec<u8>, String>(json_b->Ok_0)));
    assert(json_a->Ok_0@ == json_b->Ok_0@);
}

/// Whether `packet` is the audio frame with the given number and content.
pub open spec fn packet_of(packet: Packet, seq: int, content: Seq<u8>) -> bool {
    let header = audio_request_header(packet.seq);
    &&& packet.seq == seq
    &&& packet.frame@ == request_frame(header, packet.seq, content)
    &&& carries(packet.frame@, header, packet.seq, content)
    &&& content.len() < 0x4000_0000 ==> declares_its_size(packet.frame@)
}

/// The audio that a packet carries.
pub open spec fn packet_audio(packet: Packet) -> Seq<u8> {
    match gunzip(packet.frame@.skip(12)) {
        Ok(content) => content,
        Err(_) => Seq::empty(),
    }
}

/// What came of waiting for the server.
#[derive(Debug)]
pub enum ServerReply {
    /// A binary message, decoded.
    Frame(Result<DoubaoResponse, ResponseError>),
    /// A message that says the server closes the connection.
    Close,
    /// A message of another kind.
    Other,
    /// The connection has ended.
    Ended,
    /// Reading failed.
    Failed(String),
    /// Nothing came in time.
    Timeout,
}

/// Whether a reply says that the connection is closed.
pub open spec fn is_closing(reply: ServerReply) -> bool {
    reply is Close || reply is Ended
}

/// Tells whether a reply says that the connection is closed.
pub fn closes(reply: &ServerReply) -> (r: bool)
    ensures
        r == is_closing(*reply),
{
    match reply {
        ServerReply::Close | ServerReply::Ended => true,
        _ => false,
    }
}

/// The message of an error response.
pub open spec fn error_message(parsed: DoubaoResponse) -> Option<String> {
    match parsed.payload {
        Some(payload) => payload.error,
        None => None,
    }
}

/// The recognised text after a response: each response carries the whole text so far,
/// but an empty one changes nothing.
pub open spec fn text_after(text: Seq<char>, parsed: DoubaoResponse) -> Seq<char> {
    match parsed.payload {
        Some(payload) => if parsed.code == 0 && payload.result.text@.len() > 0 {
            payload.result.text@
        } else {
            text
        },
        None => text,
    }
}

/// Takes a response into the recognised text, or reports the server's error.
pub fn handle_parsed(parsed: DoubaoResponse, text: &mut String) -> (r: Result<(), SessionError>)
    ensures
        final(text)@ == text_after(old(text)@, parsed),
        r == (if parsed.code == 0 {
            Ok::<(), SessionError>(())
        } else {
            Err(SessionError::Server { code: parsed.code, error: error_message(parsed) })
        }),
{
    if parsed.code != 0 {
        let error: Option<String> = match parsed.payload {
            Some(payload) => payload.error,
            None => None,
        };
        return Err(SessionError::Server { code: parsed.code, error });
    }
    if let Some(payload) = parsed.payload {
        if payload.result.text.as_str().unicode_len() > 0 {
            *text = payload.result.text;
        }
    }
    Ok(())
}

/// Where a session stands: still sending audio, or past the last packet.
#[derive(Debug, Clone, Copy, PartialEq, Eq, Structural)]
pub enum Phase {
    /// A recording that is complete is being sent.
    Sending,
    /// All of a complete recording has been sent.
    SendingTail,
    /// Audio is sent while it is recorded.
    Recording,
    /// The recording has ended, and all of it has been sent.
    RecordingTail,
}

impl Phase {
    /// Whether the last packet has been sent.
    pub open spec fn is_tail(self) -> bool {
        self == Phase::SendingTail || self == Phase::RecordingTail
    }
}

/// What a reply means for the session.
#[derive(Debug)]
pub enum Verdict {
    Continue,
    /// The text is final.
    Finish,
    Fail(SessionError),
}

/// The text after a reply.
pub open spec fn text_after_reply(text: Seq<char>, reply: ServerReply) -> Seq<char> {
    match reply {
        ServerReply::Frame(Ok(parsed)) => text_after(text, parsed),
        _ => text,
    }
}

/// What a reply means in a phase. An error that the server reports always ends the
/// session, and so does its last frame. While a complete recording is being sent all
/// else is passed over, a closed connection only until there is nothing left to send. Past
/// the last packet a broken frame or a failed read ends the session with an error, while a
/// missing reply ends it with the text so far. A connection that is closed before the
/// server's last frame is an error for a complete recording; for one that was uploaded
/// meanwhile it is an error only before the recording has ended.
pub open spec fn verdict_of(phase: Phase, reply: ServerReply) -> Verdict {
    match reply {
        ServerReply::Frame(Ok(parsed)) => if parsed.code != 0 {
            Verdict::Fail(SessionError::Server { code: parsed.code, error: error_message(parsed) })
        } else if parsed.is_last_package {
            Verdict::Finish
        } else {
            Verdict::Continue
        },
        ServerReply::Frame(Err(e)) => if phase.is_tail() {
            Verdict::Fail(SessionError::Response(e))
        } else {
            Verdict::Continue
        },
        ServerReply::Other => Verdict::Continue,
        ServerReply::Close | ServerReply::Ended => match phase {
            Phase::Sending => Verdict::Continue,
            Phase::SendingTail => Verdict::Fail(SessionError::ClosedBeforeLast),
            Phase::Recording => Verdict::Fail(SessionError::StreamClosed),
            Phase::RecordingTail => Verdict::Finish,
        },
        ServerReply::Failed(e) => match phase {
            Phase::Sending => Verdict::Continue,
            Phase::SendingTail => Verdict::Fail(SessionError::ReadTail(e)),
            Phase::Recording => Verdict::Fail(SessionError::StreamRead(e)),
            Phase::RecordingTail => Verdict::Fail(SessionError::StreamTail(e)),
        },
        ServerReply::Timeout => if phase.is_tail() {
            Verdict::Finish
        } else {
            Verdict::Continue
        },
    }
}

/// Takes a reply into the recognised text and says what it means for the session.
pub fn absorb_reply(phase: Phase, reply: ServerReply, text: &mut String) -> (r: Verdict)
    ensures
        final(text)@ == text_after_reply(old(text)@, reply),
        r == verdict_of(phase, reply),
        r is Finish ==> match reply {
            ServerReply::Frame(Ok(parsed)) => parsed.code == 0 && parsed.is_last_package,
            ServerReply::Timeout => phase == Phase::SendingTail || phase == Phase::RecordingTail,
            ServerReply::Close | ServerReply::Ended => phase == Phase::RecordingTail,
            _ => false,
        },
        reply matches ServerReply::Frame(Ok(parsed)) ==> {
            &&& parsed.code != 0 ==> r is Fail
            &&& parsed.code == 0 && !parsed.is_last_package ==> r is Continue
            &&& parsed.code == 0 && parsed.is_last_package ==> r is Finish
        },
{
    let tail = phase == Phase::SendingTail || phase == Phase::RecordingTail;
    match reply {
        ServerReply::Frame(Ok(parsed)) => {
            let was_last = parsed.is_last_package;
            match handle_parsed(parsed, text) {
                Ok(_) => if was_last {
                    Verdict::Finish
                } else {
                    Verdict::Continue
                },
                Err(e) => Verdict::Fail(e),
            }
        },
        ServerReply::Frame(Err(e)) => if tail {
            Verdict::Fail(SessionError::Response(e))
        } else {
            Verdict::Continue
        },
        ServerReply::Other => Verdict::Continue,
        ServerReply::Close | ServerReply::Ended => match phase {
            Phase::Sending => Verdict::Continue,
            Phase::SendingTail => Verdict::Fail(SessionError::ClosedBeforeLast),
            Phase::Recording => Verdict::Fail(SessionError::StreamClosed),
            Phase::RecordingTail => Verdict::Finish,
        },
        ServerReply::Failed(e) => match phase {
            Phase::Sending => Verdict::Continue,
            Phase::SendingTail => Verdict::Fail(SessionError::ReadTail(e)),
            Phase::Recording => Verdict::Fail(SessionError::StreamRead(e)),
            Phase::RecordingTail => Verdict::Fail(SessionError::StreamTail(e)),
        },
        ServerReply::Timeout => if tail {
            Verdict::Finish
        } else {
            Verdict::Continue
        },
    }
}

/// Whether a reply brings a text: a frame without error whose text is not empty.
pub open spec fn brings_text(reply: ServerReply) -> bool {
    match reply {
        ServerReply::Frame(Ok(parsed)) => parsed.code == 0 && parsed.payload is Some
            && parsed.payload->0.result.text@.len() > 0,
        _ => false,
    }
}

/// The text after a sequence of replies.
pub open spec fn text_after_replies(text: Seq<char>, replies: Seq<ServerReply>) -> Seq<char>
    decreases replies.len(),
{
    if replies.len() == 0 {
        text
    } else {
        text_after_reply(text_after_replies(text, replies.drop_last()), replies.last())
    }
}

/// The text after any number of replies is the one that the last reply with a text
/// brought: texts replace each other and are never put together.
pub proof fn last_text_wins(text: Seq<char>, replies: Seq<ServerReply>, i: int)
    requires
        0 <= i < replies.len(),
        brings_text(replies[i]),
        forall|j: int| i < j < replies.len() ==> !brings_text(#[trigger] replies[j]),
    ensures
        replies[i] matches ServerReply::Frame(Ok(parsed)) && text_after_replies(text, replies)
            == parsed.payload->0.result.text@,
    decreases replies.len(),
{
    if i < replies.len() - 1 {
        assert(!brings_text(replies[replies.len() - 1]));
        last_text_wins(text, replies.drop_last(), i);
    }
}

/// Replies without a text leave the text as it was.
pub proof fn no_text_no_change(text: Seq<char>, replies: Seq<ServerReply>)
    requires
        forall|j: int| 0 <= j < replies.len() ==> !brings_text(#[trigger] replies[j]),
    ensures
        text_after_replies(text, replies) == text,
    decreases replies.len(),
{
    if replies.len() > 0 {
        assert(!brings_text(replies[replies.len() - 1]));
        no_text_no_change(text, replies.drop_last());
    }
}

/// A frame without error whose text is not empty replaces the text, however long either
/// is. A frame with an error, without a payload or with an empty text, and any reply that is
/// no frame that could be read, leave the text as it was.
pub proof fn only_a_text_replaces_the_text(text: Seq<char>, reply: ServerReply)
    ensures
        match reply {
            ServerReply::Frame(Ok(parsed)) => {
                &&& parsed.code != 0 ==> text_after_reply(text, reply) == text
                &&& parsed.payload is None ==> text_after_reply(text, reply) == text
                &&& parsed.payload matches Some(payload) ==> {
                    &&& payload.result.text@ =~= Seq::<char>::empty() ==> text_after_reply(
                        text,
                        reply,
                    ) == text
                    &&& parsed.code == 0 && payload.result.text@ != Seq::<char>::empty()
                        ==> text_after_reply(text, reply) == payload.result.text@
                }
            },
            _ => text_after_reply(text, reply) == text,
        },
{
    if let ServerReply::Frame(Ok(parsed)) = reply {
        if let Some(payload) = parsed.payload {
            if payload.result.text@.len() == 0 {
                assert(payload.result.text@ =~= Seq::<char>::empty());
            }
        }
    }
}

/// A reply is awaited for a hundredth of a second after a packet, and for half a minute
/// after the last one.
pub proof fn replies_are_awaited_shortly_but_in_the_tail()
    ensures
        REPLY_TICK_MS == 10,
        TAIL_TIMEOUT_SECS == 30,
        REPLY_TICK_MS < 1000 * TAIL_TIMEOUT_SECS,
{
}

/// A session opens without a language, whatever the user prefers, and with what writing that
/// configuration gave: the JSON in a configuration frame, or the error of writing it.
pub proof fn sessions_open_without_a_language<
    F: Fn(&AsrRequestPayload) -> Result<Vec<u8>, String>,
>(encode: F, r: Result<Vec<u8>, SessionError>)
    requires
        configures(encode, r),
    ensures
        exists|p: AsrRequestPayload, json: Result<Vec<u8>, String>|
            {
                &&& p.audio.language is None
                &&& p.audio.rate == 16000
                &&& #[trigger] call_ensures(encode, (&p,), json)
                &&& json matches Ok(json) ==> (r matches Ok(frame) && frame@[1] == 0x11 && gunzip(
                    frame@.skip(12),
                ) == Ok::<Seq<u8>, Seq<char>>(json@))
                &&& json matches Err(e) ==> (r matches Err(
                    SessionError::Request(RequestError::Encode(told)),
                ) && told == e)
            },
{
    let (p, json) = choose|p: AsrRequestPayload, json: Result<Vec<u8>, String>|
        {
            &&& p.is_handy_default(None)
            &&& #[trigger] call_ensures(encode, (&p,), json)
            &&& session_frame(json, r)
        };
    if let Ok(json) = json {
        configuration_frames_come_first(r->Ok_0@, json@);
    }
    assert(p.audio.language is None);
}

/// A packet is what its number and its audio make it: it carries the audio compressed, its
/// header and the number in its bytes are those of its number, and it is marked as the last
/// just where that is negative.
pub proof fn packets_are_marked_by_their_number(packet: Packet, seq: int, content: Seq<u8>)
    requires
        packet_of(packet, seq, content),
    ensures
        packet.seq == seq,
        packet_audio(packet) == content,
        packet.frame@[1] == if seq < 0 {
            0x23u8
        } else {
            0x21u8
        },
        0x100_0000 * packet.frame@[4] + 0x1_0000 * packet.frame@[5] + 0x100 * packet.frame@[6]
            + packet.frame@[7] == if seq < 0 {
            0x1_0000_0000 + seq
        } else {
            seq
        },
{
    audio_frames_mark_the_last(packet.frame@, packet.seq, content);
}

/// An error that comes from elsewhere keeps the text that it had there at the end of its own,
/// or is just that.
pub proof fn session_errors_tell_their_cause(e: SessionError)
    ensures
        match e {
            SessionError::Dial(cause) => ends_in(e.text(), cause@),
            SessionError::StreamDial(cause) => ends_in(e.text(), cause@),
            SessionError::SendConfig(cause) => ends_in(e.text(), cause@),
            SessionError::SendAudio { error, .. } => ends_in(e.text(), error@),
            SessionError::SendLast(cause) => ends_in(e.text(), cause@),
            SessionError::ReadTail(cause) => ends_in(e.text(), cause@),
            SessionError::ReadFirst(cause) => ends_in(e.text(), cause@),
            SessionError::StreamRead(cause) => ends_in(e.text(), cause@),
            SessionError::StreamTail(cause) => ends_in(e.text(), cause@),
            SessionError::Server { error, .. } => ends_in(e.text(), debug_form(opt_text(error))),
            SessionError::Handshake(cause) => e.text() == cause.text(),
            SessionError::Request(cause) => e.text() == cause.text(),
            SessionError::Gzip(cause) => e.text() == cause.text(),
            SessionError::Response(cause) => e.text() == cause.text(),
            _ => true,
        },
{
    match e {
        SessionError::Dial(cause) => appended_texts_are_ends(
            "Doubao WebSocket dial failed: "@,
            cause@,
        ),
        SessionError::StreamDial(cause) => appended_texts_are_ends(
            "Doubao stream dial failed: "@,
            cause@,
        ),
        SessionError::SendConfig(cause) => appended_texts_are_ends(
            "send full client request failed: "@,
            cause@,
        ),
        SessionError::SendAudio { seq, error } => appended_texts_are_ends(
            "send audio packet seq="@ + signed_decimal(seq as int) + " failed: "@,
            error@,
        ),
        SessionError::SendLast(cause) => appended_texts_are_ends(
            "send last packet failed: "@,
            cause@,
        ),
        SessionError::ReadTail(cause) => appended_texts_are_ends(
            "read tail response failed: "@,
            cause@,
        ),
        SessionError::ReadFirst(cause) => appended_texts_are_ends(
            "read first response failed: "@,
            cause@,
        ),
        SessionError::StreamRead(cause) => appended_texts_are_ends(
            "Doubao stream read failed: "@,
            cause@,
        ),
        SessionError::StreamTail(cause) => appended_texts_are_ends(
            "Doubao stream tail read failed: "@,
            cause@,
        ),
        SessionError::Server { code, error } => appended_texts_are_ends(
            "Doubao server returned error code "@ + decimal(code as nat) + ": "@,
            debug_form(opt_text(error)),
        ),
        _ => {},
    }
}

/// An error that the server reports is told with its code, and a packet that could not be sent
/// with its number, sign and all.
pub proof fn session_errors_tell_their_numbers(code: u32, seq: i32, cause: String)
    ensures
        ({
            let told = SessionError::Server { code, error: Some(cause) }.text();
            let head = "Doubao server returned error code "@;
            &&& told.len() >= head.len() + decimal(code as nat).len()
            &&& told.take(head.len() as int) == head
            &&& told.subrange(head.len() as int, (head.len() + decimal(code as nat).len()) as int)
                == decimal(code as nat)
        }),
        ({
            let told = SessionError::SendAudio { seq, error: cause }.text();
            let head = "send audio packet seq="@;
            let number = signed_decimal(seq as int);
            &&& told.len() >= head.len() + number.len()
            &&& told.take(head.len() as int) == head
            &&& told.subrange(head.len() as int, (head.len() + number.len()) as int) == number
        }),
{
    let told = SessionError::Server { code, error: Some(cause) }.text();
    let head = "Doubao server returned error code "@;
    let number = decimal(code as nat);
    assert(told.take(head.len() as int) =~= head);
    assert(told.subrange(head.len() as int, (head.len() + number.len()) as int) =~= number);
    let unsent = SessionError::SendAudio { seq, error: cause }.text();
    let start = "send audio packet seq="@;
    let numeral = signed_decimal(seq as int);
    assert(unsent.take(start.len() as int) =~= start);
    assert(unsent.subrange(start.len() as int, (start.len() + numeral.len()) as int) =~= numeral);
}

} // verus!
