//! The client: its credentials, the opening of its sessions and the test of the
//! credentials.
//!
//! A recording is sent in packets of 200 ms, numbered from 2 on; the last one carries its
//! number negated. The server answers only when its result changes, so that packets are
//! sent without waiting for an answer to the configuration or to any other packet.

use crate::cloud_asr::doubao::handshake::{
    build_doubao_handshake, new_connection, HandshakeError, HandshakeRequest,
};
#[allow(unused_imports)]
use crate::cloud_asr::doubao::handshake::{
    fresh_handshake, handshake_outcome, handshakes_are_refused_for_control_characters,
    handshakes_carry_the_credentials, has_header, header_text, hex_digit, random_uuid, sendable, uri_host, websocket_key,
};
use crate::cloud_asr::doubao::session::{ServerReply, SessionError};
#[allow(unused_imports)]
use crate::cloud_asr::doubao::session::error_message;
use crate::text::is_blank;
#[allow(unused_imports)]
use crate::text::blank;
use vstd::prelude::*;

verus! {

/// The endpoint for transcription: it answers only when the result changes, and soon.
pub const DEFAULT_ENDPOINT: &'static str =
    "wss://openspeech.bytedance.com/api/v3/sauc/bigmodel_async";

/// The endpoint for the test of the credentials: it acknowledges the configuration
/// without any audio.
pub const VERIFY_ENDPOINT: &'static str =
    "wss://openspeech.bytedance.com/api/v3/sauc/bigmodel_nostream";

/// The resource that is used where none is named: the recogniser billed by the hour.
pub const DEFAULT_RESOURCE_ID: &'static str = "volc.seedasr.sauc.duration";

/// The duration of the audio in one packet, in milliseconds.
pub const SEGMENT_DURATION_MS: usize = 200;

/// The bytes that one second takes: 16 kHz, 16 bit, one channel.
pub const PCM_BYTES_PER_SECOND: usize = 16000 * 2;

/// The bytes of audio in one packet.
pub const SEGMENT_SIZE_BYTES: usize = PCM_BYTES_PER_SECOND * SEGMENT_DURATION_MS / 1000;

/// How long the test of the credentials waits for a reply, in seconds.
pub const VERIFY_TIMEOUT_SECS: u64 = 10;

/// Credentials and the endpoint for transcription. Each session opens a connection of
/// its own.
#[derive(Clone)]
pub struct DoubaoClient {
    pub api_key: String,
    pub resource_id: String,
    pub endpoint: String,
}

/// Whether `r` is what opening a session comes to: an error for a blank key, else the
/// handshake.
pub open spec fn opening(
    api_key: Seq<char>,
    resource_id: Seq<char>,
    endpoint: Seq<char>,
    r: Result<HandshakeRequest, SessionError>,
) -> bool {
    if blank(api_key) {
        r == Err::<HandshakeRequest, _>(SessionError::EmptyApiKey)
    } else {
        match r {
            Ok(request) => {
                &&& fresh_handshake(api_key, resource_id, endpoint, Ok(request))
                &&& sendable(request)
            },
            Err(SessionError::Handshake(e)) => fresh_handshake(
                api_key,
                resource_id,
                endpoint,
                Err(e),
            ),
            Err(_) => false,
        }
    }
}

/// Whether a session can be opened with these credentials.
pub open spec fn can_open(
    api_key: Seq<char>,
    resource_id: Seq<char>,
    endpoint: Seq<char>,
) -> bool {
    &&& !blank(api_key)
    &&& header_text(api_key)
    &&& header_text(resource_id)
    &&& uri_host(endpoint) matches Ok(Some(_))
}

/// Whether `r` is what opening the transcription of `audio` bytes comes to.
pub open spec fn opens_transcription(
    client: DoubaoClient,
    audio: nat,
    r: Result<HandshakeRequest, SessionError>,
) -> bool {
    if !blank(client.api_key@) && audio == 0 {
        r == Err::<HandshakeRequest, _>(SessionError::EmptyAudio)
    } else {
        opening(client.api_key@, client.resource_id@, client.endpoint@, r)
    }
}

/// Whether `r` is what opening the test of the credentials comes to.
pub open spec fn opens_verification(
    client: DoubaoClient,
    r: Result<HandshakeRequest, SessionError>,
) -> bool {
    opening(client.api_key@, client.resource_id@, VERIFY_ENDPOINT@, r)
}

/// Makes the handshake of a session, unless the key is blank.
pub(crate) fn open_session(api_key: &str, resource_id: &str, endpoint: &str) -> (r: Result<
    HandshakeRequest,
    SessionError,
>)
    ensures
        opening(api_key@, resource_id@, endpoint@, r),
        r is Ok <==> can_open(api_key@, resource_id@, endpoint@),
{
    if is_blank(api_key) {
        return Err(SessionError::EmptyApiKey);
    }
    match new_connection(api_key, resource_id, endpoint) {
        Ok(request) => Ok(request),
        Err(e) => Err(SessionError::Handshake(e)),
    }
}

/// The resource that a resource id stands for: a blank one for the default.
pub open spec fn resource_or_default(resource_id: Seq<char>) -> Seq<char> {
    if blank(resource_id) {
        DEFAULT_RESOURCE_ID@
    } else {
        resource_id
    }
}

/// Replaces a blank resource id by the default.
pub(crate) fn default_resource(resource_id: String) -> (r: String)
    ensures
        r@ == resource_or_default(resource_id@),
{
    if is_blank(resource_id.as_str()) {
        DEFAULT_RESOURCE_ID.to_owned()
    } else {
        resource_id
    }
}

impl DoubaoClient {
    /// Makes a client. A blank resource id stands for [`DEFAULT_RESOURCE_ID`].
    pub fn new(api_key: String, resource_id: String) -> (r: Self)
        ensures
            r.api_key@ == api_key@,
            r.resource_id@ == resource_or_default(resource_id@),
            r.endpoint@ == DEFAULT_ENDPOINT@,
    {
        let resource_id = default_resource(resource_id);
        DoubaoClient { api_key, resource_id, endpoint: DEFAULT_ENDPOINT.to_owned() }
    }

    /// Makes the handshake request with the client's credentials.
    pub fn build_handshake_request(&self, request_id: &str, endpoint: &str) -> (r: Result<
        HandshakeRequest,
        HandshakeError,
    >)
        ensures
            exists|key: Seq<char>| #[trigger]
                websocket_key(key) && handshake_outcome(
                    self.api_key@,
                    self.resource_id@,
                    request_id@,
                    endpoint@,
                    key,
                    r,
                ),
            r matches Ok(request) ==> sendable(request),
    {
        build_doubao_handshake(
            self.api_key.as_str(),
            self.resource_id.as_str(),
            request_id,
            endpoint,
        )
    }

    /// Opens the transcription of a recording, given as `pcm_s16le` bytes: a key that is
    /// not blank, audio, and then the handshake with the client's endpoint.
    pub fn open_transcription(&self, pcm: &[u8]) -> (r: Result<HandshakeRequest, SessionError>)
        ensures
            if !blank(self.api_key@) && pcm@.len() == 0 {
                r == Err::<HandshakeRequest, _>(SessionError::EmptyAudio)
            } else {
                opening(self.api_key@, self.resource_id@, self.endpoint@, r)
            },
            r is Ok <==> pcm@.len() > 0 && can_open(
                self.api_key@,
                self.resource_id@,
                self.endpoint@,
            ),
            opens_transcription(*self, pcm@.len(), r),
    {
        if !is_blank(self.api_key.as_str()) && pcm.len() == 0 {
            return Err(SessionError::EmptyAudio);
        }
        open_session(self.api_key.as_str(), self.resource_id.as_str(), self.endpoint.as_str())
    }

    /// Opens the test of the credentials, which uses an endpoint of its own.
    pub fn open_verification(&self) -> (r: Result<HandshakeRequest, SessionError>)
        ensures
            opening(self.api_key@, self.resource_id@, VERIFY_ENDPOINT@, r),
            r is Ok <==> can_open(self.api_key@, self.resource_id@, VERIFY_ENDPOINT@),
            opens_verification(*self, r),
    {
        open_session(self.api_key.as_str(), self.resource_id.as_str(), VERIFY_ENDPOINT)
    }
}

/// Why the test of the credentials failed, with the log id of the connection, if it has
/// one: it helps the service find out more.
#[derive(Debug)]
pub struct VerifyFailure {
    pub error: SessionError,
    pub logid: Option<String>,
}

impl VerifyFailure {
    /// The text of the failure: the error, and the log id where there is one.
    pub open spec fn text(self) -> Seq<char> {
        match self.logid {
            Some(id) => self.error.text() + " (X-Tt-Logid: "@ + id@ + ")"@,
            None => self.error.text(),
        }
    }

    /// The failure as a message.
    pub fn message(&self) -> (r: String)
        ensures
            r@ == self.text(),
    {
        match &self.logid {
            Some(id) => self.error.message().concat(" (X-Tt-Logid: ").concat(id.as_str()).concat(
                ")",
            ),
            None => self.error.message(),
        }
    }
}

/// What the first reply to the configuration says against the credentials.
pub open spec fn objection(reply: ServerReply) -> Option<SessionError> {
    match reply {
        ServerReply::Frame(Ok(parsed)) => if parsed.code == 0 {
            None
        } else {
            Some(SessionError::Server { code: parsed.code, error: error_message(parsed) })
        },
        ServerReply::Frame(Err(e)) => Some(SessionError::Response(e)),
        ServerReply::Close | ServerReply::Other => None,
        ServerReply::Ended => Some(SessionError::ClosedBeforeResponse),
        ServerReply::Failed(e) => Some(SessionError::ReadFirst(e)),
        ServerReply::Timeout => Some(SessionError::NoResponse),
    }
}

fn find_objection(reply: ServerReply) -> (r: Option<SessionError>)
    ensures
        r == objection(reply),
{
    match reply {
        ServerReply::Frame(Ok(parsed)) => if parsed.code == 0 {
            None
        } else {
            let error: Option<String> = match parsed.payload {
                Some(payload) => payload.error,
                None => None,
            };
            Some(SessionError::Server { code: parsed.code, error })
        },
        ServerReply::Frame(Err(e)) => Some(SessionError::Response(e)),
        ServerReply::Close | ServerReply::Other => None,
        ServerReply::Ended => Some(SessionError::ClosedBeforeResponse),
        ServerReply::Failed(e) => Some(SessionError::ReadFirst(e)),
        ServerReply::Timeout => Some(SessionError::NoResponse),
    }
}

/// Judges the first reply to the configuration: the credentials are good if the server
/// answers anything but an error. Either way `logid`, the log id of the connection, comes
/// along.
pub fn verify_outcome(reply: ServerReply, logid: Option<String>) -> (r: Result<
    Option<String>,
    VerifyFailure,
>)
    ensures
        r == (match objection(reply) {
            None => Ok::<Option<String>, VerifyFailure>(logid),
            Some(error) => Err(VerifyFailure { error, logid }),
        }),
        r is Ok <==> match reply {
            ServerReply::Frame(Ok(parsed)) => parsed.code == 0,
            ServerReply::Close => true,
            ServerReply::Other => true,
            _ => false,
        },
        match r {
            Ok(id) => id == logid,
            Err(failure) => failure.logid == logid,
        },
{
    match find_objection(reply) {
        None => Ok(logid),
        Some(error) => Err(VerifyFailure { error, logid }),
    }
}

/// A resource id with anything in it but white space is used as it is; any other stands for
/// the recogniser billed by the hour.
pub proof fn named_resources_are_used(resource_id: Seq<char>)
    ensures
        !blank(resource_id) ==> resource_or_default(resource_id) == resource_id,
        blank(resource_id) ==> resource_or_default(resource_id) == "volc.seedasr.sauc.duration"@,
        (exists|i: int| 0 <= i < resource_id.len() && 0x21 <= #[trigger] resource_id[i] as u32
            <= 0x7e) ==> resource_or_default(resource_id) == resource_id,
{
    crate::text::visible_texts_are_not_blank(resource_id, resource_id);
}

/// The credentials are good just where the server's first answer is a frame without error, a
/// message that it closes the connection, or a message of another kind. An error that the
/// server reports, a frame that cannot be read, an ended connection, a failed read and a
/// missing reply each speak against them, as what they are.
pub proof fn only_errors_speak_against_credentials(reply: ServerReply)
    ensures
        objection(reply) is None <==> match reply {
            ServerReply::Frame(Ok(parsed)) => parsed.code == 0,
            ServerReply::Close => true,
            ServerReply::Other => true,
            _ => false,
        },
        reply matches ServerReply::Frame(Ok(parsed)) ==> parsed.code != 0 ==> objection(reply)
            == Some(
            SessionError::Server {
                code: parsed.code,
                error: match parsed.payload {
                    Some(payload) => payload.error,
                    None => None,
                },
            },
        ),
        reply matches ServerReply::Frame(Err(e)) ==> objection(reply) == Some(
            SessionError::Response(e),
        ),
        reply is Ended ==> objection(reply) == Some(SessionError::ClosedBeforeResponse),
        reply matches ServerReply::Failed(e) ==> objection(reply) == Some(
            SessionError::ReadFirst(e),
        ),
        reply is Timeout ==> objection(reply) == Some(SessionError::NoResponse),
{
}

/// A session is refused for its key before all else, and just where that is blank; whatever
/// else it is refused for lies in the handshake. A session that opens asks for the endpoint
/// with the key and the resource as they are.
pub proof fn sessions_open_with_their_credentials(
    api_key: Seq<char>,
    resource_id: Seq<char>,
    endpoint: Seq<char>,
    r: Result<HandshakeRequest, SessionError>,
)
    requires
        opening(api_key, resource_id, endpoint, r),
    ensures
        r matches Err(e) ==> (e is EmptyApiKey || e is Handshake),
        (r matches Err(SessionError::EmptyApiKey)) <==> blank(api_key),
        r matches Ok(request) ==> {
            &&& request.uri@ == endpoint
            &&& has_header(request, "X-Api-Key"@, api_key)
            &&& has_header(request, "X-Api-Resource-Id"@, resource_id)
        },
{
    if let Ok(request) = r {
        let (id, key) = choose|id: Seq<char>, key: Seq<char>|
            {
                &&& #[trigger] random_uuid(id)
                &&& #[trigger] websocket_key(key)
                &&& handshake_outcome(api_key, resource_id, id, endpoint, key, Ok(request))
            };
        handshakes_carry_the_credentials(
            api_key,
            resource_id,
            id,
            endpoint,
            uri_host(endpoint),
            key,
            request,
        );
    }
}

/// The transcription of a recording is opened with the client's own key, resource and
/// endpoint. Without audio it is refused, after the key has been looked at.
pub proof fn recordings_are_opened_with_the_clients_credentials(
    client: DoubaoClient,
    audio: nat,
    r: Result<HandshakeRequest, SessionError>,
)
    requires
        opens_transcription(client, audio, r),
    ensures
        (r matches Err(SessionError::EmptyApiKey)) <==> blank(client.api_key@),
        (r matches Err(SessionError::EmptyAudio)) <==> !blank(client.api_key@) && audio == 0,
        r matches Ok(request) ==> {
            &&& audio > 0
            &&& request.uri@ == client.endpoint@
            &&& has_header(request, "X-Api-Key"@, client.api_key@)
            &&& has_header(request, "X-Api-Resource-Id"@, client.resource_id@)
        },
{
    if blank(client.api_key@) || audio > 0 {
        sessions_open_with_their_credentials(
            client.api_key@,
            client.resource_id@,
            client.endpoint@,
            r,
        );
    }
}

/// A packet holds a fifth of a second of the service's audio, and the test of the credentials
/// waits ten seconds; it uses an endpoint of its own.
pub proof fn packets_hold_a_fifth_of_a_second()
    ensures
        SEGMENT_SIZE_BYTES * 5 == 16000 * 2,
        VERIFY_TIMEOUT_SECS == 10,
        DEFAULT_ENDPOINT@ == "wss://openspeech.bytedance.com/api/v3/sauc/bigmodel_async"@,
        VERIFY_ENDPOINT@ == "wss://openspeech.bytedance.com/api/v3/sauc/bigmodel_nostream"@,
        DEFAULT_RESOURCE_ID@ == "volc.seedasr.sauc.duration"@,
{
    crate::cloud_asr::doubao::batch::packet_arithmetic(0);
}

/// The test of the credentials asks for its own endpoint, with the key and the resource that
/// are tested.
pub proof fn verification_tests_the_clients_credentials(
    client: DoubaoClient,
    r: Result<HandshakeRequest, SessionError>,
)
    requires
        opens_verification(client, r),
    ensures
        (r matches Err(SessionError::EmptyApiKey)) <==> blank(client.api_key@),
        r matches Err(e) ==> (e is EmptyApiKey || e is Handshake),
        r matches Ok(request) ==> {
            &&& request.uri@ == "wss://openspeech.bytedance.com/api/v3/sauc/bigmodel_nostream"@
            &&& has_header(request, "X-Api-Key"@, client.api_key@)
            &&& has_header(request, "X-Api-Resource-Id"@, client.resource_id@)
        },
{
    sessions_open_with_their_credentials(
        client.api_key@,
        client.resource_id@,
        VERIFY_ENDPOINT@,
        r,
    );
}

/// A failed test of the credentials tells the error first, and then the log id just where
/// there is one.
pub proof fn failures_tell_the_error_and_the_log_id(failure: VerifyFailure)
    ensures
        failure.logid is None ==> failure.text() == failure.error.text(),
        failure.logid matches Some(id) ==> {
            let rest = " (X-Tt-Logid: "@ + id@ + ")"@;
            &&& failure.text() == failure.error.text() + rest
            &&& failure.text().take(failure.error.text().len() as int) == failure.error.text()
        },
{
    if let Some(id) = failure.logid {
        let rest = " (X-Tt-Logid: "@ + id@ + ")"@;
        assert(failure.text() =~= failure.error.text() + rest);
        assert(failure.text().take(failure.error.text().len() as int) =~= failure.error.text());
    }
}

/// A session opens just where its key is not blank, the endpoint has a host, and neither the
/// key nor the resource has a control character other than the tab in it; nothing else keeps
/// it from opening.
pub proof fn sessions_open_unless_refused(
    api_key: Seq<char>,
    resource_id: Seq<char>,
    endpoint: Seq<char>,
    r: Result<HandshakeRequest, SessionError>,
)
    requires
        opening(api_key, resource_id, endpoint, r),
    ensures
        ({
            let texts = api_key + resource_id;
            let bad = exists|i: int|
                0 <= i < texts.len() && ((#[trigger] texts[i] as u32) < 32 && texts[i] != '\t'
                    || texts[i] as u32 == 127);
            r is Ok <==> {
                &&& !blank(api_key)
                &&& uri_host(endpoint) matches Ok(Some(_))
                &&& !bad
            }
        }),
{
    if !blank(api_key) {
        let h: Result<HandshakeRequest, HandshakeError> = match r {
            Ok(request) => Ok(request),
            Err(SessionError::Handshake(e)) => Err(e),
            Err(_) => arbitrary(),
        };
        assert(fresh_handshake(api_key, resource_id, endpoint, h));
        let (id, key) = choose|id: Seq<char>, key: Seq<char>|
            {
                &&& #[trigger] random_uuid(id)
                &&& #[trigger] websocket_key(key)
                &&& handshake_outcome(api_key, resource_id, id, endpoint, key, h)
            };
        handshakes_are_refused_for_control_characters(
            api_key,
            resource_id,
            id,
            endpoint,
            uri_host(endpoint),
            key,
            h,
        );
        let texts = api_key + resource_id;
        let all = texts + id;
        let bad = exists|i: int|
            0 <= i < texts.len() && ((#[trigger] texts[i] as u32) < 32 && texts[i] != '\t'
                || texts[i] as u32 == 127);
        let bad_all = exists|i: int|
            0 <= i < all.len() && ((#[trigger] all[i] as u32) < 32 && all[i] != '\t'
                || all[i] as u32 == 127);
        assert(all == api_key + resource_id + id);
        if bad {
            let i = choose|i: int|
                0 <= i < texts.len() && ((#[trigger] texts[i] as u32) < 32 && texts[i] != '\t'
                    || texts[i] as u32 == 127);
            assert(all[i] == texts[i]);
        }
        if bad_all {
            let i = choose|i: int|
                0 <= i < all.len() && ((#[trigger] all[i] as u32) < 32 && all[i] != '\t'
                    || all[i] as u32 == 127);
            if i >= texts.len() {
                let c = id[i - texts.len()];
                assert(all[i] == c);
                assert(c == '-' || hex_digit(c));
            } else {
                assert(texts[i] == all[i]);
            }
        }
    }
}

} // verus!
