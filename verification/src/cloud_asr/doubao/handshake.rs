//! The WebSocket handshake request with its credentials.

#[allow(unused_imports)]
use crate::text::{appended_texts_are_ends, ends_in, opt_text};
use tokio_tungstenite::tungstenite::handshake::client::generate_key;
use tokio_tungstenite::tungstenite::http::header::HeaderValue;
use tokio_tungstenite::tungstenite::http::Uri;
use vstd::prelude::*;

verus! {

/// One header of a request.
#[derive(Clone)]
pub struct Header {
    pub name: &'static str,
    pub value: String,
}

/// A `GET` request that asks a server to open a WebSocket.
#[derive(Clone)]
pub struct HandshakeRequest {
    pub uri: String,
    pub headers: Vec<Header>,
}

/// Why a handshake request could not be made.
#[derive(Debug)]
pub enum HandshakeError {
    InvalidEndpoint { endpoint: String, error: String },
    MissingHost { endpoint: String },
    InvalidHeader(String),
}

impl HandshakeError {
    /// The text of the error.
    pub open spec fn text(self) -> Seq<char> {
        match self {
            HandshakeError::InvalidEndpoint { endpoint, error } => "invalid Doubao endpoint URI "@
                + endpoint@ + ": "@ + error@,
            HandshakeError::MissingHost { endpoint } => "Doubao endpoint missing host: "@
                + endpoint@,
            HandshakeError::InvalidHeader(e) => e@,
        }
    }

    /// The error as a message.
    pub fn message(&self) -> (r: String)
        ensures
            r@ == self.text(),
    {
        match self {
            HandshakeError::InvalidEndpoint { endpoint, error } =>
                "invalid Doubao endpoint URI ".to_owned().concat(endpoint.as_str()).concat(
                ": ",
            ).concat(error.as_str()),
            HandshakeError::MissingHost { endpoint } =>
                "Doubao endpoint missing host: ".to_owned().concat(endpoint.as_str()),
            HandshakeError::InvalidHeader(e) => e.clone(),
        }
    }
}

/// Whether a character may stand in a header value: any but the control characters
/// other than the tab.
pub open spec fn header_char(c: char) -> bool {
    (c as u32 >= 32 && c as u32 != 127) || c == '\t'
}

/// Whether a text is a header value.
pub open spec fn header_text(s: Seq<char>) -> bool {
    forall|i: int| 0 <= i < s.len() ==> header_char(#[trigger] s[i])
}

/// What parsing a URI and asking for its host comes to: the host, no host, or the text of the
/// parser's error.
pub uninterp spec fn uri_host(uri: Seq<char>) -> Result<Option<Seq<char>>, Seq<char>>;

/// Parses a URI and takes its host, by `http::Uri`'s `FromStr` and `Uri::host`. The
/// outcome is a function of the text alone and carries the name [`uri_host`]. A host
/// consists of visible ASCII characters (the authority parser takes no others), so that
/// it is a header value.
#[verifier::external_body]
fn parse_uri_host(uri: &str) -> (r: Result<Option<String>, String>)
    ensures
        match r {
            Ok(Some(host)) => uri_host(uri@) == Ok::<_, Seq<char>>(Some(host@)) && header_text(
                host@,
            ),
            Ok(None) => uri_host(uri@) == Ok::<Option<Seq<char>>, Seq<char>>(None),
            Err(e) => uri_host(uri@) == Err::<Option<Seq<char>>, _>(e@),
        },
{
    let parsed: Uri = uri.parse().map_err(|e: <Uri as std::str::FromStr>::Err| e.to_string())?;
    Ok(parsed.host().map(|h| h.to_string()))
}

/// Tests whether a text is a header value, by `http::HeaderValue::from_str`. It rejects
/// the bytes below 32 other than the tab, and 127, always with the same error text.
#[verifier::external_body]
fn check_header_value(s: &str) -> (r: Result<(), String>)
    ensures
        match r {
            Ok(_) => header_text(s@),
            Err(e) => !header_text(s@) && e@ == "failed to parse header value"@,
        },
{
    HeaderValue::from_str(s).map(|_| ()).map_err(|e| e.to_string())
}

/// Whether a character belongs to the Base64 alphabet.
pub open spec fn base64_char(c: char) -> bool {
    ||| 'A' <= c <= 'Z'
    ||| 'a' <= c <= 'z'
    ||| '0' <= c <= '9'
    ||| c == '+'
    ||| c == '/'
}

/// Whether a text has the form of sixteen bytes in Base64.
pub open spec fn websocket_key(s: Seq<char>) -> bool {
    &&& s.len() == 24
    &&& forall|i: int| 0 <= i < 22 ==> base64_char(#[trigger] s[i])
    &&& s[22] == '='
    &&& s[23] == '='
}

/// Makes a random WebSocket key, by `tungstenite::handshake::client::generate_key`:
/// sixteen random bytes in Base64. Which bytes is left open.
#[verifier::external_body]
fn random_key() -> (r: String)
    ensures
        websocket_key(r@),
{
    generate_key()
}

/// Whether a character is a lower case hexadecimal digit.
pub open spec fn hex_digit(c: char) -> bool {
    '0' <= c <= '9' || 'a' <= c <= 'f'
}

/// Whether a text is a random UUID in its hyphenated lower case form.
pub open spec fn random_uuid(s: Seq<char>) -> bool {
    &&& s.len() == 36
    &&& forall|i: int|
        0 <= i < 36 ==> if i == 8 || i == 13 || i == 18 || i == 23 {
            #[trigger] s[i] == '-'
        } else {
            hex_digit(s[i])
        }
    &&& s[14] == '4'
    &&& s[19] == '8' || s[19] == '9' || s[19] == 'a' || s[19] == 'b'
}

/// Makes a request id, by `uuid::Uuid::new_v4` and its `Display`. Which id is left open.
#[verifier::external_body]
fn new_request_id() -> (r: String)
    ensures
        random_uuid(r@),
{
    uuid::Uuid::new_v4().to_string()
}

/// What asking for a handshake with a given key comes to.
pub open spec fn handshake_outcome(
    api_key: Seq<char>,
    resource_id: Seq<char>,
    request_id: Seq<char>,
    endpoint: Seq<char>,
    key: Seq<char>,
    r: Result<HandshakeRequest, HandshakeError>,
) -> bool {
    host_outcome(api_key, resource_id, request_id, endpoint, uri_host(endpoint), key, r)
}

/// The texts in what looking for a host gave.
pub open spec fn host_texts(host: Result<Option<String>, String>) -> Result<
    Option<Seq<char>>,
    Seq<char>,
> {
    match host {
        Ok(host) => Ok(opt_text(host)),
        Err(e) => Err(e@),
    }
}

/// The headers of a handshake, in order, as names and values.
pub open spec fn handshake_headers(
    host: Seq<char>,
    key: Seq<char>,
    api_key: Seq<char>,
    resource_id: Seq<char>,
    request_id: Seq<char>,
) -> Seq<(Seq<char>, Seq<char>)> {
    seq![
        ("Host"@, host),
        ("Connection"@, "Upgrade"@),
        ("Upgrade"@, "websocket"@),
        ("Sec-WebSocket-Version"@, "13"@),
        ("Sec-WebSocket-Key"@, key),
        ("X-Api-Key"@, api_key),
        ("X-Api-Resource-Id"@, resource_id),
        ("X-Api-Request-Id"@, request_id),
        ("X-Api-Connect-Id"@, request_id),
        ("X-Api-Sequence"@, "-1"@),
    ]
}

/// The names and values of a list of headers.
pub open spec fn header_pairs(headers: Seq<Header>) -> Seq<(Seq<char>, Seq<char>)> {
    headers.map_values(|h: Header| (h.name@, h.value@))
}

/// What asking for a handshake with a given key comes to, where `host` is what looking for
/// the endpoint's host gave.
pub open spec fn host_outcome(
    api_key: Seq<char>,
    resource_id: Seq<char>,
    request_id: Seq<char>,
    endpoint: Seq<char>,
    host: Result<Option<Seq<char>>, Seq<char>>,
    key: Seq<char>,
    r: Result<HandshakeRequest, HandshakeError>,
) -> bool {
    match host {
        Err(e) => {
            &&& r is Err
            &&& r->Err_0 is InvalidEndpoint
            &&& r->Err_0->InvalidEndpoint_endpoint@ == endpoint
            &&& r->Err_0->error@ == e
        },
        Ok(None) => {
            &&& r is Err
            &&& r->Err_0 is MissingHost
            &&& r->Err_0->MissingHost_endpoint@ == endpoint
        },
        Ok(Some(host)) => if header_text(api_key) && header_text(resource_id) && header_text(
            request_id,
        ) {
            &&& r is Ok
            &&& r->Ok_0.uri@ == endpoint
            &&& header_pairs(r->Ok_0.headers@) == handshake_headers(
                host,
                key,
                api_key,
                resource_id,
                request_id,
            )
        } else {
            &&& r is Err
            &&& r->Err_0 is InvalidHeader
            &&& r->Err_0->InvalidHeader_0@ == "failed to parse header value"@
        },
    }
}

fn header(name: &'static str, value: &str) -> (r: Header)
    ensures
        r.name@ == name@,
        r.value@ == value@,
{
    Header { name, value: value.to_owned() }
}

/// Whether every header of a request has a value that headers can have.
pub open spec fn sendable(request: HandshakeRequest) -> bool {
    forall|i: int|
        0 <= i < request.headers@.len() ==> header_text(#[trigger] request.headers@[i].value@)
}

/// Makes the handshake request with a given WebSocket key, where `host` is what looking for
/// the endpoint's host gave.
pub fn handshake_with_host(
    api_key: &str,
    resource_id: &str,
    request_id: &str,
    endpoint: &str,
    host: Result<Option<String>, String>,
    key: &str,
) -> (r: Result<HandshakeRequest, HandshakeError>)
    ensures
        host_outcome(
            api_key@,
            resource_id@,
            request_id@,
            endpoint@,
            host_texts(host),
            key@,
            r,
        ),
        r matches Ok(request) ==> header_text(key@) && header_text(host->Ok_0->0@) ==> sendable(
            request,
        ),
{
    let host = match host {
        Ok(Some(host)) => host,
        Ok(None) => {
            return Err(HandshakeError::MissingHost { endpoint: endpoint.to_owned() });
        },
        Err(error) => {
            return Err(HandshakeError::InvalidEndpoint { endpoint: endpoint.to_owned(), error });
        },
    };
    if let Err(e) = check_header_value(api_key) {
        return Err(HandshakeError::InvalidHeader(e));
    }
    if let Err(e) = check_header_value(resource_id) {
        return Err(HandshakeError::InvalidHeader(e));
    }
    if let Err(e) = check_header_value(request_id) {
        return Err(HandshakeError::InvalidHeader(e));
    }
    let headers: Vec<Header> = vec![
        header("Host", host.as_str()),
        header("Connection", "Upgrade"),
        header("Upgrade", "websocket"),
        header("Sec-WebSocket-Version", "13"),
        header("Sec-WebSocket-Key", key),
        header("X-Api-Key", api_key),
        header("X-Api-Resource-Id", resource_id),
        header("X-Api-Request-Id", request_id),
        header("X-Api-Connect-Id", request_id),
        header("X-Api-Sequence", "-1"),
    ];
    assert(header_pairs(headers@) =~= handshake_headers(
        host@,
        key@,
        api_key@,
        resource_id@,
        request_id@,
    ));
    proof {
        reveal_strlit("Upgrade");
        reveal_strlit("websocket");
        reveal_strlit("13");
        reveal_strlit("-1");
    }
    Ok(HandshakeRequest { uri: endpoint.to_owned(), headers })
}

/// Makes the handshake request with a given WebSocket key.
pub fn handshake_with_key(
    api_key: &str,
    resource_id: &str,
    request_id: &str,
    endpoint: &str,
    key: &str,
) -> (r: Result<HandshakeRequest, HandshakeError>)
    ensures
        handshake_outcome(api_key@, resource_id@, request_id@, endpoint@, key@, r),
        r matches Ok(request) ==> header_text(key@) ==> sendable(request),
{
    let host = parse_uri_host(endpoint);
    handshake_with_host(api_key, resource_id, request_id, endpoint, host, key)
}

/// Makes the handshake request, with a fresh WebSocket key. Every header value of the
/// request is one that headers can have.
pub fn build_doubao_handshake(
    api_key: &str,
    resource_id: &str,
    request_id: &str,
    endpoint: &str,
) -> (r: Result<HandshakeRequest, HandshakeError>)
    ensures
        exists|key: Seq<char>| #[trigger]
            websocket_key(key) && handshake_outcome(
                api_key@,
                resource_id@,
                request_id@,
                endpoint@,
                key,
                r,
            ),
        r matches Ok(request) ==> sendable(request),
{
    let key = random_key();
    handshake_with_key(api_key, resource_id, request_id, endpoint, key.as_str())
}

/// Whether `r` is what asking for a handshake with a fresh request id and a fresh
/// WebSocket key comes to.
pub open spec fn fresh_handshake(
    api_key: Seq<char>,
    resource_id: Seq<char>,
    endpoint: Seq<char>,
    r: Result<HandshakeRequest, HandshakeError>,
) -> bool {
    exists|request_id: Seq<char>, key: Seq<char>|
        {
            &&& #[trigger] random_uuid(request_id)
            &&& #[trigger] websocket_key(key)
            &&& handshake_outcome(api_key, resource_id, request_id, endpoint, key, r)
        }
}

/// Makes the handshake request of one connection, with a fresh request id and a fresh
/// WebSocket key. It is refused only for the endpoint or for credentials that no header
/// can carry.
pub fn new_connection(api_key: &str, resource_id: &str, endpoint: &str) -> (r: Result<
    HandshakeRequest,
    HandshakeError,
>)
    ensures
        fresh_handshake(api_key@, resource_id@, endpoint@, r),
        r is Ok <==> (uri_host(endpoint@) matches Ok(Some(_)) && header_text(api_key@)
            && header_text(resource_id@)),
        r matches Ok(request) ==> sendable(request),
{
    let request_id = new_request_id();
    assert(header_text(request_id@));
    build_doubao_handshake(api_key, resource_id, request_id.as_str(), endpoint)
}

/// Whether a request has a header of this name, and none of this name with another value.
pub open spec fn has_header(request: HandshakeRequest, name: Seq<char>, value: Seq<char>) -> bool {
    &&& exists|i: int|
        0 <= i < request.headers@.len() && (#[trigger] request.headers@[i]).name@ == name
    &&& forall|i: int|
        0 <= i < request.headers@.len() && (#[trigger] request.headers@[i]).name@ == name
            ==> request.headers@[i].value@ == value
}

proof fn header_names_differ()
    ensures
        "Host"@.len() == 4,
        "Connection"@.len() == 10,
        "Upgrade"@.len() == 7,
        "Sec-WebSocket-Version"@.len() == 21,
        "Sec-WebSocket-Key"@.len() == 17,
        "X-Api-Key"@.len() == 9,
        "X-Api-Resource-Id"@.len() == 17,
        "X-Api-Request-Id"@.len() == 16,
        "X-Api-Connect-Id"@.len() == 16,
        "X-Api-Sequence"@.len() == 14,
        "Sec-WebSocket-Key"@[0] != "X-Api-Resource-Id"@[0],
        "X-Api-Request-Id"@[6] != "X-Api-Connect-Id"@[6],
{
    reveal_strlit("Host");
    reveal_strlit("Connection");
    reveal_strlit("Upgrade");
    reveal_strlit("Sec-WebSocket-Version");
    reveal_strlit("Sec-WebSocket-Key");
    reveal_strlit("X-Api-Key");
    reveal_strlit("X-Api-Resource-Id");
    reveal_strlit("X-Api-Request-Id");
    reveal_strlit("X-Api-Connect-Id");
    reveal_strlit("X-Api-Sequence");
}

/// A handshake asks for a WebSocket at the endpoint as given, and carries the credentials as
/// given: the key, the resource, and the request id twice, each under its own name and no
/// other value under that name.
pub proof fn handshakes_carry_the_credentials(
    api_key: Seq<char>,
    resource_id: Seq<char>,
    request_id: Seq<char>,
    endpoint: Seq<char>,
    host: Result<Option<Seq<char>>, Seq<char>>,
    key: Seq<char>,
    request: HandshakeRequest,
)
    requires
        host_outcome(api_key, resource_id, request_id, endpoint, host, key, Ok(request)),
    ensures
        request.uri@ == endpoint,
        has_header(request, "X-Api-Key"@, api_key),
        has_header(request, "X-Api-Resource-Id"@, resource_id),
        has_header(request, "X-Api-Request-Id"@, request_id),
        has_header(request, "X-Api-Connect-Id"@, request_id),
        has_header(request, "X-Api-Sequence"@, "-1"@),
        has_header(request, "Sec-WebSocket-Key"@, key),
        has_header(request, "Sec-WebSocket-Version"@, "13"@),
        has_header(request, "Upgrade"@, "websocket"@),
        has_header(request, "Connection"@, "Upgrade"@),
        host matches Ok(Some(host)) && has_header(request, "Host"@, host),
        request.headers@.len() == 10,
{
    header_names_differ();
    let headers = request.headers@;
    let pairs = header_pairs(headers);
    assert(headers.len() == pairs.len());
    assert forall|i: int| 0 <= i < headers.len() implies (#[trigger] headers[i]).name@
        == pairs[i].0 && headers[i].value@ == pairs[i].1 by {}
    assert(headers[0].name@ == "Host"@);
    assert(headers[1].name@ == "Connection"@);
    assert(headers[2].name@ == "Upgrade"@);
    assert(headers[3].name@ == "Sec-WebSocket-Version"@);
    assert(headers[4].name@ == "Sec-WebSocket-Key"@);
    assert(headers[5].name@ == "X-Api-Key"@);
    assert(headers[6].name@ == "X-Api-Resource-Id"@);
    assert(headers[7].name@ == "X-Api-Request-Id"@);
    assert(headers[8].name@ == "X-Api-Connect-Id"@);
    assert(headers[9].name@ == "X-Api-Sequence"@);
}

/// A handshake is refused for the endpoint where that cannot be parsed or has no host, and
/// the endpoint is named then, or else just where the key, the resource or the request id
/// has a control character other than the tab in it.
pub proof fn handshakes_are_refused_for_control_characters(
    api_key: Seq<char>,
    resource_id: Seq<char>,
    request_id: Seq<char>,
    endpoint: Seq<char>,
    host: Result<Option<Seq<char>>, Seq<char>>,
    key: Seq<char>,
    r: Result<HandshakeRequest, HandshakeError>,
)
    requires
        host_outcome(api_key, resource_id, request_id, endpoint, host, key, r),
    ensures
        host matches Err(text) ==> (r matches Err(
            HandshakeError::InvalidEndpoint { endpoint: named, error },
        ) && named@ == endpoint && error@ == text),
        host matches Ok(None) ==> (r matches Err(HandshakeError::MissingHost { endpoint: named })
            && named@ == endpoint),
        host matches Ok(Some(_)) ==> {
            let texts = api_key + resource_id + request_id;
            let bad = exists|i: int|
                0 <= i < texts.len() && ((#[trigger] texts[i] as u32) < 32 && texts[i] != '\t'
                    || texts[i] as u32 == 127);
            &&& r is Err <==> bad
            &&& r matches Err(e) ==> e is InvalidHeader
        },
{
    if let Ok(Some(_)) = host {
        let texts = api_key + resource_id + request_id;
        let bad = exists|i: int|
            0 <= i < texts.len() && ((#[trigger] texts[i] as u32) < 32 && texts[i] != '\t'
                || texts[i] as u32 == 127);
        let a = api_key.len() as int;
        let b = a + resource_id.len();
        if bad {
            let i = choose|i: int|
                0 <= i < texts.len() && ((#[trigger] texts[i] as u32) < 32 && texts[i] != '\t'
                    || texts[i] as u32 == 127);
            assert(!header_char(texts[i]));
            if i < a {
                assert(api_key[i] == texts[i]);
            } else if i < b {
                assert(resource_id[i - a] == texts[i]);
            } else {
                assert(request_id[i - b] == texts[i]);
            }
        } else {
            assert forall|i: int| 0 <= i < api_key.len() implies header_char(
                #[trigger] api_key[i],
            ) by {
                assert(texts[i] == api_key[i]);
            }
            assert forall|i: int| 0 <= i < resource_id.len() implies header_char(
                #[trigger] resource_id[i],
            ) by {
                assert(texts[a + i] == resource_id[i]);
            }
            assert forall|i: int| 0 <= i < request_id.len() implies header_char(
                #[trigger] request_id[i],
            ) by {
                assert(texts[b + i] == request_id[i]);
            }
        }
    }
}

/// No header of a request that can be sent has a control character other than the tab in its
/// value.
pub proof fn sent_headers_have_no_control_characters(request: HandshakeRequest, i: int, j: int)
    requires
        sendable(request),
        0 <= i < request.headers@.len(),
        0 <= j < request.headers@[i].value@.len(),
    ensures
        request.headers@[i].value@[j] == '\t' || request.headers@[i].value@[j] as u32 >= 32,
        request.headers@[i].value@[j] as u32 != 127,
{
    assert(header_text(request.headers@[i].value@));
    assert(header_char(request.headers@[i].value@[j]));
}

/// A refused handshake tells the endpoint that it was refused for, or just what is wrong with
/// the header.
pub proof fn refused_handshakes_tell_why(e: HandshakeError)
    ensures
        match e {
            HandshakeError::InvalidEndpoint { endpoint, error } => ends_in(
                e.text(),
                endpoint@ + ": "@ + error@,
            ),
            HandshakeError::MissingHost { endpoint } => ends_in(e.text(), endpoint@),
            HandshakeError::InvalidHeader(cause) => e.text() == cause@,
        },
{
    match e {
        HandshakeError::InvalidEndpoint { endpoint, error } => {
            let head = "invalid Doubao endpoint URI "@;
            assert(e.text() =~= head + (endpoint@ + ": "@ + error@));
            appended_texts_are_ends(head, endpoint@ + ": "@ + error@);
        },
        HandshakeError::MissingHost { endpoint } => appended_texts_are_ends(
            "Doubao endpoint missing host: "@,
            endpoint@,
        ),
        HandshakeError::InvalidHeader(_) => {},
    }
}

} // verus!
