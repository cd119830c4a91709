//! The session of a complete recording and the one that uploads while recording.

use doubao_asr::cloud_asr::doubao::batch::{
    count_packets, fits_batch, packet_action, BatchAction, BatchSession,
};
use doubao_asr::cloud_asr::doubao::handshake::HandshakeError;
use doubao_asr::cloud_asr::doubao::payload::RequestError;
use doubao_asr::cloud_asr::doubao::protocol::{gzip_decompress, GzipError};
use doubao_asr::cloud_asr::doubao::response::{
    AsrResponsePayload, AsrResult, DoubaoResponse, ResponseError,
};
use doubao_asr::cloud_asr::doubao::session::{
    absorb_reply, handle_parsed, Packet, Phase, ServerReply, SessionError, Verdict,
};
use doubao_asr::cloud_asr::doubao::stream::{
    queue_packet, send_failed, StreamEvent, StreamSession,
};

fn response(text: &str, last: bool) -> DoubaoResponse {
    DoubaoResponse {
        code: 0,
        is_last_package: last,
        sequence: 1,
        payload: Some(AsrResponsePayload {
            result: AsrResult { text: text.to_string(), utterances: Vec::new() },
            error: None,
        }),
    }
}

fn text(text: &str, last: bool) -> ServerReply {
    ServerReply::Frame(Ok(response(text, last)))
}

fn refusal() -> ServerReply {
    let mut parsed = response("ignored", false);
    parsed.code = 45000151;
    ServerReply::Frame(Ok(parsed))
}

fn broken() -> ServerReply {
    ServerReply::Frame(Err(ResponseError::TooShort { len: 1 }))
}

fn audio_of(packet: &Packet) -> Vec<u8> {
    assert_eq!(i32::from_be_bytes(packet.frame[4..8].try_into().unwrap()), packet.seq);
    assert_eq!(packet.frame[1], if packet.seq < 0 { 0x23 } else { 0x21 });
    gzip_decompress(&packet.frame[12..]).unwrap()
}

fn pcm(len: usize) -> Vec<u8> {
    (0..len).map(|i| (i % 251) as u8).collect()
}

#[test]
fn response_texts_replace_each_other() {
    let mut buffer = String::new();
    handle_parsed(response("a", false), &mut buffer).unwrap();
    handle_parsed(response("ab", false), &mut buffer).unwrap();
    handle_parsed(response("", false), &mut buffer).unwrap();
    handle_parsed(DoubaoResponse::default(), &mut buffer).unwrap();
    assert_eq!(buffer, "ab");
    let mut failed = response("x", false);
    failed.code = 5;
    assert!(handle_parsed(failed, &mut buffer).is_err());
    assert_eq!(buffer, "ab");
}

#[test]
fn packets_are_counted() {
    assert_eq!(count_packets(0), 0);
    assert_eq!(count_packets(1), 1);
    assert_eq!(count_packets(6400), 1);
    assert_eq!(count_packets(6401), 2);
    assert!(fits_batch(usize::MAX >> 32));
    assert!(!fits_batch(usize::MAX));
}

#[test]
fn batch_sends_the_whole_recording() {
    let recording = pcm(6400 * 2 + 10);
    let (mut session, mut action) = BatchSession::begin(recording.clone());
    let mut sent = Vec::new();
    let mut numbers = Vec::new();
    while let BatchAction::Send(packet) = action {
        sent.extend(audio_of(&packet));
        numbers.push(packet.seq);
        action = session.step(ServerReply::Timeout);
    }
    assert_eq!(numbers, vec![2, 3, -4]);
    assert_eq!(sent, recording);
    assert!(matches!(action, BatchAction::ReadTail));
}

#[test]
fn batch_passes_over_noise_while_sending() {
    let (mut session, _) = BatchSession::begin(pcm(6400 * 6));
    for reply in [
        broken(),
        ServerReply::Close,
        ServerReply::Ended,
        ServerReply::Other,
        ServerReply::Failed("x".to_string()),
    ] {
        assert!(matches!(session.step(reply), BatchAction::Send(_)));
    }
}

#[test]
fn batch_returns_the_last_text() {
    let (mut session, _) = BatchSession::begin(pcm(1));
    assert!(matches!(session.step(text("one", false)), BatchAction::ReadTail));
    assert!(matches!(session.step(text("one two", false)), BatchAction::ReadTail));
    assert!(matches!(session.step(ServerReply::Other), BatchAction::ReadTail));
    match session.step(text("", true)) {
        BatchAction::Done(Ok(t)) => assert_eq!(t, "one two"),
        other => panic!("{other:?}"),
    }
}

#[test]
fn batch_stops_sending_at_the_last_frame() {
    let (mut session, _) = BatchSession::begin(pcm(6400 * 3));
    match session.step(text("early", true)) {
        BatchAction::Done(Ok(t)) => assert_eq!(t, "early"),
        other => panic!("{other:?}"),
    }
}

fn tail() -> BatchSession {
    let (mut session, _) = BatchSession::begin(pcm(1));
    session.step(text("so far", false));
    session
}

#[test]
fn batch_tail_ends_with_text_or_error() {
    match tail().step(ServerReply::Timeout) {
        BatchAction::Done(Ok(t)) => assert_eq!(t, "so far"),
        other => panic!("{other:?}"),
    }
    let message = |reply| match tail().step(reply) {
        BatchAction::Done(Err(e)) => e.message(),
        other => panic!("{other:?}"),
    };
    for reply in [ServerReply::Close, ServerReply::Ended] {
        assert_eq!(message(reply), "Doubao server closed before sending last_package frame");
    }
    assert_eq!(message(broken()), "response too short: 1 bytes");
    assert_eq!(
        message(ServerReply::Failed("x".to_string())),
        "read tail response failed: x"
    );
    assert_eq!(message(refusal()), "Doubao server returned error code 45000151: None");
}

#[test]
fn batch_reports_compression_errors() {
    let built = Err(GzipError::Finish("f".to_string()));
    match packet_action(2, built) {
        BatchAction::Done(Err(SessionError::Gzip(e))) => {
            assert_eq!(e.message(), "gzip finish failed: f")
        }
        other => panic!("{other:?}"),
    }
    match packet_action(-3, Ok(vec![1])) {
        BatchAction::Send(p) => assert_eq!((p.seq, p.frame), (-3, vec![1])),
        other => panic!("{other:?}"),
    }
}

#[test]
fn close_after_the_last_packet_is_an_error() {
    let closed = "Doubao server closed before sending last_package frame";
    for reply in [ServerReply::Close, ServerReply::Ended] {
        let (mut session, action) = BatchSession::begin(pcm(1));
        assert!(matches!(action, BatchAction::Send(_)));
        match session.step(reply) {
            BatchAction::Done(Err(e)) => assert_eq!(e.message(), closed),
            other => panic!("{other:?}"),
        }
    }
}

#[test]
fn close_while_sending_is_not_forgotten() {
    let (mut session, _) = BatchSession::begin(pcm(6400 * 2));
    assert!(matches!(session.step(ServerReply::Close), BatchAction::Send(_)));
    assert!(matches!(
        session.step(ServerReply::Timeout),
        BatchAction::Done(Err(SessionError::ClosedBeforeLast))
    ));
}

#[test]
fn noise_after_the_last_packet_is_passed_over() {
    for reply in [broken(), ServerReply::Other, ServerReply::Failed("x".to_string())] {
        let (mut session, _) = BatchSession::begin(pcm(1));
        assert!(matches!(session.step(reply), BatchAction::ReadTail));
    }
}

#[test]
fn batch_is_the_same_twice() {
    let run = || {
        let (mut session, first) = BatchSession::begin(pcm(7000));
        let second = session.step(text("a", false));
        let packets: Vec<(i32, Vec<u8>)> = [first, second]
            .into_iter()
            .map(|action| match action {
                BatchAction::Send(p) => (p.seq, p.frame),
                other => panic!("{other:?}"),
            })
            .collect();
        packets
    };
    assert_eq!(run(), run());
}

#[test]
fn stream_cuts_packets_and_keeps_the_rest() {
    let mut session = StreamSession::new(false);
    let recording = pcm(6400 * 3 + 100);
    let mut sent = Vec::new();
    let mut numbers = Vec::new();
    for piece in recording.chunks(5000) {
        assert!(session.accepts(piece.len()));
        let action = session.step(StreamEvent::Audio(piece.to_vec()));
        assert!(action.outcome.is_none());
        for packet in &action.send {
            assert_eq!(audio_of(packet).len(), 6400);
            sent.extend(audio_of(packet));
            numbers.push(packet.seq);
        }
    }
    let last = session.step(StreamEvent::Finish);
    assert_eq!(last.send.len(), 1);
    sent.extend(audio_of(&last.send[0]));
    numbers.push(last.send[0].seq);
    assert_eq!(numbers, vec![2, 3, 4, -5]);
    assert_eq!(sent, recording);
}

#[test]
fn stream_sends_an_empty_last_packet() {
    let mut session = StreamSession::new(false);
    let action = session.step(StreamEvent::Finish);
    assert_eq!(action.send[0].seq, -2);
    assert!(audio_of(&action.send[0]).is_empty());
    assert!(session.step(StreamEvent::Audio(pcm(7000))).send.is_empty());
    assert!(session.step(StreamEvent::Finish).send.is_empty());
}

#[test]
fn stream_shows_each_change_once() {
    let mut session = StreamSession::new(true);
    let mut shown = Vec::new();
    for t in ["", "a", "a", "ab", "", "b"] {
        shown.extend(session.step(StreamEvent::Server(text(t, false))).emit);
    }
    assert_eq!(shown, vec!["a", "ab", "b"]);
    session.step(StreamEvent::Finish);
    let action = session.step(StreamEvent::Server(text("c", true)));
    assert_eq!(action.emit.as_deref(), Some("c"));
    assert_eq!(action.outcome.unwrap().unwrap(), "c");
}

#[test]
fn silent_stream_still_returns_its_text() {
    let mut session = StreamSession::new(false);
    assert!(session.step(StreamEvent::Server(text("a", false))).emit.is_none());
    let action = session.step(StreamEvent::Server(text("ab", true)));
    assert!(action.emit.is_none());
    assert_eq!(action.outcome.unwrap().unwrap(), "ab");
}

#[test]
fn recording_stream_fails_when_the_server_leaves() {
    let outcome = |reply| StreamSession::new(true).step(StreamEvent::Server(reply)).outcome;
    let message = |reply| outcome(reply).unwrap().unwrap_err().message();
    assert_eq!(
        message(ServerReply::Close),
        "Doubao stream closed before recording finished"
    );
    assert_eq!(
        message(ServerReply::Ended),
        "Doubao stream closed before recording finished"
    );
    assert_eq!(
        message(ServerReply::Failed("x".to_string())),
        "Doubao stream read failed: x"
    );
    assert_eq!(message(refusal()), "Doubao server returned error code 45000151: None");
    assert!(outcome(broken()).is_none());
    assert!(outcome(ServerReply::Other).is_none());
}

#[test]
fn finishing_stream_ends_with_text_or_error() {
    let finishing = || {
        let mut session = StreamSession::new(false);
        session.step(StreamEvent::Server(text("so far", false)));
        session.step(StreamEvent::Finish);
        session
    };
    for reply in [ServerReply::Close, ServerReply::Ended, ServerReply::Timeout] {
        let action = finishing().step(StreamEvent::Server(reply));
        assert_eq!(action.outcome.unwrap().unwrap(), "so far");
    }
    let message = |reply| {
        finishing().step(StreamEvent::Server(reply)).outcome.unwrap().unwrap_err().message()
    };
    assert_eq!(
        message(ServerReply::Failed("x".to_string())),
        "Doubao stream tail read failed: x"
    );
    assert_eq!(message(broken()), "response too short: 1 bytes");
}

#[test]
fn stream_send_errors_know_the_last_packet() {
    assert_eq!(
        send_failed(-7, "gone".to_string()).message(),
        "send last packet failed: gone"
    );
    assert_eq!(
        send_failed(7, "gone".to_string()).message(),
        "send audio packet seq=7 failed: gone"
    );
    let mut queue = Vec::new();
    assert!(queue_packet(4, Ok(vec![1]), &mut queue).is_none());
    let error = queue_packet(5, Err(GzipError::Write("w".to_string())), &mut queue).unwrap();
    assert_eq!(error.message(), "gzip write failed: w");
    assert_eq!(queue.len(), 1);
}

#[test]
fn session_messages() {
    let s = || "e".to_string();
    let cases = vec![
        (SessionError::EmptyApiKey, "Doubao API key is empty"),
        (SessionError::Dial(s()), "Doubao WebSocket dial failed: e"),
        (SessionError::StreamDial(s()), "Doubao stream dial failed: e"),
        (SessionError::SendConfig(s()), "send full client request failed: e"),
        (SessionError::SendAudio { seq: -12, error: s() }, "send audio packet seq=-12 failed: e"),
        (SessionError::Request(RequestError::Encode(s())), "e"),
        (
            SessionError::Handshake(HandshakeError::MissingHost { endpoint: "/".to_string() }),
            "Doubao endpoint missing host: /",
        ),
    ];
    for (error, expected) in cases {
        assert_eq!(error.message(), expected);
    }
}

#[test]
fn phases_judge_a_missing_reply() {
    let mut buffer = "t".to_string();
    for (phase, ends) in [
        (Phase::Sending, false),
        (Phase::SendingTail, true),
        (Phase::Recording, false),
        (Phase::RecordingTail, true),
    ] {
        let verdict = absorb_reply(phase, ServerReply::Timeout, &mut buffer);
        assert_eq!(matches!(verdict, Verdict::Finish), ends);
        assert_eq!(matches!(verdict, Verdict::Continue), !ends);
    }
    assert_eq!(buffer, "t");
}
