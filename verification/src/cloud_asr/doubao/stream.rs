//! The session that uploads audio while it is recorded.
//!
//! Audio is buffered and sent as soon as a packet is full. When the recording ends, what
//! is left goes out as the last packet, with its number negated, and the session waits
//! for the final text.

use crate::cloud_asr::doubao::client::{
    default_resource, open_session, DEFAULT_ENDPOINT, SEGMENT_SIZE_BYTES,
};
#[allow(unused_imports)]
use crate::cloud_asr::doubao::client::{
    can_open, opening, resource_or_default, sessions_open_with_their_credentials,
};
use crate::cloud_asr::doubao::handshake::HandshakeRequest;
#[allow(unused_imports)]
use crate::cloud_asr::doubao::handshake::has_header;
use crate::cloud_asr::doubao::payload::build_audio_only_request;
use crate::cloud_asr::doubao::protocol::GzipError;
use crate::cloud_asr::doubao::session::{
    absorb_reply, Packet, Phase, ServerReply, SessionError, Verdict,
};
#[allow(unused_imports)]
use crate::cloud_asr::doubao::session::{
    packet_audio, packet_of, text_after_replies, text_after_reply, verdict_of,
};
use crate::text::same_text;
#[allow(unused_imports)]
use crate::text::blank;
use vstd::prelude::*;

verus! {

/// How long the end of a recording waits for the session's result, in seconds: longer than
/// the session waits for the server.
pub const FINISH_TIMEOUT_SECS: u64 = 35;

/// Whether `r` is what opening a session that uploads while recording comes to.
pub open spec fn opens_stream(
    api_key: Seq<char>,
    resource_id: Seq<char>,
    r: Result<HandshakeRequest, SessionError>,
) -> bool {
    opening(api_key, resource_or_default(resource_id), DEFAULT_ENDPOINT@, r)
}

/// The error for a packet that could not be sent.
pub open spec fn send_error(seq: i32, error: String) -> SessionError {
    if seq < 0 {
        SessionError::SendLast(error)
    } else {
        SessionError::SendAudio { seq, error }
    }
}

/// Opens a session that uploads while recording: a key that is not blank, then the
/// handshake with the transcription endpoint. A blank resource id stands for the default.
pub fn open_stream(api_key: &str, resource_id: &str) -> (r: Result<HandshakeRequest, SessionError>)
    ensures
        opening(api_key@, resource_or_default(resource_id@), DEFAULT_ENDPOINT@, r),
        r is Ok <==> can_open(api_key@, resource_or_default(resource_id@), DEFAULT_ENDPOINT@),
        opens_stream(api_key@, resource_id@, r),
{
    let resource_id = default_resource(resource_id.to_owned());
    open_session(api_key, resource_id.as_str(), DEFAULT_ENDPOINT)
}

/// The error for a packet that could not be sent: the last packet, known by its negative
/// number, has one of its own.
pub fn send_failed(seq: i32, error: String) -> (r: SessionError)
    ensures
        r == (if seq < 0 {
            SessionError::SendLast(error)
        } else {
            SessionError::SendAudio { seq, error }
        }),
        r == send_error(seq, error),
{
    if seq < 0 {
        SessionError::SendLast(error)
    } else {
        SessionError::SendAudio { seq, error }
    }
}

/// What happens to a session.
#[derive(Debug)]
pub enum StreamEvent {
    /// The server replied, or did not in time.
    Server(ServerReply),
    /// Audio was recorded, given as `pcm_s16le` bytes.
    Audio(Vec<u8>),
    /// The recording ended.
    Finish,
}

/// What is to be done about an event, in this order.
#[derive(Debug)]
pub struct StreamAction {
    /// Packets to be sent.
    pub send: Vec<Packet>,
    /// A text to be shown.
    pub emit: Option<String>,
    /// The session's result, if it is over.
    pub outcome: Option<Result<String, SessionError>>,
}

/// A session under way.
#[derive(Debug)]
pub struct StreamSession {
    buffer: Vec<u8>,
    seq: i32,
    text: String,
    last_emitted: String,
    finishing: bool,
    emits: bool,
}

/// A session under way, as a mathematical value.
#[verifier::ext_equal]
pub struct StreamState {
    /// Audio that has not been sent.
    pub buffer: Seq<u8>,
    /// The number of the next packet.
    pub seq: int,
    pub text: Seq<char>,
    /// The text shown last.
    pub last_emitted: Seq<char>,
    /// Whether the last packet is out.
    pub finishing: bool,
    /// Whether texts are to be shown at all.
    pub emits: bool,
}

impl StreamState {
    /// A session that has just been opened.
    pub open spec fn new(emits: bool) -> StreamState {
        StreamState {
            buffer: Seq::empty(),
            seq: 2,
            text: Seq::empty(),
            last_emitted: Seq::empty(),
            finishing: false,
            emits,
        }
    }

    /// The state's invariant: less than a packet is held back, and what is shown is the
    /// text so far.
    pub open spec fn wf(self) -> bool {
        &&& self.buffer.len() < SEGMENT_SIZE_BYTES
        &&& 2 <= self.seq <= i32::MAX
        &&& self.emits ==> self.last_emitted == self.text
    }

    /// Whether `n` more bytes leave a number for the next packet.
    pub open spec fn accepts(self, n: nat) -> bool {
        self.seq + (self.buffer.len() + n) / (SEGMENT_SIZE_BYTES as nat) <= i32::MAX
    }

    /// The session's phase.
    pub open spec fn phase(self) -> Phase {
        if self.finishing {
            Phase::RecordingTail
        } else {
            Phase::Recording
        }
    }
}

impl View for StreamSession {
    type V = StreamState;

    closed spec fn view(&self) -> StreamState {
        StreamState {
            buffer: self.buffer@,
            seq: self.seq as int,
            text: self.text@,
            last_emitted: self.last_emitted@,
            finishing: self.finishing,
            emits: self.emits,
        }
    }
}

/// The `i`th full packet of `audio`.
pub open spec fn full_segment(audio: Seq<u8>, i: int) -> Seq<u8> {
    audio.subrange(i * SEGMENT_SIZE_BYTES, (i + 1) * SEGMENT_SIZE_BYTES)
}

/// Whether `packets` are the first full packets of `audio`, numbered from `seq` on.
pub open spec fn packets_of(packets: Seq<Packet>, seq: int, audio: Seq<u8>) -> bool {
    forall|i: int|
        0 <= i < packets.len() ==> packet_of(#[trigger] packets[i], seq + i, full_segment(audio, i))
}

/// Whether nothing is to be done.
pub open spec fn idle(action: StreamAction) -> bool {
    action.send@.len() == 0 && action.emit is None && action.outcome is None
}

/// What recorded audio comes to: every packet that is now full is sent, the rest is held
/// back.
pub open spec fn audio_step(
    pre: StreamState,
    pcm: Seq<u8>,
    post: StreamState,
    action: StreamAction,
) -> bool {
    let audio = pre.buffer + pcm;
    let full = (audio.len() / SEGMENT_SIZE_BYTES as nat) as int;
    &&& packets_of(action.send@, pre.seq, audio)
    &&& action.send@.len() == full
    &&& action.emit is None
    &&& action.outcome is None
    &&& post == (StreamState {
        buffer: audio.skip(full * SEGMENT_SIZE_BYTES),
        seq: pre.seq + full,
        ..pre
    })
}

/// What the end of the recording comes to: what is held back, be it nothing, is sent as
/// the last packet.
pub open spec fn finish_step(pre: StreamState, post: StreamState, action: StreamAction) -> bool {
    &&& action.send@.len() == 1
    &&& packet_of(action.send@[0], -pre.seq, pre.buffer)
    &&& action.emit is None
    &&& action.outcome is None
    &&& post == (StreamState { buffer: Seq::empty(), finishing: true, ..pre })
}

/// What a reply comes to: a text that is new and not empty is shown.
pub open spec fn reply_step(
    pre: StreamState,
    reply: ServerReply,
    post: StreamState,
    action: StreamAction,
) -> bool {
    let text = text_after_reply(pre.text, reply);
    let shown = pre.emits && text != pre.last_emitted && text.len() > 0;
    &&& action.send@.len() == 0
    &&& action.emit is Some <==> shown
    &&& action.emit matches Some(t) ==> t@ == text
    &&& post == (StreamState {
        text,
        last_emitted: if shown {
            text
        } else {
            pre.last_emitted
        },
        ..pre
    })
    &&& match verdict_of(pre.phase(), reply) {
        Verdict::Continue => action.outcome is None,
        Verdict::Finish => action.outcome is Some && action.outcome->0 is Ok
            && action.outcome->0->Ok_0@ == text,
        Verdict::Fail(e) => action.outcome == Some(Err::<String, _>(e)),
    }
}

/// What an event comes to. Past the last packet only replies count.
pub open spec fn stream_step(
    pre: StreamState,
    event: StreamEvent,
    post: StreamState,
    action: StreamAction,
) -> bool {
    match event {
        StreamEvent::Server(reply) => reply_step(pre, reply, post, action),
        StreamEvent::Audio(pcm) => if pre.finishing {
            idle(action) && post == pre
        } else {
            audio_step(pre, pcm@, post, action)
        },
        StreamEvent::Finish => if pre.finishing {
            idle(action) && post == pre
        } else {
            finish_step(pre, post, action)
        },
    }
}

/// Queues a packet with a built frame; an error of compression is handed back instead.
pub fn queue_packet(
    seq: i32,
    built: Result<Vec<u8>, GzipError>,
    send: &mut Vec<Packet>,
) -> (r: Option<SessionError>)
    ensures
        match built {
            Ok(frame) => r is None && final(send)@ == old(send)@.push(Packet { seq, frame }),
            Err(e) => r == Some(SessionError::Gzip(e)) && final(send)@ == old(send)@,
        },
{
    match built {
        Ok(frame) => {
            send.push(Packet { seq, frame });
            None
        },
        Err(e) => Some(SessionError::Gzip(e)),
    }
}

proof fn segment_arithmetic(n: nat)
    ensures
        SEGMENT_SIZE_BYTES == 6400,
        n / SEGMENT_SIZE_BYTES as nat == n / 6400,
        forall|i: int| #[trigger] (i * SEGMENT_SIZE_BYTES) == 6400 * i,
{
    crate::cloud_asr::doubao::batch::packet_arithmetic(n);
}

impl StreamSession {
    /// Starts a session, once the configuration has been sent. `emits` says whether
    /// texts are to be shown while the recording goes on.
    pub fn new(emits: bool) -> (r: Self)
        ensures
            r@ == StreamState::new(emits),
            r@.wf(),
    {
        proof {
            segment_arithmetic(0);
        }
        let r = StreamSession {
            buffer: Vec::new(),
            seq: 2,
            text: String::new(),
            last_emitted: String::new(),
            finishing: false,
            emits,
        };
        assert(r.buffer@ =~= Seq::empty());
        assert(r.text@ =~= Seq::empty());
        r
    }

    /// Tells whether the session can take `n` more bytes of audio.
    pub fn accepts(&self, n: usize) -> (r: bool)
        requires
            self@.wf(),
        ensures
            r == self@.accepts(n as nat),
    {
        proof {
            segment_arithmetic((self@.buffer.len() + n) as nat);
        }
        let total: u128 = self.buffer.len() as u128 + n as u128;
        self.seq as u128 + total / 6400 <= i32::MAX as u128
    }

    /// Takes in an event.
    pub fn step(&mut self, event: StreamEvent) -> (r: StreamAction)
        requires
            old(self)@.wf(),
            event matches StreamEvent::Audio(pcm) ==> old(self)@.accepts(pcm@.len()),
        ensures
            final(self)@.wf(),
            stream_step(old(self)@, event, final(self)@, r),
    {
        match event {
            StreamEvent::Server(reply) => self.on_reply(reply),
            StreamEvent::Audio(pcm) => if self.finishing {
                StreamAction { send: Vec::new(), emit: None, outcome: None }
            } else {
                self.on_audio(pcm)
            },
            StreamEvent::Finish => if self.finishing {
                StreamAction { send: Vec::new(), emit: None, outcome: None }
            } else {
                self.on_finish()
            },
        }
    }

    fn on_reply(&mut self, reply: ServerReply) -> (r: StreamAction)
        requires
            old(self)@.wf(),
        ensures
            final(self)@.wf(),
            reply_step(old(self)@, reply, final(self)@, r),
    {
        let phase = if self.finishing {
            Phase::RecordingTail
        } else {
            Phase::Recording
        };
        let verdict = absorb_reply(phase, reply, &mut self.text);
        let emit: Option<String> = if self.emits && !same_text(
            self.text.as_str(),
            self.last_emitted.as_str(),
        ) && self.text.as_str().unicode_len() > 0 {
            self.last_emitted = self.text.clone();
            Some(self.text.clone())
        } else {
            None
        };
        let outcome: Option<Result<String, SessionError>> = match verdict {
            Verdict::Continue => None,
            Verdict::Finish => Some(Ok(self.text.clone())),
            Verdict::Fail(e) => Some(Err(e)),
        };
        StreamAction { send: Vec::new(), emit, outcome }
    }

    fn on_audio(&mut self, pcm: Vec<u8>) -> (r: StreamAction)
        requires
            old(self)@.wf(),
            old(self)@.accepts(pcm@.len()),
        ensures
            final(self)@.wf(),
            audio_step(old(self)@, pcm@, final(self)@, r),
    {
        let mut audio: Vec<u8> = Vec::new();
        std::mem::swap(&mut audio, &mut self.buffer);
        audio.extend_from_slice(pcm.as_slice());
        let ghost total = old(self)@.buffer + pcm@;
        let ghost full = total.len() / 6400;
        assert(audio@ =~= total);
        proof {
            segment_arithmetic(total.len());
            assert(self.buffer@ =~= Seq::empty());
        }
        let mut send: Vec<Packet> = Vec::new();
        let mut start: usize = 0;
        let mut seq: i32 = self.seq;
        while audio.len() - start >= SEGMENT_SIZE_BYTES
            invariant
                SEGMENT_SIZE_BYTES == 6400,
                forall|i: int| #[trigger] (i * SEGMENT_SIZE_BYTES) == 6400 * i,
                audio@ == total,
                full == total.len() / 6400,
                start <= audio.len(),
                start == 6400 * send@.len(),
                seq == old(self)@.seq + send@.len(),
                old(self)@.seq + full <= i32::MAX,
                packets_of(send@, old(self)@.seq, total),
                self@.wf(),
                total == old(self)@.buffer + pcm@,
                total.len() / SEGMENT_SIZE_BYTES as nat == total.len() / 6400,
            decreases audio.len() - start,
        {
            let chunk = vstd::slice::slice_subrange(
                audio.as_slice(),
                start,
                start + SEGMENT_SIZE_BYTES,
            );
            assert(chunk@ == full_segment(total, send@.len() as int));
            if let Some(e) = queue_packet(seq, build_audio_only_request(seq, chunk), &mut send) {
                return StreamAction { send, emit: None, outcome: Some(Err(e)) };
            }
            start = start + SEGMENT_SIZE_BYTES;
            seq = seq + 1;
        }
        assert(send@.len() == full);
        let rest = audio.split_off(start);
        assert(rest@ =~= total.skip(full * SEGMENT_SIZE_BYTES));
        self.buffer = rest;
        self.seq = seq;
        StreamAction { send, emit: None, outcome: None }
    }

    fn on_finish(&mut self) -> (r: StreamAction)
        requires
            old(self)@.wf(),
        ensures
            final(self)@.wf(),
            finish_step(old(self)@, final(self)@, r),
    {
        let seq: i32 = -self.seq;
        let mut send: Vec<Packet> = Vec::new();
        let built = build_audio_only_request(seq, self.buffer.as_slice());
        if let Some(e) = queue_packet(seq, built, &mut send) {
            return StreamAction { send, emit: None, outcome: Some(Err(e)) };
        }
        self.buffer = Vec::new();
        self.finishing = true;
        proof {
            segment_arithmetic(0);
            assert(self.buffer@ =~= Seq::empty());
        }
        StreamAction { send, emit: None, outcome: None }
    }
}

/// Whether `states` and `actions` are those of a session that met `events`. It is over
/// once an action has an outcome.
pub open spec fn stream_run(
    emits: bool,
    events: Seq<StreamEvent>,
    states: Seq<StreamState>,
    actions: Seq<StreamAction>,
) -> bool
    decreases events.len(),
{
    let n = events.len() as int;
    &&& states.len() == n + 1
    &&& actions.len() == n
    &&& if n == 0 {
        states[0] == StreamState::new(emits)
    } else {
        &&& stream_run(emits, events.drop_last(), states.drop_last(), actions.drop_last())
        &&& n >= 2 ==> actions[n - 2].outcome is None
        &&& stream_step(states[n - 1], events[n - 1], states[n], actions[n - 1])
        &&& states[n].wf()
    }
}

/// The audio recorded up to the end of the recording.
pub open spec fn audio_received(events: Seq<StreamEvent>) -> Seq<u8>
    decreases events.len(),
{
    if events.len() == 0 {
        Seq::empty()
    } else {
        let before = audio_received(events.drop_last());
        match events.last() {
            StreamEvent::Audio(pcm) => if recording_ended(events) {
                before
            } else {
                before + pcm@
            },
            _ => before,
        }
    }
}

/// Whether the recording has ended.
pub open spec fn recording_ended(events: Seq<StreamEvent>) -> bool {
    exists|i: int| 0 <= i < events.len() && #[trigger] events[i] is Finish
}

/// The packets that a session has sent.
pub open spec fn packets_sent(actions: Seq<StreamAction>) -> Seq<Packet>
    decreases actions.len(),
{
    if actions.len() == 0 {
        Seq::empty()
    } else {
        packets_sent(actions.drop_last()) + actions.last().send@
    }
}

/// The audio that packets carry, one after another.
pub open spec fn packets_audio(packets: Seq<Packet>) -> Seq<u8>
    decreases packets.len(),
{
    if packets.len() == 0 {
        Seq::empty()
    } else {
        packets_audio(packets.drop_last()) + packet_audio(packets.last())
    }
}

proof fn packets_audio_of_parts(a: Seq<Packet>, b: Seq<Packet>)
    ensures
        packets_audio(a + b) == packets_audio(a) + packets_audio(b),
    decreases b.len(),
{
    if b.len() == 0 {
        assert(a + b =~= a);
        assert(packets_audio(a) + packets_audio(b) =~= packets_audio(a));
    } else {
        assert((a + b).drop_last() =~= a + b.drop_last());
        packets_audio_of_parts(a, b.drop_last());
        assert(packets_audio(a + b) =~= packets_audio(a) + packets_audio(b));
    }
}

proof fn full_packets_audio(packets: Seq<Packet>, seq: int, audio: Seq<u8>)
    requires
        packets_of(packets, seq, audio),
        6400 * packets.len() <= audio.len(),
    ensures
        packets_audio(packets) == audio.take(6400 * packets.len() as int),
    decreases packets.len(),
{
    segment_arithmetic(0);
    if packets.len() > 0 {
        let n = packets.len() - 1;
        assert(packet_of(packets[n], seq + n, full_segment(audio, n)));
        assert forall|i: int| 0 <= i < n implies packet_of(
            #[trigger] packets.drop_last()[i],
            seq + i,
            full_segment(audio, i),
        ) by {
            assert(packets.drop_last()[i] == packets[i]);
        }
        full_packets_audio(packets.drop_last(), seq, audio);
    }
    assert(packets_audio(packets) =~= audio.take(6400 * packets.len() as int));
}

proof fn recording_ended_step(events: Seq<StreamEvent>)
    requires
        events.len() > 0,
    ensures
        recording_ended(events) <==> recording_ended(events.drop_last()) || events.last() is Finish,
{
    let n = events.len() - 1;
    if recording_ended(events.drop_last()) {
        let i = choose|i: int|
            0 <= i < events.drop_last().len() && #[trigger] events.drop_last()[i] is Finish;
        assert(events[i] is Finish);
    }
    if recording_ended(events) && !(events.last() is Finish) {
        let i = choose|i: int| 0 <= i < events.len() && #[trigger] events[i] is Finish;
        assert(events.drop_last()[i] is Finish);
    }
    if events.last() is Finish {
        assert(events[n] is Finish);
    }
}

proof fn finishing_means_ended(
    emits: bool,
    events: Seq<StreamEvent>,
    states: Seq<StreamState>,
    actions: Seq<StreamAction>,
)
    requires
        stream_run(emits, events, states, actions),
    ensures
        states.last().finishing <==> recording_ended(events),
    decreases events.len(),
{
    if events.len() > 0 {
        recording_ended_step(events);
        finishing_means_ended(
            emits,
            events.drop_last(),
            states.drop_last(),
            actions.drop_last(),
        );
    }
}

proof fn step_keeps_the_audio(
    pre: StreamState,
    event: StreamEvent,
    post: StreamState,
    action: StreamAction,
)
    requires
        stream_step(pre, event, post, action),
    ensures
        packets_audio(action.send@) + post.buffer == (match event {
            StreamEvent::Audio(pcm) => if pre.finishing {
                pre.buffer
            } else {
                pre.buffer + pcm@
            },
            _ => pre.buffer,
        }),
{
    let now = packets_audio(action.send@);
    match event {
        StreamEvent::Audio(pcm) => {
            if pre.finishing {
                assert(now + post.buffer =~= pre.buffer);
            } else {
                let audio = pre.buffer + pcm@;
                segment_arithmetic(audio.len());
                full_packets_audio(action.send@, pre.seq, audio);
                assert(now + post.buffer =~= audio);
            }
        },
        StreamEvent::Finish => {
            if !pre.finishing {
                let packets = action.send@;
                assert(packets_audio(packets.drop_last()) =~= Seq::<u8>::empty());
                assert(packet_audio(packets.last()) == pre.buffer);
                assert(now =~= pre.buffer);
            }
            assert(now + post.buffer =~= pre.buffer);
        },
        StreamEvent::Server(_) => {
            assert(now + post.buffer =~= pre.buffer);
        },
    }
}

/// No audio is lost, repeated or moved: what a session has sent and what it holds back
/// make up, in this order, what was recorded up to the end of the recording.
pub proof fn stream_keeps_the_audio(
    emits: bool,
    events: Seq<StreamEvent>,
    states: Seq<StreamState>,
    actions: Seq<StreamAction>,
)
    requires
        stream_run(emits, events, states, actions),
    ensures
        packets_audio(packets_sent(actions)) + states.last().buffer == audio_received(events),
    decreases events.len(),
{
    if events.len() == 0 {
        assert(packets_sent(actions) =~= Seq::<Packet>::empty());
        assert(packets_audio(packets_sent(actions)) + states.last().buffer =~= audio_received(
            events,
        ));
    } else {
        let n = events.len() - 1;
        let pre = states[n];
        let post = states[n + 1];
        let action = actions[n];
        let before = packets_sent(actions.drop_last());
        stream_keeps_the_audio(
            emits,
            events.drop_last(),
            states.drop_last(),
            actions.drop_last(),
        );
        recording_ended_step(events);
        finishing_means_ended(
            emits,
            events.drop_last(),
            states.drop_last(),
            actions.drop_last(),
        );
        packets_audio_of_parts(before, action.send@);
        step_keeps_the_audio(pre, events[n], post, action);
        let sent = packets_audio(before);
        let now = packets_audio(action.send@);
        assert(sent + now + post.buffer =~= sent + (now + post.buffer));
        if !pre.finishing && events[n] is Audio {
            let pcm = events[n]->Audio_0@;
            assert(sent + (pre.buffer + pcm) =~= sent + pre.buffer + pcm);
        }
    }
}

/// Once the recording has ended, all of the recorded audio has been sent.
pub proof fn stream_sends_the_recording(
    emits: bool,
    events: Seq<StreamEvent>,
    states: Seq<StreamState>,
    actions: Seq<StreamAction>,
)
    requires
        stream_run(emits, events, states, actions),
        recording_ended(events),
    ensures
        packets_audio(packets_sent(actions)) == audio_received(events),
{
    stream_keeps_the_audio(emits, events, states, actions);
    finishing_means_ended(emits, events, states, actions);
    tail_holds_nothing(emits, events, states, actions);
    assert(packets_audio(packets_sent(actions)) + states.last().buffer =~= packets_audio(
        packets_sent(actions),
    ));
}

proof fn tail_holds_nothing(
    emits: bool,
    events: Seq<StreamEvent>,
    states: Seq<StreamState>,
    actions: Seq<StreamAction>,
)
    requires
        stream_run(emits, events, states, actions),
    ensures
        states.last().finishing ==> states.last().buffer.len() == 0,
    decreases events.len(),
{
    if events.len() > 0 {
        tail_holds_nothing(emits, events.drop_last(), states.drop_last(), actions.drop_last());
    }
}

/// The packets of a session are numbered one after another from 2 on; just the packet
/// that ends the recording has its number negated.
pub proof fn stream_numbers_the_packets(
    emits: bool,
    events: Seq<StreamEvent>,
    states: Seq<StreamState>,
    actions: Seq<StreamAction>,
)
    requires
        stream_run(emits, events, states, actions),
    ensures
        ({
            let packets = packets_sent(actions);
            let ended = states.last().finishing;
            &&& states.last().seq == packets.len() + 2 - if ended {
                1int
            } else {
                0int
            }
            &&& ended ==> packets.len() > 0
            &&& forall|k: int|
                0 <= k < packets.len() ==> (#[trigger] packets[k]).seq == if ended && k
                    == packets.len() - 1 {
                    -(k + 2)
                } else {
                    k + 2
                }
        }),
    decreases events.len(),
{
    if events.len() > 0 {
        let n = events.len() - 1;
        let pre = states[n];
        let action = actions[n];
        let before = packets_sent(actions.drop_last());
        stream_numbers_the_packets(
            emits,
            events.drop_last(),
            states.drop_last(),
            actions.drop_last(),
        );
        let packets = packets_sent(actions);
        assert(packets == before + action.send@);
        let ended = states.last().finishing;
        if !pre.finishing && events[n] is Audio {
            let pcm = events[n]->Audio_0@;
            segment_arithmetic((pre.buffer + pcm).len());
            assert(packets_of(action.send@, pre.seq, pre.buffer + pcm));
        }
        assert forall|k: int| 0 <= k < packets.len() implies (#[trigger] packets[k]).seq == if ended
            && k == packets.len() - 1 {
            -(k + 2)
        } else {
            k + 2
        } by {
            if k < before.len() {
                assert(packets[k] == before[k]);
            } else {
                assert(packets[k] == action.send@[k - before.len()]);
            }
        }
    }
}

/// Every packet is full but the one that ends the recording, and that one is not.
pub proof fn stream_packets_are_full_but_the_last(
    emits: bool,
    events: Seq<StreamEvent>,
    states: Seq<StreamState>,
    actions: Seq<StreamAction>,
)
    requires
        stream_run(emits, events, states, actions),
    ensures
        ({
            let packets = packets_sent(actions);
            forall|k: int|
                0 <= k < packets.len() ==> if states.last().finishing && k == packets.len() - 1 {
                    packet_audio(#[trigger] packets[k]).len() < SEGMENT_SIZE_BYTES
                } else {
                    packet_audio(packets[k]).len() == SEGMENT_SIZE_BYTES
                }
        }),
    decreases events.len(),
{
    if events.len() > 0 {
        let n = events.len() - 1;
        let pre = states[n];
        let action = actions[n];
        let before = packets_sent(actions.drop_last());
        stream_packets_are_full_but_the_last(
            emits,
            events.drop_last(),
            states.drop_last(),
            actions.drop_last(),
        );
        stream_keeps_its_switch(
            emits,
            events.drop_last(),
            states.drop_last(),
            actions.drop_last(),
        );
        let packets = packets_sent(actions);
        assert(packets == before + action.send@);
        if !pre.finishing && events[n] is Audio {
            let pcm = events[n]->Audio_0@;
            segment_arithmetic((pre.buffer + pcm).len());
            assert(packets_of(action.send@, pre.seq, pre.buffer + pcm));
        }
        segment_arithmetic(0);
        assert forall|k: int| 0 <= k < packets.len() implies if states.last().finishing && k
            == packets.len() - 1 {
            packet_audio(#[trigger] packets[k]).len() < SEGMENT_SIZE_BYTES
        } else {
            packet_audio(packets[k]).len() == SEGMENT_SIZE_BYTES
        } by {
            if k < before.len() {
                assert(packets[k] == before[k]);
            } else {
                assert(packets[k] == action.send@[k - before.len()]);
            }
        }
    }
}

/// The texts that a session has shown.
pub open spec fn texts_shown(actions: Seq<StreamAction>) -> Seq<Seq<char>>
    decreases actions.len(),
{
    if actions.len() == 0 {
        Seq::empty()
    } else {
        match actions.last().emit {
            Some(text) => texts_shown(actions.drop_last()).push(text@),
            None => texts_shown(actions.drop_last()),
        }
    }
}

/// A session that shows texts shows the whole text whenever it changes: no text that is
/// shown is empty or equals the one before it, and the one shown last is the text so
/// far, which is empty only where none was shown.
pub proof fn stream_shows_every_change(
    events: Seq<StreamEvent>,
    states: Seq<StreamState>,
    actions: Seq<StreamAction>,
)
    requires
        stream_run(true, events, states, actions),
    ensures
        ({
            let shown = texts_shown(actions);
            &&& forall|k: int| 0 <= k < shown.len() ==> (#[trigger] shown[k]).len() > 0
            &&& forall|k: int|
                #![trigger shown[k]]
                1 <= k < shown.len() ==> shown[k] != shown[k - 1]
            &&& states.last().text == (if shown.len() > 0 {
                shown.last()
            } else {
                Seq::empty()
            })
        }),
    decreases events.len(),
{
    if events.len() > 0 {
        stream_shows_every_change(events.drop_last(), states.drop_last(), actions.drop_last());
        stream_keeps_its_switch(true, events, states, actions);
        stream_keeps_its_switch(
            true,
            events.drop_last(),
            states.drop_last(),
            actions.drop_last(),
        );
        assert(states.drop_last().last().wf());
    }
}

proof fn stream_keeps_its_switch(
    emits: bool,
    events: Seq<StreamEvent>,
    states: Seq<StreamState>,
    actions: Seq<StreamAction>,
)
    requires
        stream_run(emits, events, states, actions),
    ensures
        states.last().emits == emits,
        states.last().wf(),
    decreases events.len(),
{
    segment_arithmetic(0);
    if events.len() > 0 {
        stream_keeps_its_switch(
            emits,
            events.drop_last(),
            states.drop_last(),
            actions.drop_last(),
        );
    }
}

/// A session that shows no texts never asks for one to be shown.
pub proof fn silent_stream_shows_nothing(
    events: Seq<StreamEvent>,
    states: Seq<StreamState>,
    actions: Seq<StreamAction>,
)
    requires
        stream_run(false, events, states, actions),
    ensures
        texts_shown(actions).len() == 0,
    decreases events.len(),
{
    if events.len() > 0 {
        silent_stream_shows_nothing(events.drop_last(), states.drop_last(), actions.drop_last());
        stream_keeps_its_switch(
            false,
            events.drop_last(),
            states.drop_last(),
            actions.drop_last(),
        );
    }
}

/// The replies among events.
pub open spec fn replies_of(events: Seq<StreamEvent>) -> Seq<ServerReply>
    decreases events.len(),
{
    if events.len() == 0 {
        Seq::empty()
    } else {
        match events.last() {
            StreamEvent::Server(reply) => replies_of(events.drop_last()).push(reply),
            _ => replies_of(events.drop_last()),
        }
    }
}

proof fn stream_text(
    emits: bool,
    events: Seq<StreamEvent>,
    states: Seq<StreamState>,
    actions: Seq<StreamAction>,
)
    requires
        stream_run(emits, events, states, actions),
    ensures
        states.last().text == text_after_replies(Seq::empty(), replies_of(events)),
    decreases events.len(),
{
    if events.len() > 0 {
        stream_text(emits, events.drop_last(), states.drop_last(), actions.drop_last());
        if let StreamEvent::Server(reply) = events.last() {
            assert(replies_of(events).drop_last() =~= replies_of(events.drop_last()));
        }
    }
}

/// A session that succeeds returns the text that the replies, taken in one after
/// another, come to: the text that the transcription of a complete recording returns for
/// the same replies.
pub proof fn stream_returns_the_text(
    emits: bool,
    events: Seq<StreamEvent>,
    states: Seq<StreamState>,
    actions: Seq<StreamAction>,
    text: String,
)
    requires
        stream_run(emits, events, states, actions),
        actions.len() > 0,
        actions.last().outcome == Some(Ok::<String, SessionError>(text)),
    ensures
        text@ == text_after_replies(Seq::empty(), replies_of(events)),
{
    stream_text(emits, events, states, actions);
}

/// What each reply comes to, by the events alone. A frame ends the session if and only if
/// it reports an error, and then with that error, or is the server's last one, and then
/// with success; any other frame without error ends nothing, whether the recording goes on
/// or has ended. A message of another kind is passed over. A closed connection and a failed
/// read end the session at any time: a failed read with an error, a closed connection with
/// an error while the recording goes on and with success once it has ended. A frame that
/// cannot be read and a missing reply are passed over while the recording goes on; once it
/// has ended the first is an error and the second success.
pub proof fn stream_answers_each_reply(
    emits: bool,
    events: Seq<StreamEvent>,
    states: Seq<StreamState>,
    actions: Seq<StreamAction>,
    reply: ServerReply,
)
    requires
        stream_run(emits, events, states, actions),
        events.len() > 0,
        events.last() == StreamEvent::Server(reply),
    ensures
        actions.last().send@.len() == 0,
        ({
            let ended = recording_ended(events);
            let outcome = actions.last().outcome;
            match reply {
                ServerReply::Frame(Ok(parsed)) => {
                    &&& parsed.code != 0 ==> outcome == Some(
                        Err::<String, _>(
                            SessionError::Server {
                                code: parsed.code,
                                error: match parsed.payload {
                                    Some(payload) => payload.error,
                                    None => None,
                                },
                            },
                        ),
                    )
                    &&& parsed.code == 0 && parsed.is_last_package ==> outcome is Some
                        && outcome->0 is Ok
                    &&& parsed.code == 0 && !parsed.is_last_package ==> outcome is None
                },
                ServerReply::Frame(Err(e)) => if ended {
                    outcome == Some(Err::<String, _>(SessionError::Response(e)))
                } else {
                    outcome is None
                },
                ServerReply::Other => outcome is None,
                ServerReply::Close | ServerReply::Ended => if ended {
                    outcome is Some && outcome->0 is Ok
                } else {
                    outcome == Some(Err::<String, _>(SessionError::StreamClosed))
                },
                ServerReply::Failed(e) => if ended {
                    outcome == Some(Err::<String, _>(SessionError::StreamTail(e)))
                } else {
                    outcome == Some(Err::<String, _>(SessionError::StreamRead(e)))
                },
                ServerReply::Timeout => if ended {
                    outcome is Some && outcome->0 is Ok
                } else {
                    outcome is None
                },
            }
        }),
{
    recording_ended_step(events);
    finishing_means_ended(emits, events.drop_last(), states.drop_last(), actions.drop_last());
}

/// A session succeeds only with the server's last frame, or after the recording has ended
/// with a closed connection or a missing reply. No other reply, and neither audio nor the
/// end of the recording, gives it a text to return.
pub proof fn stream_succeeds_only_at_the_end(
    emits: bool,
    events: Seq<StreamEvent>,
    states: Seq<StreamState>,
    actions: Seq<StreamAction>,
    text: String,
)
    requires
        stream_run(emits, events, states, actions),
        events.len() > 0,
        actions.last().outcome == Some(Ok::<_, SessionError>(text)),
    ensures
        match events.last() {
            StreamEvent::Server(ServerReply::Frame(Ok(parsed))) => parsed.code == 0
                && parsed.is_last_package,
            StreamEvent::Server(ServerReply::Close) => recording_ended(events),
            StreamEvent::Server(ServerReply::Ended) => recording_ended(events),
            StreamEvent::Server(ServerReply::Timeout) => recording_ended(events),
            _ => false,
        },
{
    recording_ended_step(events);
    finishing_means_ended(emits, events.drop_last(), states.drop_last(), actions.drop_last());
    if let StreamEvent::Server(reply) = events.last() {
        stream_answers_each_reply(emits, events, states, actions, reply);
    }
}

/// Audio and the end of the recording never end a session or show a text. After the
/// recording has ended neither has any effect; before, the end of the recording sends one
/// packet, and audio leaves less than a packet unsent.
pub proof fn recording_never_ends_the_session(
    emits: bool,
    events: Seq<StreamEvent>,
    states: Seq<StreamState>,
    actions: Seq<StreamAction>,
)
    requires
        stream_run(emits, events, states, actions),
        events.len() > 0,
        !(events.last() is Server),
    ensures
        actions.last().outcome is None,
        actions.last().emit is None,
        states.last().text == states[events.len() - 1].text,
        recording_ended(events.drop_last()) ==> actions.last().send@.len() == 0 && states.last()
            == states[events.len() - 1],
        !recording_ended(events.drop_last()) && events.last() is Finish
            ==> actions.last().send@.len() == 1 && actions.last().send@[0].seq < 0,
        events.last() matches StreamEvent::Audio(pcm) ==> recording_ended(events.drop_last()) || {
            &&& 6400 * actions.last().send@.len() + states.last().buffer.len() == states[events.len()
                - 1].buffer.len() + pcm@.len()
            &&& states.last().buffer.len() < 6400
        },
{
    let n = events.len() - 1;
    recording_ended_step(events);
    finishing_means_ended(emits, events.drop_last(), states.drop_last(), actions.drop_last());
    segment_arithmetic(0);
    if let StreamEvent::Audio(pcm) = events.last() {
        segment_arithmetic((states[n].buffer + pcm@).len());
    }
    run_numbers_from_two(emits, events.drop_last(), states.drop_last(), actions.drop_last());
}

proof fn run_numbers_from_two(
    emits: bool,
    events: Seq<StreamEvent>,
    states: Seq<StreamState>,
    actions: Seq<StreamAction>,
)
    requires
        stream_run(emits, events, states, actions),
    ensures
        states.last().seq >= 2,
{
}

/// A session can take more audio if and only if the packets that it fills, and the one that
/// ends the recording, have numbers that can be written.
pub proof fn audio_is_taken_while_numbers_last(state: StreamState, n: nat)
    requires
        state.wf(),
    ensures
        state.accepts(n) <==> state.seq + (state.buffer.len() + n) / 6400 <= 0x7fff_ffff,
        state.accepts(0),
        forall|m: nat| m <= n && state.accepts(n) ==> #[trigger] state.accepts(m),
{
    segment_arithmetic(state.buffer.len() + n);
    segment_arithmetic(state.buffer.len());
    assert forall|m: nat| m <= n && state.accepts(n) implies #[trigger] state.accepts(m) by {
        segment_arithmetic(state.buffer.len() + m);
    }
}

/// The end of a recording waits for the result longer than the session waits for the server.
pub proof fn the_result_is_awaited_longer_than_the_server()
    ensures
        FINISH_TIMEOUT_SECS == 35,
        FINISH_TIMEOUT_SECS > crate::cloud_asr::doubao::session::TAIL_TIMEOUT_SECS,
{
}

/// A packet that could not be sent is an error of the last packet just where its number is
/// negative; any other is named by its number.
pub proof fn unsent_packets_are_named(seq: i32, error: String)
    ensures
        send_error(seq, error) == SessionError::SendLast(error) <==> seq < 0,
        seq >= 0 ==> send_error(seq, error) == (SessionError::SendAudio { seq, error }),
{
}

/// A session that uploads while recording asks for the endpoint of transcription, with the
/// key as it is and with the resource as it is unless that is blank.
pub proof fn streams_open_with_their_credentials(
    api_key: Seq<char>,
    resource_id: Seq<char>,
    r: Result<HandshakeRequest, SessionError>,
)
    requires
        opens_stream(api_key, resource_id, r),
    ensures
        (r matches Err(SessionError::EmptyApiKey)) <==> blank(api_key),
        r matches Err(e) ==> (e is EmptyApiKey || e is Handshake),
        r matches Ok(request) ==> {
            &&& request.uri@ == "wss://openspeech.bytedance.com/api/v3/sauc/bigmodel_async"@
            &&& has_header(request, "X-Api-Key"@, api_key)
            &&& !blank(resource_id) ==> has_header(request, "X-Api-Resource-Id"@, resource_id)
            &&& blank(resource_id) ==> has_header(
                request,
                "X-Api-Resource-Id"@,
                "volc.seedasr.sauc.duration"@,
            )
        },
{
    sessions_open_with_their_credentials(
        api_key,
        resource_or_default(resource_id),
        DEFAULT_ENDPOINT@,
        r,
    );
}

} // verus!
