//! The transcription of a complete recording: which packet is sent next, and what is
//! made of the replies.

use crate::cloud_asr::doubao::client::SEGMENT_SIZE_BYTES;
#[allow(unused_imports)]
use crate::cloud_asr::doubao::client::{PCM_BYTES_PER_SECOND, SEGMENT_DURATION_MS};
use crate::cloud_asr::doubao::payload::build_audio_only_request;
use crate::cloud_asr::doubao::protocol::GzipError;
use crate::cloud_asr::doubao::session::{
    absorb_reply, closes, Packet, Phase, ServerReply, SessionError, Verdict,
};
#[allow(unused_imports)]
use crate::cloud_asr::doubao::session::{
    is_closing, packet_audio, packet_of, text_after_replies, text_after_reply, verdict_of,
};
use vstd::prelude::*;

verus! {

/// The number of packets that a recording takes.
pub open spec fn packet_count(pcm_len: nat) -> nat {
    (pcm_len + SEGMENT_SIZE_BYTES - 1) as nat / SEGMENT_SIZE_BYTES as nat
}

/// The audio of packet `i`: as much as fits into a packet, or what is left.
pub open spec fn segment(pcm: Seq<u8>, i: int) -> Seq<u8> {
    pcm.subrange(
        i * SEGMENT_SIZE_BYTES,
        if (i + 1) * SEGMENT_SIZE_BYTES <= pcm.len() {
            (i + 1) * SEGMENT_SIZE_BYTES
        } else {
            pcm.len() as int
        },
    )
}

/// The sequence number of packet `i`. The configuration has number 1; the last packet's
/// is negated.
pub open spec fn packet_seq(i: int, count: nat) -> int {
    if i + 1 == count {
        -(i + 2)
    } else {
        i + 2
    }
}

/// Whether the sequence numbers of a recording's packets can be written.
pub open spec fn batch_fits(pcm_len: nat) -> bool {
    packet_count(pcm_len) + 1 <= i32::MAX
}

/// The arithmetic of packets in numbers.
pub(crate) proof fn packet_arithmetic(pcm_len: nat)
    ensures
        SEGMENT_SIZE_BYTES == 6400,
        packet_count(pcm_len) == (pcm_len + 6399) / 6400,
        forall|i: int| #[trigger] (i * SEGMENT_SIZE_BYTES) == 6400 * i,
{
    assert(PCM_BYTES_PER_SECOND * SEGMENT_DURATION_MS == 6400000) by (nonlinear_arith)
        requires
            PCM_BYTES_PER_SECOND == 32000,
            SEGMENT_DURATION_MS == 200,
    ;
    assert forall|i: int| #[trigger] (i * SEGMENT_SIZE_BYTES) == 6400 * i by {
        assert(i * SEGMENT_SIZE_BYTES == 6400 * i) by (nonlinear_arith)
            requires
                SEGMENT_SIZE_BYTES == 6400,
        ;
    }
}

/// Tells whether the sequence numbers of a recording's packets can be written.
pub fn fits_batch(pcm_len: usize) -> (r: bool)
    ensures
        r == batch_fits(pcm_len as nat),
{
    count_packets(pcm_len) < i32::MAX as usize
}

/// Counts the packets of a recording.
pub fn count_packets(pcm_len: usize) -> (r: usize)
    ensures
        r == packet_count(pcm_len as nat),
{
    proof {
        packet_arithmetic(pcm_len as nat);
    }
    if pcm_len % SEGMENT_SIZE_BYTES == 0 {
        pcm_len / SEGMENT_SIZE_BYTES
    } else {
        pcm_len / SEGMENT_SIZE_BYTES + 1
    }
}

/// What is to be done next.
#[derive(Debug)]
pub enum BatchAction {
    /// Send a packet, then wait a moment for a reply.
    Send(Packet),
    /// Wait for a reply until the deadline that all of the tail shares.
    ReadTail,
    /// Close the connection, with this result.
    Done(Result<String, SessionError>),
}

/// A transcription under way.
#[derive(Debug)]
pub struct BatchSession {
    pcm: Vec<u8>,
    issued: usize,
    text: String,
    closed: bool,
    tail: bool,
}

/// A transcription under way, as a mathematical value.
#[verifier::ext_equal]
pub struct BatchState {
    pub pcm: Seq<u8>,
    /// The number of packets handed out so far.
    pub issued: nat,
    pub text: Seq<char>,
    /// Whether the server was seen to close the connection.
    pub closed: bool,
    /// Whether all packets are out and only replies are awaited.
    pub tail: bool,
}

impl BatchState {
    /// The state's invariant.
    pub open spec fn wf(self) -> bool {
        &&& batch_fits(self.pcm.len())
        &&& self.issued <= packet_count(self.pcm.len())
        &&& self.tail ==> self.issued == packet_count(self.pcm.len()) && !self.closed
    }

    /// A session with the recording `pcm` that has done nothing yet.
    pub open spec fn new(pcm: Seq<u8>) -> BatchState {
        BatchState { pcm, issued: 0, text: Seq::empty(), closed: false, tail: false }
    }

    /// The session after it has heard a reply.
    pub open spec fn heard(self, reply: ServerReply) -> BatchState {
        BatchState {
            text: text_after_reply(self.text, reply),
            closed: self.closed || (!self.tail && is_closing(reply)),
            ..self
        }
    }

    /// The session's phase.
    pub open spec fn phase(self) -> Phase {
        if self.tail {
            Phase::SendingTail
        } else {
            Phase::Sending
        }
    }
}

impl View for BatchSession {
    type V = BatchState;

    closed spec fn view(&self) -> BatchState {
        BatchState {
            pcm: self.pcm@,
            issued: self.issued as nat,
            text: self.text@,
            closed: self.closed,
            tail: self.tail,
        }
    }
}

/// Whether `action` hands out packet `i` of a recording.
pub open spec fn hands_out(pcm: Seq<u8>, i: int, action: BatchAction) -> bool {
    match action {
        BatchAction::Send(packet) => packet_of(
            packet,
            packet_seq(i, packet_count(pcm.len())),
            segment(pcm, i),
        ),
        _ => false,
    }
}

/// What follows where the session goes on: the next packet if there is one, else the
/// tail, unless the connection is gone by then.
pub open spec fn goes_on(pre: BatchState, post: BatchState, action: BatchAction) -> bool {
    if pre.issued < packet_count(pre.pcm.len()) {
        &&& post == (BatchState { issued: pre.issued + 1, ..pre })
        &&& hands_out(pre.pcm, pre.issued as int, action)
    } else if pre.closed {
        &&& post == pre
        &&& action == BatchAction::Done(Err(SessionError::ClosedBeforeLast))
    } else {
        &&& post == (BatchState { tail: true, ..pre })
        &&& action is ReadTail
    }
}

/// What a reply comes to.
pub open spec fn batch_step(
    pre: BatchState,
    reply: ServerReply,
    post: BatchState,
    action: BatchAction,
) -> bool {
    let heard = pre.heard(reply);
    match verdict_of(pre.phase(), reply) {
        Verdict::Fail(e) => {
            &&& post == heard
            &&& action == BatchAction::Done(Err(e))
        },
        Verdict::Finish => {
            &&& post == heard
            &&& action is Done
            &&& action->Done_0 is Ok
            &&& action->Done_0->Ok_0@ == heard.text
        },
        Verdict::Continue => goes_on(heard, post, action),
    }
}

/// The action that a built frame leads to; an error of compression ends the session.
pub fn packet_action(seq: i32, built: Result<Vec<u8>, GzipError>) -> (r: BatchAction)
    ensures
        r == (match built {
            Ok(frame) => BatchAction::Send(Packet { seq, frame }),
            Err(e) => BatchAction::Done(Err(SessionError::Gzip(e))),
        }),
{
    match built {
        Ok(frame) => BatchAction::Send(Packet { seq, frame }),
        Err(e) => BatchAction::Done(Err(SessionError::Gzip(e))),
    }
}

impl BatchSession {
    /// Starts the transcription of a recording, once the configuration has been sent.
    pub fn begin(pcm: Vec<u8>) -> (r: (BatchSession, BatchAction))
        requires
            batch_fits(pcm@.len()),
        ensures
            r.0@.wf(),
            goes_on(BatchState::new(pcm@), r.0@, r.1),
    {
        let mut session = BatchSession {
            pcm,
            issued: 0,
            text: String::new(),
            closed: false,
            tail: false,
        };
        assert(session.text@ =~= Seq::empty());
        let action = session.advance();
        (session, action)
    }

    fn advance(&mut self) -> (r: BatchAction)
        requires
            old(self)@.wf(),
        ensures
            final(self)@.wf(),
            goes_on(old(self)@, final(self)@, r),
    {
        proof {
            packet_arithmetic(self.pcm@.len());
        }
        let count = count_packets(self.pcm.len());
        if self.issued >= count {
            if self.closed {
                return BatchAction::Done(Err(SessionError::ClosedBeforeLast));
            }
            self.tail = true;
            return BatchAction::ReadTail;
        }
        let i = self.issued;
        let start: usize = i * SEGMENT_SIZE_BYTES;
        let left: usize = self.pcm.len() - start;
        let end: usize = if left >= SEGMENT_SIZE_BYTES {
            start + SEGMENT_SIZE_BYTES
        } else {
            self.pcm.len()
        };
        let number: i32 = i as i32 + 2;
        let seq: i32 = if i + 1 == count {
            -number
        } else {
            number
        };
        let chunk = vstd::slice::slice_subrange(self.pcm.as_slice(), start, end);
        assert(chunk@ == segment(self.pcm@, i as int));
        let action = packet_action(seq, build_audio_only_request(seq, chunk));
        self.issued = i + 1;
        action
    }

    /// Takes in what came of waiting for the server after the last action.
    pub fn step(&mut self, reply: ServerReply) -> (r: BatchAction)
        requires
            old(self)@.wf(),
        ensures
            final(self)@.wf(),
            batch_step(old(self)@, reply, final(self)@, r),
    {
        let phase = if self.tail {
            Phase::SendingTail
        } else {
            if closes(&reply) {
                self.closed = true;
            }
            Phase::Sending
        };
        match absorb_reply(phase, reply, &mut self.text) {
            Verdict::Fail(e) => BatchAction::Done(Err(e)),
            Verdict::Finish => BatchAction::Done(Ok(self.text.clone())),
            Verdict::Continue => self.advance(),
        }
    }
}

/// Every packet but the last is full, and the last one is not empty.
pub proof fn packets_are_full_but_the_last(pcm: Seq<u8>, i: int)
    requires
        0 <= i < packet_count(pcm.len()),
    ensures
        i + 1 < packet_count(pcm.len()) ==> segment(pcm, i).len() == SEGMENT_SIZE_BYTES,
        1 <= segment(pcm, i).len() <= SEGMENT_SIZE_BYTES,
{
    packet_arithmetic(pcm.len());
}

/// The audio of the first `n` packets.
pub open spec fn segments(pcm: Seq<u8>, n: nat) -> Seq<u8>
    decreases n,
{
    if n == 0 {
        Seq::empty()
    } else {
        segments(pcm, (n - 1) as nat) + segment(pcm, n - 1)
    }
}

proof fn segments_are_a_prefix(pcm: Seq<u8>, n: nat)
    requires
        n <= packet_count(pcm.len()),
    ensures
        segments(pcm, n) == pcm.take(
            if 6400 * n <= pcm.len() {
                6400 * n as int
            } else {
                pcm.len() as int
            },
        ),
    decreases n,
{
    packet_arithmetic(pcm.len());
    if n > 0 {
        segments_are_a_prefix(pcm, (n - 1) as nat);
        assert(segment(pcm, n - 1).len() > 0);
    }
    assert(segments(pcm, n) =~= pcm.take(
        if 6400 * n <= pcm.len() {
            6400 * n as int
        } else {
            pcm.len() as int
        },
    ));
}

/// The packets together carry the recording: nothing is lost, repeated or moved.
pub proof fn packets_make_the_recording(pcm: Seq<u8>)
    ensures
        segments(pcm, packet_count(pcm.len())) == pcm,
{
    packet_arithmetic(pcm.len());
    segments_are_a_prefix(pcm, packet_count(pcm.len()));
}

/// The packets are numbered one after another from 2 on, and just the last packet's
/// number is negative.
pub proof fn packets_are_numbered(pcm_len: nat, i: int)
    requires
        0 <= i < packet_count(pcm_len),
    ensures
        packet_seq(i, packet_count(pcm_len)) < 0 <==> i + 1 == packet_count(pcm_len),
        packet_seq(i, packet_count(pcm_len)) == i + 2 || packet_seq(i, packet_count(pcm_len))
            == -(i + 2),
{
}

/// Whether `states` and `actions` are those of a session with the recording `pcm` that
/// met `replies`.
pub open spec fn batch_run(
    pcm: Seq<u8>,
    replies: Seq<ServerReply>,
    states: Seq<BatchState>,
    actions: Seq<BatchAction>,
) -> bool
    decreases replies.len(),
{
    let n = replies.len() as int;
    &&& states.len() == n + 1
    &&& actions.len() == n + 1
    &&& if n == 0 {
        goes_on(BatchState::new(pcm), states[0], actions[0])
    } else {
        &&& batch_run(pcm, replies.drop_last(), states.drop_last(), actions.drop_last())
        &&& !(actions[n - 1] is Done)
        &&& batch_step(states[n - 1], replies[n - 1], states[n], actions[n])
    }
}

proof fn batch_run_state(
    pcm: Seq<u8>,
    replies: Seq<ServerReply>,
    states: Seq<BatchState>,
    actions: Seq<BatchAction>,
)
    requires
        batch_fits(pcm.len()),
        batch_run(pcm, replies, states, actions),
    ensures
        states.last().wf(),
        states.last().pcm == pcm,
        states.last().text == text_after_replies(Seq::empty(), replies),
        actions.last() is Send ==> {
            &&& !states.last().tail
            &&& states.last().issued == actions.len()
            &&& hands_out(pcm, actions.len() - 1, actions.last())
        },
        actions.last() is ReadTail ==> {
            &&& states.last().tail
            &&& states.last().issued == packet_count(pcm.len())
            &&& actions.len() > packet_count(pcm.len())
        },
        actions.last() matches BatchAction::Done(Ok(text)) ==> text@ == states.last().text,
    decreases replies.len(),
{
    if replies.len() > 0 {
        batch_run_state(pcm, replies.drop_last(), states.drop_last(), actions.drop_last());
    }
}

/// A session that succeeds returns the text that the replies, taken in one after
/// another, come to.
pub proof fn batch_returns_the_text(
    pcm: Seq<u8>,
    replies: Seq<ServerReply>,
    states: Seq<BatchState>,
    actions: Seq<BatchAction>,
    text: String,
)
    requires
        batch_fits(pcm.len()),
        batch_run(pcm, replies, states, actions),
        actions.last() == BatchAction::Done(Ok(text)),
    ensures
        text@ == text_after_replies(Seq::empty(), replies),
{
    batch_run_state(pcm, replies, states, actions);
}

/// The audio that an action sends.
pub open spec fn audio_of(action: BatchAction) -> Seq<u8> {
    match action {
        BatchAction::Send(packet) => packet_audio(packet),
        _ => Seq::empty(),
    }
}

/// The audio that actions send, one after another.
pub open spec fn audio_sent(actions: Seq<BatchAction>) -> Seq<u8>
    decreases actions.len(),
{
    if actions.len() == 0 {
        Seq::empty()
    } else {
        audio_sent(actions.drop_last()) + audio_of(actions.last())
    }
}

proof fn batch_run_audio(
    pcm: Seq<u8>,
    replies: Seq<ServerReply>,
    states: Seq<BatchState>,
    actions: Seq<BatchAction>,
)
    requires
        batch_fits(pcm.len()),
        batch_run(pcm, replies, states, actions),
    ensures
        !(actions.last() is Done) ==> audio_sent(actions) == segments(pcm, states.last().issued),
    decreases replies.len(),
{
    batch_run_state(pcm, replies, states, actions);
    if replies.len() == 0 {
        assert(audio_sent(actions.drop_last()) =~= Seq::<u8>::empty());
        assert(segments(pcm, 0) =~= Seq::<u8>::empty());
        assert(segments(pcm, 1) =~= segment(pcm, 0));
    } else {
        batch_run_state(pcm, replies.drop_last(), states.drop_last(), actions.drop_last());
        batch_run_audio(pcm, replies.drop_last(), states.drop_last(), actions.drop_last());
        assert(audio_sent(actions.drop_last()) + Seq::<u8>::empty() =~= audio_sent(
            actions.drop_last(),
        ));
    }
}

/// A session that reaches its tail has sent the whole recording, in order.
pub proof fn batch_sends_the_recording(
    pcm: Seq<u8>,
    replies: Seq<ServerReply>,
    states: Seq<BatchState>,
    actions: Seq<BatchAction>,
)
    requires
        batch_fits(pcm.len()),
        batch_run(pcm, replies, states, actions),
        actions.last() is ReadTail,
    ensures
        audio_sent(actions) == pcm,
{
    batch_run_state(pcm, replies, states, actions);
    batch_run_audio(pcm, replies, states, actions);
    packets_make_the_recording(pcm);
}

/// Once all packets are out, a connection that the server closes is an error, in the tail as
/// well as in the moment after the last packet.
pub proof fn closed_after_the_last_packet_is_an_error(
    pre: BatchState,
    reply: ServerReply,
    post: BatchState,
    action: BatchAction,
)
    requires
        pre.wf(),
        pre.issued == packet_count(pre.pcm.len()),
        reply is Close || reply is Ended,
        batch_step(pre, reply, post, action),
    ensures
        action == BatchAction::Done(Err(SessionError::ClosedBeforeLast)),
{
}

/// A session succeeds only with the server's last frame, or when no reply came in time on a
/// connection that was never seen to close. From the last packet on no session that
/// succeeds has seen it close at all.
pub proof fn batch_succeeds_only_at_the_last_frame(
    pcm: Seq<u8>,
    replies: Seq<ServerReply>,
    states: Seq<BatchState>,
    actions: Seq<BatchAction>,
    text: String,
)
    requires
        batch_fits(pcm.len()),
        batch_run(pcm, replies, states, actions),
        actions.last() == BatchAction::Done(Ok(text)),
    ensures
        replies.len() > 0,
        match replies.last() {
            ServerReply::Frame(Ok(parsed)) => parsed.code == 0 && parsed.is_last_package,
            ServerReply::Timeout => forall|i: int|
                0 <= i < replies.len() ==> !is_closing(#[trigger] replies[i]),
            _ => false,
        },
        forall|i: int|
            packet_count(pcm.len()) - 1 <= i < replies.len() && 0 <= i ==> !is_closing(
                #[trigger] replies[i],
            ),
{
    batch_run_state(pcm, replies, states, actions);
    if replies.len() > 0 {
        let n = replies.len() - 1;
        batch_run_state(pcm, replies.drop_last(), states.drop_last(), actions.drop_last());
        batch_run_closing(pcm, replies.drop_last(), states.drop_last(), actions.drop_last());
        assert forall|i: int| 0 <= i < replies.len() && replies.last() is Timeout implies
            !is_closing(#[trigger] replies[i]) by {
            if i < n {
                assert(replies.drop_last()[i] == replies[i]);
            }
        }
        assert forall|i: int|
            packet_count(pcm.len()) - 1 <= i < replies.len() && 0 <= i implies !is_closing(
            #[trigger] replies[i],
        ) by {
            if i < n {
                assert(replies.drop_last()[i] == replies[i]);
            }
        }
    }
}

proof fn batch_run_closing(
    pcm: Seq<u8>,
    replies: Seq<ServerReply>,
    states: Seq<BatchState>,
    actions: Seq<BatchAction>,
)
    requires
        batch_fits(pcm.len()),
        batch_run(pcm, replies, states, actions),
        !(actions.last() is Done),
    ensures
        !states.last().closed ==> forall|i: int|
            0 <= i < replies.len() ==> !is_closing(#[trigger] replies[i]),
        forall|i: int|
            packet_count(pcm.len()) - 1 <= i < replies.len() && 0 <= i ==> !is_closing(
                #[trigger] replies[i],
            ),
    decreases replies.len(),
{
    if replies.len() > 0 {
        let n = replies.len() - 1;
        batch_run_state(pcm, replies, states, actions);
        batch_run_state(pcm, replies.drop_last(), states.drop_last(), actions.drop_last());
        batch_run_closing(pcm, replies.drop_last(), states.drop_last(), actions.drop_last());
        assert forall|i: int| 0 <= i < replies.len() && !states.last().closed implies
            !is_closing(#[trigger] replies[i]) by {
            if i < n {
                assert(replies.drop_last()[i] == replies[i]);
            }
        }
        assert forall|i: int|
            packet_count(pcm.len()) - 1 <= i < replies.len() && 0 <= i implies !is_closing(
            #[trigger] replies[i],
        ) by {
            if i < n {
                assert(replies.drop_last()[i] == replies[i]);
            }
        }
    }
}

/// Whether two actions are the same to the outside: the same bytes are sent, the same
/// result is returned.
pub open spec fn same_action(a: BatchAction, b: BatchAction) -> bool {
    match (a, b) {
        (BatchAction::Send(p), BatchAction::Send(q)) => p.seq == q.seq && p.frame@ == q.frame@,
        (BatchAction::ReadTail, BatchAction::ReadTail) => true,
        (BatchAction::Done(Ok(t)), BatchAction::Done(Ok(u))) => t@ == u@,
        (BatchAction::Done(Err(e)), BatchAction::Done(Err(f))) => e == f,
        _ => false,
    }
}

/// What a session sends and returns depends on the recording and the replies alone; a
/// language, in particular, has no part in it.
pub proof fn batch_is_determined(
    pcm: Seq<u8>,
    replies: Seq<ServerReply>,
    states_a: Seq<BatchState>,
    actions_a: Seq<BatchAction>,
    states_b: Seq<BatchState>,
    actions_b: Seq<BatchAction>,
)
    requires
        batch_run(pcm, replies, states_a, actions_a),
        batch_run(pcm, replies, states_b, actions_b),
    ensures
        states_a == states_b,
        actions_a.len() == actions_b.len(),
        forall|i: int|
            0 <= i < actions_a.len() ==> same_action(#[trigger] actions_a[i], actions_b[i]),
    decreases replies.len(),
{
    let n = replies.len() as int;
    if n > 0 {
        batch_is_determined(
            pcm,
            replies.drop_last(),
            states_a.drop_last(),
            actions_a.drop_last(),
            states_b.drop_last(),
            actions_b.drop_last(),
        );
        assert(states_a.drop_last()[n - 1] == states_b.drop_last()[n - 1]);
        assert(same_action(actions_a[n], actions_b[n]));
        assert forall|i: int| 0 <= i < actions_a.len() implies same_action(
            #[trigger] actions_a[i],
            actions_b[i],
        ) by {
            if i < n {
                assert(same_action(actions_a.drop_last()[i], actions_b.drop_last()[i]));
            }
        }
        assert forall|i: int| 0 <= i <= n implies states_a[i] == states_b[i] by {
            if i < n {
                assert(states_a.drop_last()[i] == states_b.drop_last()[i]);
            }
        }
    }
    assert(states_a =~= states_b);
}

/// What each reply comes to, by the replies and the actions alone. A frame ends the session
/// if it reports an error, with that error, or is the server's last one, with success. While
/// packets are sent no other reply ends it: the next packet follows, and after the last one
/// the tail, unless the connection was seen to close. In the tail a closed connection, a
/// failed read and a frame that cannot be read are errors, a missing reply ends the session
/// with success, and anything else is followed by more waiting.
pub proof fn batch_answers_each_reply(
    pcm: Seq<u8>,
    replies: Seq<ServerReply>,
    states: Seq<BatchState>,
    actions: Seq<BatchAction>,
)
    requires
        batch_fits(pcm.len()),
        batch_run(pcm, replies, states, actions),
        replies.len() > 0,
    ensures
        ({
            let n = replies.len() as int;
            let action = actions[n];
            let went_on = {
                &&& 6400 * n < pcm.len() ==> action is Send
                &&& 6400 * n >= pcm.len() ==> if exists|i: int|
                    0 <= i < n && (#[trigger] replies[i] is Close || replies[i] is Ended) {
                    action == BatchAction::Done(Err(SessionError::ClosedBeforeLast))
                } else {
                    action is ReadTail
                }
            };
            match replies[n - 1] {
                ServerReply::Frame(Ok(parsed)) => {
                    &&& parsed.code != 0 ==> action == BatchAction::Done(
                        Err(
                            SessionError::Server {
                                code: parsed.code,
                                error: match parsed.payload {
                                    Some(payload) => payload.error,
                                    None => None,
                                },
                            },
                        ),
                    )
                    &&& parsed.code == 0 && parsed.is_last_package ==> action is Done
                        && action->Done_0 is Ok
                    &&& parsed.code == 0 && !parsed.is_last_package ==> went_on
                },
                ServerReply::Frame(Err(e)) => if actions[n - 1] is ReadTail {
                    action == BatchAction::Done(Err(SessionError::Response(e)))
                } else {
                    went_on
                },
                ServerReply::Other => went_on,
                ServerReply::Close | ServerReply::Ended => if actions[n - 1] is ReadTail {
                    action == BatchAction::Done(Err(SessionError::ClosedBeforeLast))
                } else {
                    went_on
                },
                ServerReply::Failed(e) => if actions[n - 1] is ReadTail {
                    action == BatchAction::Done(Err(SessionError::ReadTail(e)))
                } else {
                    went_on
                },
                ServerReply::Timeout => if actions[n - 1] is ReadTail {
                    action is Done && action->Done_0 is Ok
                } else {
                    went_on
                },
            }
        }),
{
    let n = replies.len() as int;
    packet_arithmetic(pcm.len());
    batch_run_state(pcm, replies.drop_last(), states.drop_last(), actions.drop_last());
    batch_run_closing(pcm, replies.drop_last(), states.drop_last(), actions.drop_last());
    batch_run_closed(pcm, replies.drop_last(), states.drop_last(), actions.drop_last());
    let closing = exists|i: int|
        0 <= i < n && (#[trigger] replies[i] is Close || replies[i] is Ended);
    assert(closing <==> states[n - 1].closed || is_closing(replies[n - 1])) by {
        if closing && !is_closing(replies[n - 1]) {
            let i = choose|i: int|
                0 <= i < n && (#[trigger] replies[i] is Close || replies[i] is Ended);
            assert(is_closing(replies.drop_last()[i]));
        }
        if states[n - 1].closed {
            let i = choose|i: int| 0 <= i < n - 1 && is_closing(#[trigger] replies.drop_last()[i]);
            assert(is_closing(replies[i]));
        }
    }
}

proof fn batch_run_closed(
    pcm: Seq<u8>,
    replies: Seq<ServerReply>,
    states: Seq<BatchState>,
    actions: Seq<BatchAction>,
)
    requires
        batch_run(pcm, replies, states, actions),
    ensures
        states.last().closed ==> exists|i: int|
            0 <= i < replies.len() && is_closing(#[trigger] replies[i]),
    decreases replies.len(),
{
    let n = replies.len() as int;
    if n > 0 {
        batch_run_closed(pcm, replies.drop_last(), states.drop_last(), actions.drop_last());
        if states[n - 1].closed {
            let i = choose|i: int| 0 <= i < n - 1 && is_closing(#[trigger] replies.drop_last()[i]);
            assert(is_closing(replies[i]));
        } else if states.last().closed {
            assert(is_closing(replies[n - 1]));
        }
    }
}

/// The packets go out one after another from the first action on: action `k`, where it sends
/// a packet, sends the 6400 bytes after the first `6400 * k`, or what is left of them, under
/// the number `k + 2`, which is negated for the packet that ends the recording.
pub proof fn batch_sends_one_packet_after_another(
    pcm: Seq<u8>,
    replies: Seq<ServerReply>,
    states: Seq<BatchState>,
    actions: Seq<BatchAction>,
)
    requires
        batch_fits(pcm.len()),
        batch_run(pcm, replies, states, actions),
    ensures
        ({
            let k = actions.len() - 1;
            &&& replies.len() == 0 ==> if pcm.len() > 0 {
                actions[0] is Send
            } else {
                actions[0] is ReadTail
            }
            &&& actions[k] matches BatchAction::Send(packet) ==> {
                &&& 6400 * k < pcm.len()
                &&& packet_audio(packet) == if 6400 * k + 6400 < pcm.len() {
                    pcm.subrange(6400 * k, 6400 * k + 6400)
                } else {
                    pcm.skip(6400 * k)
                }
                &&& packet.seq == if 6400 * k + 6400 < pcm.len() {
                    k + 2
                } else {
                    -(k + 2)
                }
            }
        }),
{
    let k = actions.len() - 1;
    packet_arithmetic(pcm.len());
    batch_run_state(pcm, replies, states, actions);
    if let BatchAction::Send(packet) = actions[k] {
        assert(hands_out(pcm, k, actions[k]));
        assert(segment(pcm, k) =~= if 6400 * k + 6400 < pcm.len() {
            pcm.subrange(6400 * k, 6400 * k + 6400)
        } else {
            pcm.skip(6400 * k)
        });
    }
}

/// A recording can be sent if and only if its packets, counted from 2 on, have numbers that
/// can be written.
pub proof fn short_recordings_fit(pcm_len: nat)
    ensures
        batch_fits(pcm_len) <==> (pcm_len + 6399) / 6400 <= 0x7fff_fffe,
{
    packet_arithmetic(pcm_len);
}

} // verus!
