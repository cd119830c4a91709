//! Request frames: `[header 4][sequence 4][payload size 4][gzip payload]`.
//!
//! The first frame carries the JSON configuration, the others carry PCM audio.

use crate::cloud_asr::doubao::protocol::{
    encode_header, gzip_compress, push_be32, push_be_i32, GzipError, CLIENT_AUDIO_ONLY_REQUEST,
    CLIENT_FULL_REQUEST, COMPRESSION_GZIP, NEG_WITH_SEQUENCE, POS_SEQUENCE, SERIALIZATION_JSON,
    SERIALIZATION_NONE,
};
#[allow(unused_imports)]
use crate::cloud_asr::doubao::protocol::{
    be32, be32_at, be32_is_big_endian, be32_round_trip, be_i32_at, be_i32_round_trip, gunzip, gzipped,
    header_bytes, nibbles, nibbles_round_trip, twos_complement, HEADER_SIZE_VALUE, PROTOCOL_VERSION,
};
#[allow(unused_imports)]
use crate::text::opt_text;
use vstd::prelude::*;

verus! {

/// Who sends the request; the service uses it to filter its logs.
#[derive(Debug, Clone, Default)]
pub struct UserMeta {
    pub uid: Option<String>,
}

/// The audio format: 16 kHz, 16 bit, one channel, raw PCM.
#[derive(Debug, Clone)]
pub struct AudioMeta {
    pub format: &'static str,
    pub codec: &'static str,
    pub rate: u32,
    pub bits: u32,
    pub channel: u32,
    /// A BCP-47 language tag; without one the service tells the language itself.
    pub language: Option<String>,
}

/// Switches of the recogniser.
#[derive(Debug, Clone)]
pub struct RequestMeta {
    pub model_name: &'static str,
    pub enable_itn: bool,
    pub enable_punc: bool,
    pub enable_ddc: bool,
    pub show_utterances: bool,
}

/// The configuration that the first frame carries as JSON.
#[derive(Debug, Clone)]
pub struct AsrRequestPayload {
    pub user: UserMeta,
    pub audio: AudioMeta,
    pub request: RequestMeta,
}

impl AsrRequestPayload {
    /// The default configuration: number and punctuation restoring on, sentence details
    /// off.
    pub open spec fn is_handy_default(self, language: Option<Seq<char>>) -> bool {
        &&& opt_text(self.user.uid) == Some("handy"@)
        &&& self.audio.format@ == "pcm"@
        &&& self.audio.codec@ == "raw"@
        &&& self.audio.rate == 16000
        &&& self.audio.bits == 16
        &&& self.audio.channel == 1
        &&& opt_text(self.audio.language) == language
        &&& self.request.model_name@ == "bigmodel"@
        &&& self.request.enable_itn
        &&& self.request.enable_punc
        &&& !self.request.enable_ddc
        &&& !self.request.show_utterances
    }

    /// Makes the default configuration for a language.
    pub fn handy_default(language: Option<String>) -> (r: Self)
        ensures
            r.is_handy_default(opt_text(language)),
    {
        AsrRequestPayload {
            user: UserMeta { uid: Some("handy".to_owned()) },
            audio: AudioMeta {
                format: "pcm",
                codec: "raw",
                rate: 16000,
                bits: 16,
                channel: 1,
                language,
            },
            request: RequestMeta {
                model_name: "bigmodel",
                enable_itn: true,
                enable_punc: true,
                enable_ddc: false,
                show_utterances: false,
            },
        }
    }
}

/// Why a request frame could not be built.
#[derive(Debug)]
pub enum RequestError {
    /// The configuration could not be written as JSON.
    Encode(String),
    Gzip(GzipError),
}

impl RequestError {
    /// The text of the error.
    pub open spec fn text(self) -> Seq<char> {
        match self {
            RequestError::Encode(e) => e@,
            RequestError::Gzip(e) => e.text(),
        }
    }

    /// The error as a message.
    pub fn message(&self) -> (r: String)
        ensures
            r@ == self.text(),
    {
        match self {
            RequestError::Encode(e) => e.clone(),
            RequestError::Gzip(e) => e.message(),
        }
    }
}

/// The bytes of a request frame. The size field holds the payload's length modulo 2^32.
pub open spec fn frame_bytes(header: Seq<u8>, seq: i32, payload: Seq<u8>) -> Seq<u8> {
    header + be32(twos_complement(seq)) + be32(payload.len() % 0x1_0000_0000) + payload
}

/// Puts a header, a sequence number and a payload together.
pub fn assemble_frame(header: [u8; 4], seq: i32, payload: &[u8]) -> (r: Vec<u8>)
    ensures
        r@ == frame_bytes(header@, seq, payload@),
{
    let mut buf: Vec<u8> = Vec::new();
    buf.push(header[0]);
    buf.push(header[1]);
    buf.push(header[2]);
    buf.push(header[3]);
    assert(buf@ =~= header@);
    push_be_i32(&mut buf, seq);
    push_be32(&mut buf, (payload.len() as u64 % 0x1_0000_0000) as u32);
    let ghost before = buf@;
    buf.extend_from_slice(payload);
    assert(buf@ =~= before + payload@);
    buf
}

/// Whether `frame` has the given header and sequence number and carries `content`
/// compressed.
pub open spec fn carries(frame: Seq<u8>, header: Seq<u8>, seq: i32, content: Seq<u8>) -> bool {
    &&& frame.len() >= 12
    &&& frame == frame_bytes(header, seq, frame.skip(12))
    &&& gunzip(frame.skip(12)) == Ok::<Seq<u8>, Seq<char>>(content)
}

/// The header of the configuration frame.
pub open spec fn full_request_header() -> Seq<u8> {
    header_bytes(CLIENT_FULL_REQUEST, POS_SEQUENCE, SERIALIZATION_JSON, COMPRESSION_GZIP)
}

/// The header of an audio frame; a negative sequence number marks the last one.
pub open spec fn audio_request_header(seq: i32) -> Seq<u8> {
    header_bytes(
        CLIENT_AUDIO_ONLY_REQUEST,
        if seq < 0 {
            NEG_WITH_SEQUENCE
        } else {
            POS_SEQUENCE
        },
        SERIALIZATION_NONE,
        COMPRESSION_GZIP,
    )
}

/// Makes a frame out of what compressing its content gave; an error is passed on.
pub fn finish_frame(
    header: [u8; 4],
    seq: i32,
    compressed: Result<Vec<u8>, GzipError>,
) -> (r: Result<Vec<u8>, GzipError>)
    ensures
        match compressed {
            Ok(payload) => r is Ok && r->Ok_0@ == frame_bytes(header@, seq, payload@),
            Err(e) => r == Err::<Vec<u8>, _>(e),
        },
{
    match compressed {
        Ok(payload) => Ok(assemble_frame(header, seq, payload.as_slice())),
        Err(e) => Err(e),
    }
}

/// The bytes of the request frame with the given header, sequence number and content.
pub open spec fn request_frame(header: Seq<u8>, seq: i32, content: Seq<u8>) -> Seq<u8> {
    frame_bytes(header, seq, gzipped(content))
}

/// Whether the size field of a request frame holds the length of what follows it.
pub open spec fn declares_its_size(frame: Seq<u8>) -> bool {
    be32_at(frame, 8) == frame.len() - 12
}

fn compress_frame(header: [u8; 4], seq: i32, content: &[u8]) -> (r: Result<Vec<u8>, GzipError>)
    ensures
        r is Ok,
        r->Ok_0@ == request_frame(header@, seq, content@),
        carries(r->Ok_0@, header@, seq, content@),
        content@.len() < 0x4000_0000 ==> declares_its_size(r->Ok_0@),
{
    let compressed = gzip_compress(content);
    let ghost seen = compressed;
    let r = finish_frame(header, seq, compressed);
    proof {
        let frame = r->Ok_0@;
        assert(frame.skip(12) =~= seen->Ok_0@);
        let size = frame.skip(12).len() % 0x1_0000_0000;
        assert(frame.subrange(8, 12) =~= be32(size));
        be32_round_trip(size, frame, 8);
    }
    r
}

/// Builds the configuration frame, sequence number 1, out of the configuration's JSON.
pub fn frame_full_client_request(json: &[u8]) -> (r: Result<Vec<u8>, GzipError>)
    ensures
        r is Ok,
        r->Ok_0@ == request_frame(full_request_header(), 1, json@),
        carries(r->Ok_0@, full_request_header(), 1, json@),
        json@.len() < 0x4000_0000 ==> declares_its_size(r->Ok_0@),
{
    let header = encode_header(
        CLIENT_FULL_REQUEST,
        POS_SEQUENCE,
        SERIALIZATION_JSON,
        COMPRESSION_GZIP,
    );
    compress_frame(header, 1, json)
}

/// Whether `r` is the configuration frame for what writing the configuration as JSON gave:
/// the frame that carries the JSON, or the writer's error.
pub open spec fn configuration_frame(
    json: Result<Vec<u8>, String>,
    r: Result<Vec<u8>, RequestError>,
) -> bool {
    match json {
        Ok(json) => {
            &&& r is Ok
            &&& r->Ok_0@ == request_frame(full_request_header(), 1, json@)
            &&& carries(r->Ok_0@, full_request_header(), 1, json@)
            &&& json@.len() < 0x4000_0000 ==> declares_its_size(r->Ok_0@)
        },
        Err(e) => r == Err::<Vec<u8>, RequestError>(RequestError::Encode(e)),
    }
}

/// Builds the configuration frame for a language; `encode` writes the configuration as
/// JSON. What it is handed is the default configuration, and its error is passed on.
pub fn build_full_client_request<F: Fn(&AsrRequestPayload) -> Result<Vec<u8>, String>>(
    language: Option<String>,
    encode: F,
) -> (r: Result<Vec<u8>, RequestError>)
    requires
        forall|p: &AsrRequestPayload| #[trigger] call_requires(encode, (p,)),
    ensures
        exists|p: AsrRequestPayload, json: Result<Vec<u8>, String>|
            {
                &&& p.is_handy_default(opt_text(language))
                &&& #[trigger] call_ensures(encode, (&p,), json)
                &&& configuration_frame(json, r)
            },
{
    let payload = AsrRequestPayload::handy_default(language);
    let json = encode(&payload);
    let ghost seen = json;
    let r = match json {
        Ok(json) => match frame_full_client_request(json.as_slice()) {
            Ok(frame) => Ok(frame),
            Err(e) => Err(RequestError::Gzip(e)),
        },
        Err(e) => Err(RequestError::Encode(e)),
    };
    assert(call_ensures(encode, (&payload,), seen));
    r
}

/// Builds an audio frame: a positive `seq` for a frame that others follow, a negative
/// one for the last frame.
pub fn build_audio_only_request(seq: i32, segment: &[u8]) -> (r: Result<Vec<u8>, GzipError>)
    ensures
        r is Ok,
        r->Ok_0@ == request_frame(audio_request_header(seq), seq, segment@),
        carries(r->Ok_0@, audio_request_header(seq), seq, segment@),
        segment@.len() < 0x4000_0000 ==> declares_its_size(r->Ok_0@),
{
    let flags: u8 = if seq < 0 {
        NEG_WITH_SEQUENCE
    } else {
        POS_SEQUENCE
    };
    let header = encode_header(
        CLIENT_AUDIO_ONLY_REQUEST,
        flags,
        SERIALIZATION_NONE,
        COMPRESSION_GZIP,
    );
    compress_frame(header, seq, segment)
}

/// A receiver reads out of a request frame what was put into it: the header's fields,
/// the sequence number, the payload's size and, decompressed, the content.
pub proof fn request_frame_reads_back(
    frame: Seq<u8>,
    message_type: u8,
    flags: u8,
    serialization: u8,
    compression: u8,
    seq: i32,
    content: Seq<u8>,
)
    requires
        message_type < 16,
        flags < 16,
        serialization < 16,
        compression < 16,
        frame.skip(12).len() < 0x1_0000_0000,
        carries(
            frame,
            header_bytes(message_type, flags, serialization, compression),
            seq,
            content,
        ),
    ensures
        frame[0] / 16 == PROTOCOL_VERSION,
        frame[0] % 16 == HEADER_SIZE_VALUE,
        frame[1] / 16 == message_type,
        frame[1] % 16 == flags,
        frame[2] / 16 == serialization,
        frame[2] % 16 == compression,
        frame[3] == 0,
        be_i32_at(frame, 4) == seq,
        be32_at(frame, 8) == frame.len() - 12,
        gunzip(frame.skip(12)) == Ok::<Seq<u8>, Seq<char>>(content),
{
    let header = header_bytes(message_type, flags, serialization, compression);
    assert(frame.take(4) =~= header);
    assert(frame.take(4)[0] == header[0] && frame.take(4)[1] == header[1] && frame.take(4)[2]
        == header[2] && frame.take(4)[3] == header[3]);
    nibbles_round_trip(PROTOCOL_VERSION, HEADER_SIZE_VALUE);
    nibbles_round_trip(message_type, flags);
    nibbles_round_trip(serialization, compression);
    assert(frame.subrange(4, 8) =~= be32(twos_complement(seq)));
    be_i32_round_trip(seq, frame, 4);
    let size = frame.skip(12).len() % 0x1_0000_0000;
    assert(frame.subrange(8, 12) =~= be32(size));
    be32_round_trip(size, frame, 8);
}

/// A 16 bit sample as two bytes, the less significant first.
pub open spec fn sample_byte(sample: i16, high: bool) -> u8 {
    let n: int = if sample < 0 {
        sample + 0x1_0000
    } else {
        sample as int
    };
    if high {
        (n / 0x100) as u8
    } else {
        (n % 0x100) as u8
    }
}

/// The samples as `pcm_s16le` bytes.
pub open spec fn pcm_bytes(samples: Seq<i16>) -> Seq<u8> {
    Seq::new(samples.len() * 2, |i: int| sample_byte(samples[i / 2], i % 2 == 1))
}

/// Writes 16 bit samples as `pcm_s16le` bytes.
pub fn i16_samples_to_pcm_s16le(samples: &[i16]) -> (r: Vec<u8>)
    ensures
        r@ == pcm_bytes(samples@),
{
    let mut out: Vec<u8> = Vec::new();
    let mut i: usize = 0;
    while i < samples.len()
        invariant
            i <= samples.len(),
            out@ == pcm_bytes(samples@.take(i as int)),
        decreases samples.len() - i,
    {
        let s: i16 = samples[i];
        let n: u16 = s as u16;
        assert(n as int == (if s < 0 {
            s + 0x1_0000
        } else {
            s as int
        })) by (bit_vector)
            requires
                n == s as u16,
        ;
        out.push((n % 0x100) as u8);
        out.push((n / 0x100) as u8);
        proof {
            let next = pcm_bytes(samples@.take(i + 1));
            assert forall|j: int| 0 <= j < next.len() implies next[j] == out@[j] by {
                if j < 2 * i {
                    assert(samples@.take(i + 1)[j / 2] == samples@.take(i as int)[j / 2]);
                    assert(pcm_bytes(samples@.take(i as int))[j] == next[j]);
                }
            }
            assert(out@ =~= next);
        }
        i = i + 1;
    }
    assert(samples@.take(i as int) =~= samples@);
    out
}

/// Audio converted piece by piece is the audio converted as a whole.
pub proof fn pcm_bytes_of_pieces(a: Seq<i16>, b: Seq<i16>)
    ensures
        pcm_bytes(a + b) == pcm_bytes(a) + pcm_bytes(b),
{
    let whole = pcm_bytes(a + b);
    let pieces = pcm_bytes(a) + pcm_bytes(b);
    assert forall|i: int| 0 <= i < whole.len() implies whole[i] == pieces[i] by {
        if i >= 2 * a.len() {
            assert((a + b)[i / 2] == b[(i - 2 * a.len()) / 2]);
        }
    }
    assert(whole =~= pieces);
}

/// The default configuration is that of raw mono PCM with 16 bit samples, 16000 a second,
/// sent by `handy` to the big model, with numbers and punctuation restored; whatever the
/// language, it is handed on as it is, and none where there is none.
pub proof fn default_configuration_keeps_the_language(
    p: AsrRequestPayload,
    language: Option<String>,
)
    requires
        p.is_handy_default(opt_text(language)),
    ensures
        match language {
            Some(language) => p.audio.language matches Some(l) && l@ == language@,
            None => p.audio.language is None,
        },
        p.audio.rate == 16000 && p.audio.bits == 16 && p.audio.channel == 1,
        p.audio.format@ == "pcm"@ && p.audio.codec@ == "raw"@,
        p.user.uid matches Some(uid) && uid@ == "handy"@,
        p.request.model_name@ == "bigmodel"@,
        p.request.enable_itn && p.request.enable_punc,
        !p.request.enable_ddc && !p.request.show_utterances,
{
}

/// An audio frame says by its type that it carries audio, by its flags that a sequence number
/// follows and whether it is the last frame, which it is just where the number is negative,
/// and that its content is plain bytes, compressed.
pub proof fn audio_frames_mark_the_last(frame: Seq<u8>, seq: i32, content: Seq<u8>)
    requires
        carries(frame, audio_request_header(seq), seq, content),
    ensures
        frame[0] == 0x11,
        frame[1] == if seq < 0 {
            0x23u8
        } else {
            0x21u8
        },
        frame[2] == 0x01,
        frame[3] == 0,
        0x100_0000 * frame[4] + 0x1_0000 * frame[5] + 0x100 * frame[6] + frame[7] == if seq < 0 {
            0x1_0000_0000 + seq
        } else {
            seq as int
        },
        0x100_0000 * frame[8] + 0x1_0000 * frame[9] + 0x100 * frame[10] + frame[11] == (frame.len()
            - 12) % 0x1_0000_0000,
        gunzip(frame.skip(12)) == Ok::<Seq<u8>, Seq<char>>(content),
{
    frame_bytes_stand_in_place(frame, audio_request_header(seq), seq);
}

/// The configuration frame is marked as such and as compressed JSON, has the number 1 and is
/// never marked as the last.
pub proof fn configuration_frames_come_first(frame: Seq<u8>, json: Seq<u8>)
    requires
        carries(frame, full_request_header(), 1, json),
    ensures
        frame[0] == 0x11,
        frame[1] == 0x11,
        frame[2] == 0x11,
        frame[3] == 0,
        frame[4] == 0 && frame[5] == 0 && frame[6] == 0 && frame[7] == 1,
        0x100_0000 * frame[8] + 0x1_0000 * frame[9] + 0x100 * frame[10] + frame[11] == (frame.len()
            - 12) % 0x1_0000_0000,
        gunzip(frame.skip(12)) == Ok::<Seq<u8>, Seq<char>>(json),
{
    frame_bytes_stand_in_place(frame, full_request_header(), 1);
}

proof fn frame_bytes_stand_in_place(frame: Seq<u8>, header: Seq<u8>, seq: i32)
    requires
        header.len() == 4,
        frame.len() >= 12,
        frame == frame_bytes(header, seq, frame.skip(12)),
    ensures
        frame[0] == header[0],
        frame[1] == header[1],
        frame[2] == header[2],
        frame[3] == header[3],
        0x100_0000 * frame[4] + 0x1_0000 * frame[5] + 0x100 * frame[6] + frame[7]
            == twos_complement(seq),
        0x100_0000 * frame[8] + 0x1_0000 * frame[9] + 0x100 * frame[10] + frame[11] == (frame.len()
            - 12) % 0x1_0000_0000,
{
    let size = frame.skip(12).len() % 0x1_0000_0000;
    let number = be32(twos_complement(seq));
    let declared = be32(size);
    assert(frame.skip(12).len() == frame.len() - 12);
    assert(frame.take(4) =~= header);
    assert(frame.subrange(4, 8) =~= number);
    assert(frame.subrange(8, 12) =~= declared);
    assert(frame[0] == frame.take(4)[0] && frame[1] == frame.take(4)[1]);
    assert(frame[2] == frame.take(4)[2] && frame[3] == frame.take(4)[3]);
    assert(frame[4] == frame.subrange(4, 8)[0] && frame[5] == frame.subrange(4, 8)[1]);
    assert(frame[6] == frame.subrange(4, 8)[2] && frame[7] == frame.subrange(4, 8)[3]);
    assert(frame[8] == frame.subrange(8, 12)[0] && frame[9] == frame.subrange(8, 12)[1]);
    assert(frame[10] == frame.subrange(8, 12)[2] && frame[11] == frame.subrange(8, 12)[3]);
    be32_is_big_endian(size);
    be32_is_big_endian(twos_complement(seq));
}

/// What a session opens with is the JSON of the configuration in a configuration frame, or
/// the error of writing it; nothing else fails.
pub proof fn the_configuration_is_sent_as_it_was_written(
    json: Result<Vec<u8>, String>,
    r: Result<Vec<u8>, RequestError>,
)
    requires
        configuration_frame(json, r),
    ensures
        r is Ok <==> json is Ok,
        json matches Ok(json) ==> (r matches Ok(frame) && frame@.len() >= 12 && frame@[1] == 0x11
            && gunzip(frame@.skip(12)) == Ok::<Seq<u8>, Seq<char>>(json@)),
        json matches Err(e) ==> (r matches Err(RequestError::Encode(told)) && told == e),
{
    if let Ok(json) = json {
        configuration_frames_come_first(r->Ok_0@, json@);
    }
}

/// Each sample takes two bytes, the less significant first: together they are the sample, or
/// for a negative one the sample and 2^16.
pub proof fn samples_are_little_endian(samples: Seq<i16>, i: int)
    requires
        0 <= i < samples.len(),
    ensures
        pcm_bytes(samples).len() == 2 * samples.len(),
        pcm_bytes(samples)[2 * i] + 0x100 * pcm_bytes(samples)[2 * i + 1] == if samples[i] < 0 {
            0x1_0000 + samples[i]
        } else {
            samples[i] as int
        },
{
    assert((2 * i) / 2 == i && (2 * i + 1) / 2 == i);
}

} // verus!
