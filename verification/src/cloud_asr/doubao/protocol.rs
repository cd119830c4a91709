//! The binary frame protocol: header, big-endian fields, gzip.
//!
//! Every frame starts with a four byte header:
//!
//! ```text
//! byte 0:  protocol version (4) | header size in words (4)
//! byte 1:  message type (4)     | message type flags (4)
//! byte 2:  serialization (4)    | compression (4)
//! byte 3:  reserved, zero
//! ```

use flate2::read::GzDecoder;
use flate2::write::GzEncoder;
use flate2::Compression;
use std::io::{Read, Write};
use vstd::prelude::*;

verus! {

pub const PROTOCOL_VERSION: u8 = 0b0001;

/// Header size in words of four bytes.
pub const HEADER_SIZE_VALUE: u8 = 0b0001;

pub const CLIENT_FULL_REQUEST: u8 = 0b0001;

pub const CLIENT_AUDIO_ONLY_REQUEST: u8 = 0b0010;

pub const SERVER_FULL_RESPONSE: u8 = 0b1001;

pub const SERVER_ERROR_RESPONSE: u8 = 0b1111;

pub const NO_SEQUENCE: u8 = 0b0000;

pub const POS_SEQUENCE: u8 = 0b0001;

pub const NEG_SEQUENCE: u8 = 0b0010;

pub const NEG_WITH_SEQUENCE: u8 = 0b0011;

pub const SERIALIZATION_NONE: u8 = 0b0000;

pub const SERIALIZATION_JSON: u8 = 0b0001;

pub const COMPRESSION_NONE: u8 = 0b0000;

pub const COMPRESSION_GZIP: u8 = 0b0001;

/// One byte made of two four bit fields; higher bits of either are dropped.
pub open spec fn nibbles(high: u8, low: u8) -> u8 {
    ((high % 16) * 16 + low % 16) as u8
}

/// The header of a frame.
pub open spec fn header_bytes(
    message_type: u8,
    flags: u8,
    serialization: u8,
    compression: u8,
) -> Seq<u8> {
    seq![
        nibbles(PROTOCOL_VERSION, HEADER_SIZE_VALUE),
        nibbles(message_type, flags),
        nibbles(serialization, compression),
        0u8,
    ]
}

fn pack(high: u8, low: u8) -> (r: u8)
    ensures
        r == nibbles(high, low),
{
    assert(((high << 4) | (low & 0x0f)) == ((high % 16) * 16 + low % 16)) by (bit_vector);
    (high << 4) | (low & 0x0f)
}

/// The two fields of a byte that [`nibbles`] packs.
pub(crate) fn unpack(b: u8) -> (r: (u8, u8))
    ensures
        r.0 == b / 16,
        r.1 == b % 16,
{
    assert((b >> 4) == b / 16) by (bit_vector);
    assert((b & 0x0f) == b % 16) by (bit_vector);
    (b >> 4, b & 0x0f)
}

/// Encodes the four byte header. Only the low four bits of each field are kept.
pub fn encode_header(message_type: u8, flags: u8, serialization: u8, compression: u8) -> (r: [u8;
    4])
    ensures
        r@ == header_bytes(message_type, flags, serialization, compression),
{
    let r = [
        pack(PROTOCOL_VERSION, HEADER_SIZE_VALUE),
        pack(message_type, flags),
        pack(serialization, compression),
        0x00,
    ];
    assert(r@ =~= header_bytes(message_type, flags, serialization, compression));
    r
}

/// Fields of at most four bits come back from the byte that they were packed in.
pub proof fn nibbles_round_trip(high: u8, low: u8)
    requires
        high < 16,
        low < 16,
    ensures
        nibbles(high, low) / 16 == high,
        nibbles(high, low) % 16 == low,
{
}

/// A natural number below 2^32 as four bytes, the most significant first.
pub open spec fn be32(n: nat) -> Seq<u8> {
    seq![
        ((n / 0x100_0000) % 0x100) as u8,
        ((n / 0x1_0000) % 0x100) as u8,
        ((n / 0x100) % 0x100) as u8,
        (n % 0x100) as u8,
    ]
}

/// The number that the four bytes at `at` stand for, the most significant first.
pub open spec fn be32_at(s: Seq<u8>, at: int) -> nat {
    (s[at] * 0x100_0000 + s[at + 1] * 0x1_0000 + s[at + 2] * 0x100 + s[at + 3]) as nat
}

/// A signed 32 bit integer as a natural number, in two's complement.
pub open spec fn twos_complement(n: i32) -> nat {
    if n < 0 {
        (n + 0x1_0000_0000) as nat
    } else {
        n as nat
    }
}

/// The signed integer at `at`, in two's complement.
pub open spec fn be_i32_at(s: Seq<u8>, at: int) -> int {
    if be32_at(s, at) < 0x8000_0000 {
        be32_at(s, at) as int
    } else {
        be32_at(s, at) - 0x1_0000_0000
    }
}

/// Reading four bytes gives the number that they were written for.
pub proof fn be32_round_trip(n: nat, s: Seq<u8>, at: int)
    requires
        n < 0x1_0000_0000,
        0 <= at,
        at + 4 <= s.len(),
        s.subrange(at, at + 4) == be32(n),
    ensures
        be32_at(s, at) == n,
{
    let b = s.subrange(at, at + 4);
    assert(b[0] == s[at] && b[1] == s[at + 1] && b[2] == s[at + 2] && b[3] == s[at + 3]);
}

/// Reading four bytes gives the signed integer that they were written for.
pub proof fn be_i32_round_trip(n: i32, s: Seq<u8>, at: int)
    requires
        0 <= at,
        at + 4 <= s.len(),
        s.subrange(at, at + 4) == be32(twos_complement(n)),
    ensures
        be_i32_at(s, at) == n,
{
    be32_round_trip(twos_complement(n), s, at);
}

/// Appends an unsigned 32 bit integer, the most significant byte first.
pub(crate) fn push_be32(buf: &mut Vec<u8>, n: u32)
    ensures
        final(buf)@ == old(buf)@ + be32(n as nat),
{
    buf.push(((n / 0x100_0000) % 0x100) as u8);
    buf.push(((n / 0x1_0000) % 0x100) as u8);
    buf.push(((n / 0x100) % 0x100) as u8);
    buf.push((n % 0x100) as u8);
    assert(buf@ =~= old(buf)@ + be32(n as nat));
}

/// Appends a signed 32 bit integer in two's complement.
pub(crate) fn push_be_i32(buf: &mut Vec<u8>, n: i32)
    ensures
        final(buf)@ == old(buf)@ + be32(twos_complement(n)),
{
    assert((n as u32) as int == (if n < 0 {
        n + 0x1_0000_0000
    } else {
        n as int
    })) by (bit_vector);
    push_be32(buf, n as u32);
}

/// Reads an unsigned 32 bit integer.
pub(crate) fn read_be32(s: &[u8], at: usize) -> (r: u32)
    requires
        at + 4 <= s@.len(),
    ensures
        r == be32_at(s@, at as int),
{
    s[at] as u32 * 0x100_0000 + s[at + 1] as u32 * 0x1_0000 + s[at + 2] as u32 * 0x100 + s[at
        + 3] as u32
}

/// Reads a signed 32 bit integer in two's complement.
pub(crate) fn read_be_i32(s: &[u8], at: usize) -> (r: i32)
    requires
        at + 4 <= s@.len(),
    ensures
        r == be_i32_at(s@, at as int),
{
    let n: u32 = read_be32(s, at);
    assert((n as i32) as int == (if n < 0x8000_0000 {
        n as int
    } else {
        n - 0x1_0000_0000
    })) by (bit_vector);
    n as i32
}

/// Why gzip data could not be written or read.
#[derive(Debug)]
pub enum GzipError {
    Write(String),
    Finish(String),
    Decompress(String),
}

impl GzipError {
    /// The text of the error.
    pub open spec fn text(self) -> Seq<char> {
        match self {
            GzipError::Write(e) => "gzip write failed: "@ + e@,
            GzipError::Finish(e) => "gzip finish failed: "@ + e@,
            GzipError::Decompress(e) => "gzip decompress failed: "@ + e@,
        }
    }

    /// The error as a message.
    pub fn message(&self) -> (r: String)
        ensures
            r@ == self.text(),
    {
        match self {
            GzipError::Write(e) => "gzip write failed: ".to_owned().concat(e.as_str()),
            GzipError::Finish(e) => "gzip finish failed: ".to_owned().concat(e.as_str()),
            GzipError::Decompress(e) => "gzip decompress failed: ".to_owned().concat(e.as_str()),
        }
    }
}

/// What the gzip decoder makes of `data`: the bytes of its first member, or the text
/// of the decoder's error.
pub uninterp spec fn gunzip(data: Seq<u8>) -> Result<Seq<u8>, Seq<char>>;

/// What the gzip encoder makes of `data` at the default level.
pub uninterp spec fn gzipped(data: Seq<u8>) -> Seq<u8>;

/// Compresses bytes with gzip at the default level, by `flate2::write::GzEncoder` over
/// a vector. Claimed of it: it does not fail, since a vector takes every write and the
/// encoder fails only on misuse; the compressed bytes are a function of the input alone
/// (the header has no time and no system in it, and the deflate implementation that
/// `flate2` is built with here is plain Rust) and carry the name [`gzipped`]; they hold at
/// least the header of ten bytes and the trailer of eight, and at most a loose bound (a
/// byte takes at most two, as a literal of fifteen bits or in a match, and a block of about
/// 31 KiB or the last one at most some six hundred more for its tables); and the decoder
/// reads the input back from them.
#[verifier::external_body]
pub fn gzip_compress(input: &[u8]) -> (r: Result<Vec<u8>, GzipError>)
    ensures
        match r {
            Ok(c) => {
                &&& c@ == gzipped(input@)
                &&& 18 <= c@.len() <= 3 * input@.len() + 4096
                &&& gunzip(c@) == Ok::<Seq<u8>, Seq<char>>(input@)
            },
            Err(_) => false,
        },
{
    let mut encoder = GzEncoder::new(Vec::new(), Compression::default());
    encoder.write_all(input).map_err(|e| GzipError::Write(e.to_string()))?;
    encoder.finish().map_err(|e| GzipError::Finish(e.to_string()))
}

/// Decompresses gzip data, by reading `flate2::read::GzDecoder` over the slice to its
/// end. The outcome, the text of an error included, is a function of the bytes alone
/// and carries the name [`gunzip`].
#[verifier::external_body]
pub fn gzip_decompress(input: &[u8]) -> (r: Result<Vec<u8>, GzipError>)
    ensures
        match r {
            Ok(out) => gunzip(input@) == Ok::<Seq<u8>, Seq<char>>(out@),
            Err(e) => e is Decompress && gunzip(input@) == Err::<Seq<u8>, Seq<char>>(
                e->Decompress_0@,
            ),
        },
{
    let mut decoder = GzDecoder::new(input);
    let mut out = Vec::new();
    decoder.read_to_end(&mut out).map_err(|e| GzipError::Decompress(e.to_string()))?;
    Ok(out)
}

/// The four bytes of a number are its digits to the base 256, the most significant first.
pub proof fn be32_is_big_endian(n: nat)
    requires
        n < 0x1_0000_0000,
    ensures
        be32(n).len() == 4,
        0x100_0000 * be32(n)[0] + 0x1_0000 * be32(n)[1] + 0x100 * be32(n)[2] + be32(n)[3] == n,
{
}

/// Four bytes are read as digits to the base 256, the most significant first, wherever they
/// stand.
pub proof fn be32_is_read_big_endian(before: Seq<u8>, a: u8, b: u8, c: u8, d: u8, after: Seq<u8>)
    ensures
        be32_at(before + seq![a, b, c, d] + after, before.len() as int) == 0x100_0000 * a
            + 0x1_0000 * b + 0x100 * c + d,
{
    let s = before + seq![a, b, c, d] + after;
    let at = before.len() as int;
    assert(s[at] == a && s[at + 1] == b && s[at + 2] == c && s[at + 3] == d);
}

/// A signed integer and what stands for it differ by nothing, or for a negative one by 2^32;
/// what stands for it is always below 2^32.
pub proof fn twos_complement_is_congruent(n: i32)
    ensures
        twos_complement(n) < 0x1_0000_0000,
        n >= 0 ==> twos_complement(n) == n,
        n < 0 ==> twos_complement(n) == 0x1_0000_0000 + n,
        n < 0 <==> twos_complement(n) >= 0x8000_0000,
{
}

/// A byte of two fields keeps the low four bits of each, the first field above the second.
pub proof fn nibbles_keep_the_low_bits(high: u8, low: u8)
    ensures
        nibbles(high, low) == 16 * (high % 16) + low % 16,
        nibbles(high, low) == nibbles((high % 16) as u8, (low % 16) as u8),
{
}

/// The numbers that the protocol gives its fields: version 1, a header of one word, two types
/// of requests and two of responses; the lower flag says that a sequence number follows, the
/// higher that the frame is the last.
pub proof fn protocol_numbers()
    ensures
        PROTOCOL_VERSION == 1,
        HEADER_SIZE_VALUE == 1,
        CLIENT_FULL_REQUEST == 1,
        CLIENT_AUDIO_ONLY_REQUEST == 2,
        SERVER_FULL_RESPONSE == 9,
        SERVER_ERROR_RESPONSE == 15,
        NO_SEQUENCE == 0,
        POS_SEQUENCE == 1,
        NEG_SEQUENCE == 2,
        NEG_WITH_SEQUENCE == 3,
        SERIALIZATION_NONE == 0,
        SERIALIZATION_JSON == 1,
        COMPRESSION_NONE == 0,
        COMPRESSION_GZIP == 1,
{
}

/// A header is four bytes: the version and the header's size, the type and the flags, the
/// serialization and the compression, two to a byte, and a zero.
pub proof fn headers_hold_their_fields(
    message_type: u8,
    flags: u8,
    serialization: u8,
    compression: u8,
)
    requires
        message_type < 16,
        flags < 16,
        serialization < 16,
        compression < 16,
    ensures
        header_bytes(message_type, flags, serialization, compression).len() == 4,
        header_bytes(message_type, flags, serialization, compression)[0] == 0x11,
        header_bytes(message_type, flags, serialization, compression)[1] == 16 * message_type
            + flags,
        header_bytes(message_type, flags, serialization, compression)[2] == 16 * serialization
            + compression,
        header_bytes(message_type, flags, serialization, compression)[3] == 0,
{
}

/// What gzip itself says of a failure is what the error ends in.
pub proof fn gzip_errors_tell_their_cause(e: GzipError)
    ensures
        match e {
            GzipError::Write(cause) => crate::text::ends_in(e.text(), cause@),
            GzipError::Finish(cause) => crate::text::ends_in(e.text(), cause@),
            GzipError::Decompress(cause) => crate::text::ends_in(e.text(), cause@),
        },
{
    match e {
        GzipError::Write(cause) => crate::text::appended_texts_are_ends(
            "gzip write failed: "@,
            cause@,
        ),
        GzipError::Finish(cause) => crate::text::appended_texts_are_ends(
            "gzip finish failed: "@,
            cause@,
        ),
        GzipError::Decompress(cause) => crate::text::appended_texts_are_ends(
            "gzip decompress failed: "@,
            cause@,
        ),
    }
}

} // verus!
