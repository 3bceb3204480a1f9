//! Decoding of raw response buffers.
//!
//! A native call fills a pre-zeroed buffer with a null-terminated string in a
//! legacy double-byte encoding. On success the string is a small JSON
//! envelope around the payload; on failure it is plain diagnostic text.

use vstd::prelude::*;

verus! {

/// The parsed representation of a JSON document, carried through unopened.
#[verifier::external_type_specification]
#[verifier::external_body]
pub struct ExJsonValue(serde_json::Value);

/// The reason `serde_json` gives for rejecting a text.
#[verifier::external_type_specification]
#[verifier::external_body]
pub struct ExJsonError(serde_json::Error);

/// The text that `encoding_rs::GBK.decode` yields for `bytes`: the GBK
/// decoding with malformed sequences replaced, or the decoding named by a
/// leading byte-order mark.
pub uninterp spec fn gbk_text(bytes: Seq<u8>) -> Seq<char>;

/// The value that `serde_json::from_str` yields for `text`, or `None` where it
/// rejects the text.
pub uninterp spec fn json_value(text: Seq<char>) -> Option<serde_json::Value>;

/// Longest input handed to the decoder. The decoder sizes its output as a small
/// multiple of the input length and gives up when that does not fit in `usize`.
pub const MAX_DECODE_LEN: usize = usize::MAX / 16;

/// `encoding_rs::Encoding::decode` on the `GBK` encoding. The call decodes the
/// whole input, never fails on malformed sequences, and depends on the bytes
/// alone; the contract names its result. Inputs so long that the size
/// calculation of the output could overflow are left out.
#[verifier::external_body]
fn decode_gbk(bytes: &[u8]) -> (text: String)
    requires
        bytes@.len() <= MAX_DECODE_LEN,
    ensures
        text@ == gbk_text(bytes@),
{
    let (text, _, _) = encoding_rs::GBK.decode(bytes);
    text.into_owned()
}

/// `serde_json::from_str` at type `serde_json::Value`. The call accepts or
/// rejects a text depending on the text alone; the contract names the value it
/// yields and says that it fails exactly where there is none.
#[verifier::external_body]
fn parse_json(text: &str) -> (parsed: Result<serde_json::Value, serde_json::Error>)
    ensures
        parsed is Ok <==> json_value(text@) is Some,
        parsed is Ok ==> json_value(text@) == Some(parsed->Ok_0),
{
    serde_json::from_str(text)
}

/// No byte of `bytes` is zero.
pub open spec fn nul_free(bytes: Seq<u8>) -> bool {
    forall|i: int| 0 <= i < bytes.len() ==> bytes[i] != 0
}

/// Number of bytes before the first zero byte, or the whole length where no
/// byte is zero.
pub open spec fn text_len(bytes: Seq<u8>) -> nat
    decreases bytes.len(),
{
    if bytes.len() == 0 || bytes[0] == 0 {
        0
    } else {
        1 + text_len(bytes.drop_first())
    }
}

/// The meaningful part of a buffer: the bytes up to its first zero byte.
pub open spec fn c_text(buffer: Seq<u8>) -> Seq<u8> {
    buffer.take(text_len(buffer) as int)
}

/// `text_len` ends a zero-free prefix, and is followed by a zero byte or by
/// nothing.
pub proof fn lemma_text_len(bytes: Seq<u8>)
    ensures
        text_len(bytes) <= bytes.len(),
        forall|i: int| 0 <= i < text_len(bytes) ==> bytes[i] != 0,
        text_len(bytes) < bytes.len() ==> bytes[text_len(bytes) as int] == 0,
    decreases bytes.len(),
{
    if bytes.len() == 0 || bytes[0] == 0 {
    } else {
        let rest = bytes.drop_first();
        lemma_text_len(rest);
        assert forall|i: int| 0 <= i < text_len(bytes) implies bytes[i] != 0 by {
            if i > 0 {
                assert(rest[i - 1] == bytes[i]);
            }
        }
    }
}

/// A zero-free prefix that is followed by a zero byte, or by nothing, is the
/// text.
pub proof fn lemma_text_len_unique(bytes: Seq<u8>, n: int)
    requires
        0 <= n <= bytes.len(),
        forall|i: int| 0 <= i < n ==> bytes[i] != 0,
        n < bytes.len() ==> bytes[n] == 0,
    ensures
        text_len(bytes) == n,
{
    lemma_text_len(bytes);
}

/// The bytes of `buffer` up to its first zero byte.
pub fn text_of(buffer: &[u8]) -> (text: &[u8])
    ensures
        text@ == c_text(buffer@),
        text@.len() <= buffer@.len(),
{
    let mut n: usize = 0;
    while n < buffer.len() && buffer[n] != 0
        invariant
            n <= buffer@.len(),
            forall|i: int| 0 <= i < n ==> buffer@[i] != 0,
        decreases buffer@.len() - n,
    {
        n = n + 1;
    }
    proof {
        lemma_text_len_unique(buffer@, n as int);
    }
    &buffer[0..n]
}

/// `{\n\t"data"`: the bytes that open a framed response.
pub const DATA_PREFIX: [u8; 9] = [123, 10, 9, 34, 100, 97, 116, 97, 34];

/// `{\n\t"data" : null\n}\n`: the framed response that carries no payload.
pub const DATA_NULL: [u8; 19] = [
    123, 10, 9, 34, 100, 97, 116, 97, 34, 32, 58, 32, 110, 117, 108, 108, 10, 125, 10,
];

/// Number of bytes a frame puts before its payload: `{\n\t"data" : `.
pub const FRAME_HEAD: usize = 11;

/// Number of bytes a frame puts after its payload: `\n}`.
pub const FRAME_TAIL: usize = 2;

/// What the framing of a response text exposes.
pub ghost enum Framing {
    /// The text is empty or is the canonical null response: there is no value.
    Absent,
    /// The text opens like a frame but is too short to hold head and tail.
    Truncated,
    /// The bytes to decode.
    Payload(Seq<u8>),
}

/// The text carries no value: it is empty, or it is the null response.
pub open spec fn is_absent(text: Seq<u8>) -> bool {
    text.len() == 0 || text == DATA_NULL@
}

/// The text is wrapped in the success frame.
pub open spec fn is_framed(text: Seq<u8>) -> bool {
    text.len() > 10 && text.take(9) == DATA_PREFIX@
}

/// How a response text is framed. A framed text loses its first eleven and its
/// last two bytes; any other text is its own payload.
pub open spec fn framing(text: Seq<u8>) -> Framing {
    if is_absent(text) {
        Framing::Absent
    } else if is_framed(text) {
        if text.len() < FRAME_HEAD + FRAME_TAIL {
            Framing::Truncated
        } else {
            Framing::Payload(text.subrange(FRAME_HEAD as int, text.len() - FRAME_TAIL))
        }
    } else {
        Framing::Payload(text)
    }
}

/// The framing of a response text, as computed.
#[derive(Debug, Clone, Copy, PartialEq, Eq)]
pub enum Frame<'a> {
    Absent,
    Truncated,
    Payload(&'a [u8]),
}

impl<'a> View for Frame<'a> {
    type V = Framing;

    open spec fn view(&self) -> Framing {
        match self {
            Frame::Absent => Framing::Absent,
            Frame::Truncated => Framing::Truncated,
            Frame::Payload(bytes) => Framing::Payload(bytes@),
        }
    }
}

/// Whether `bytes` begins with `prefix`.
fn starts_with(bytes: &[u8], prefix: &[u8]) -> (found: bool)
    ensures
        found <==> prefix@.len() <= bytes@.len() && bytes@.take(prefix@.len() as int) == prefix@,
{
    if bytes.len() < prefix.len() {
        return false;
    }
    let mut i: usize = 0;
    while i < prefix.len()
        invariant
            i <= prefix@.len() <= bytes@.len(),
            forall|k: int| 0 <= k < i ==> bytes@[k] == prefix@[k],
        decreases prefix@.len() - i,
    {
        if bytes[i] != prefix[i] {
            assert(bytes@.take(prefix@.len() as int)[i as int] != prefix@[i as int]);
            return false;
        }
        i = i + 1;
    }
    assert(bytes@.take(prefix@.len() as int) =~= prefix@);
    true
}

/// Classifies a response text by its framing.
pub fn frame<'a>(text: &'a [u8]) -> (found: Frame<'a>)
    ensures
        found@ == framing(text@),
{
    broadcast use vstd::array::group_array_axioms;

    let len = text.len();
    if len == 0 {
        return Frame::Absent;
    }
    let null_response = DATA_NULL.as_slice();
    let prefix = DATA_PREFIX.as_slice();
    assert(null_response@ == DATA_NULL@ && null_response@.len() == 19);
    assert(prefix@ == DATA_PREFIX@ && prefix@.len() == 9);
    assert(text@.take(text@.len() as int) =~= text@);
    if len == null_response.len() && starts_with(text, null_response) {
        return Frame::Absent;
    }
    if len > 10 && starts_with(text, prefix) {
        if len < FRAME_HEAD + FRAME_TAIL {
            Frame::Truncated
        } else {
            Frame::Payload(&text[FRAME_HEAD..len - FRAME_TAIL])
        }
    } else {
        Frame::Payload(text)
    }
}

/// What decoding a success buffer comes to.
pub ghost enum Decoding {
    /// The response carries no value.
    Absent,
    /// The payload is this JSON value.
    Value(serde_json::Value),
    /// The response opens like a frame but cannot hold one.
    Truncated,
    /// The payload decodes to this text, which is not JSON.
    Malformed(Seq<char>),
}

/// A response that breaks what the native library promises of its output.
/// It is no business error: the library answered success and sent something
/// that cannot be read.
#[derive(Debug, Clone, PartialEq, Eq)]
pub enum DecodeFault {
    /// The response opens like a frame but is shorter than head and tail.
    TruncatedFrame,
    /// The payload is not JSON; `text` is the payload as decoded.
    MalformedPayload { text: String },
}

/// What a decoded payload text comes to: its JSON value, or the text itself
/// where it has none.
pub open spec fn parsing(text: Seq<char>) -> Decoding {
    match json_value(text) {
        Some(value) => Decoding::Value(value),
        None => Decoding::Malformed(text),
    }
}

/// What a success buffer decodes to: only the bytes before the first zero byte
/// count; they are unframed, decoded from the legacy encoding, and parsed.
pub open spec fn decoding(buffer: Seq<u8>) -> Decoding {
    match framing(c_text(buffer)) {
        Framing::Absent => Decoding::Absent,
        Framing::Truncated => Decoding::Truncated,
        Framing::Payload(payload) => parsing(gbk_text(payload)),
    }
}

/// The decoding that a computed result stands for.
pub open spec fn outcome(result: Result<Option<serde_json::Value>, DecodeFault>) -> Decoding {
    match result {
        Ok(None) => Decoding::Absent,
        Ok(Some(value)) => Decoding::Value(value),
        Err(DecodeFault::TruncatedFrame) => Decoding::Truncated,
        Err(DecodeFault::MalformedPayload { text }) => Decoding::Malformed(text@),
    }
}

/// Turns the parser's verdict on a decoded payload into the decoder's result:
/// the value where the parser gave one, a fault that keeps the text otherwise.
pub fn payload_value(text: String, parsed: Result<serde_json::Value, serde_json::Error>) -> (result:
    Result<Option<serde_json::Value>, DecodeFault>)
    ensures
        parsed matches Ok(value) ==> outcome(result) == Decoding::Value(value),
        parsed is Err ==> outcome(result) == Decoding::Malformed(text@),
{
    match parsed {
        Ok(value) => Ok(Some(value)),
        Err(_) => Err(DecodeFault::MalformedPayload { text }),
    }
}

/// Decodes a payload from the legacy encoding and parses it as JSON.
pub fn decode_payload(payload: &[u8]) -> (result: Result<Option<serde_json::Value>, DecodeFault>)
    requires
        payload@.len() <= MAX_DECODE_LEN,
    ensures
        outcome(result) == parsing(gbk_text(payload@)),
{
    let text = decode_gbk(payload);
    let parsed = parse_json(text.as_str());
    payload_value(text, parsed)
}

/// Decodes the buffer of a successful call. An empty text and the null
/// response give no value; a framed text is unwrapped before it is decoded;
/// any other text is decoded as it stands. A payload that is not JSON, and a
/// frame too short to be one, are faults of the native library and are
/// reported as such.
pub fn process_buffer(buffer: &[u8]) -> (result: Result<Option<serde_json::Value>, DecodeFault>)
    requires
        buffer@.len() <= MAX_DECODE_LEN,
    ensures
        outcome(result) == decoding(buffer@),
{
    let text = text_of(buffer);
    match frame(text) {
        Frame::Absent => Ok(None),
        Frame::Truncated => Err(DecodeFault::TruncatedFrame),
        Frame::Payload(payload) => decode_payload(payload),
    }
}

/// Decodes the diagnostic text of a failed call: the bytes up to the first
/// zero byte, decoded as they stand.
pub fn process_error(buffer: &[u8]) -> (message: String)
    requires
        buffer@.len() <= MAX_DECODE_LEN,
    ensures
        message@ == gbk_text(c_text(buffer@)),
{
    let text = text_of(buffer);
    decode_gbk(text)
}

/// A text without zero bytes is read back whole, whether the buffer ends with
/// it or goes on with a zero byte and anything after it.
pub proof fn lemma_text_of_terminated(text: Seq<u8>, rest: Seq<u8>)
    requires
        nul_free(text),
    ensures
        c_text(text) == text,
        c_text(text + seq![0u8] + rest) == text,
{
    lemma_text_len_unique(text, text.len() as int);
    assert(text.take(text.len() as int) =~= text);
    let buffer = text + seq![0u8] + rest;
    assert forall|i: int| 0 <= i < text.len() implies buffer[i] != 0 by {
        assert(buffer[i] == text[i]);
    }
    assert(buffer[text.len() as int] == 0);
    lemma_text_len_unique(buffer, text.len() as int);
    assert(buffer.take(text.len() as int) =~= text);
}

/// The null response holds no zero byte.
pub proof fn lemma_null_response_is_text()
    ensures
        nul_free(DATA_NULL@),
        DATA_NULL@.len() == 19,
        DATA_NULL@.take(9) == DATA_PREFIX@,
{
    broadcast use vstd::array::group_array_axioms;

    assert(DATA_NULL@.take(9) =~= DATA_PREFIX@);
}

/// An empty buffer, and a buffer that holds the null response, alone or
/// followed by a zero byte and anything else, decode to no value.
pub proof fn lemma_null_response_is_absent(buffer: Seq<u8>, rest: Seq<u8>)
    requires
        buffer.len() == 0 || buffer == DATA_NULL@ || buffer == DATA_NULL@ + seq![0u8] + rest,
    ensures
        decoding(buffer) == Decoding::Absent,
{
    if buffer.len() == 0 {
        assert(c_text(buffer).len() == 0);
    } else {
        lemma_null_response_is_text();
        lemma_text_of_terminated(DATA_NULL@, rest);
    }
}

/// Unwrapping a frame exposes what was wrapped. For a head of eleven bytes
/// that opens with the frame prefix, any payload and a tail of two bytes, none
/// of them holding a zero byte, the buffer made of head, payload and tail
/// decodes as the payload alone does when it is decoded and parsed directly.
/// The one frame that is the null response decodes to no value.
pub proof fn lemma_frame_round_trip(head: Seq<u8>, payload: Seq<u8>, tail: Seq<u8>, rest: Seq<u8>)
    requires
        head.len() == FRAME_HEAD,
        head.take(9) == DATA_PREFIX@,
        tail.len() == FRAME_TAIL,
        nul_free(head),
        nul_free(payload),
        nul_free(tail),
    ensures
        framing(head + payload + tail) == if head + payload + tail == DATA_NULL@ {
            Framing::Absent
        } else {
            Framing::Payload(payload)
        },
        decoding(head + payload + tail) == decoding(head + payload + tail + seq![0u8] + rest),
        decoding(head + payload + tail) == if head + payload + tail == DATA_NULL@ {
            Decoding::Absent
        } else {
            parsing(gbk_text(payload))
        },
{
    let text = head + payload + tail;
    assert forall|i: int| 0 <= i < text.len() implies text[i] != 0 by {
        if i < head.len() {
            assert(text[i] == head[i]);
        } else if i < head.len() + payload.len() {
            assert(text[i] == payload[i - head.len()]);
        } else {
            assert(text[i] == tail[i - head.len() - payload.len()]);
        }
    }
    lemma_text_of_terminated(text, rest);
    assert(text.take(9) =~= head.take(9));
    assert(text.subrange(FRAME_HEAD as int, text.len() - FRAME_TAIL) =~= payload);
}

} // verus!
