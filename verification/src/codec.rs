//! Framing of protocol messages.
//!
//! A message travels as `kind || id_present || id? || payload_len || payload`,
//! all integers big-endian. [`spec_decode`] is the inverse of
//! [`MessageView::encoding`] on well-formed messages, and rejects every other
//! byte string.

use vstd::prelude::*;
use crate::error::ClientError;

verus! {

/// Largest payload a frame may carry, in bytes (64 MiB).
pub const MAX_PAYLOAD_LEN: usize = 0x400_0000;

/// One protocol message.
#[derive(Debug, Clone, PartialEq, Eq)]
pub struct Message {
    /// Protocol opcode; it determines the schema of `payload`.
    pub kind: u8,
    /// Present iff the message takes part in request/response correlation.
    pub id: Option<u16>,
    /// Opaque body.
    pub payload: Vec<u8>,
}

/// The mathematical value of a [`Message`].
pub ghost struct MessageView {
    pub kind: u8,
    pub id: Option<u16>,
    pub payload: Seq<u8>,
}

impl View for Message {
    type V = MessageView;

    open spec fn view(&self) -> MessageView {
        MessageView { kind: self.kind, id: self.id, payload: self.payload@ }
    }
}

/// The two bytes of `x`, most significant first.
pub open spec fn be16(x: u16) -> Seq<u8> {
    seq![(x / 0x100) as u8, (x % 0x100) as u8]
}

/// The four bytes of `x`, most significant first.
pub open spec fn be32(x: u32) -> Seq<u8> {
    seq![
        (x / 0x100_0000) as u8,
        ((x / 0x1_0000) % 0x100) as u8,
        ((x / 0x100) % 0x100) as u8,
        (x % 0x100) as u8,
    ]
}

/// The integer whose big-endian bytes are `hi`, `lo`.
pub open spec fn from_be16(hi: u8, lo: u8) -> u16 {
    (hi * 0x100 + lo) as u16
}

/// The integer whose big-endian bytes are `b0` to `b3`.
pub open spec fn from_be32(b0: u8, b1: u8, b2: u8, b3: u8) -> u32 {
    (b0 * 0x100_0000 + b1 * 0x1_0000 + b2 * 0x100 + b3) as u32
}

impl MessageView {
    /// A message can be framed iff its payload is within the cap.
    pub open spec fn well_formed(self) -> bool {
        self.payload.len() <= MAX_PAYLOAD_LEN
    }

    /// The bytes that carry the correlation id: a presence tag, then the id if there is one.
    pub open spec fn id_bytes(self) -> Seq<u8> {
        match self.id {
            None => seq![0u8],
            Some(id) => seq![1u8] + be16(id),
        }
    }

    /// The frame of a well-formed message.
    pub open spec fn encoding(self) -> Seq<u8> {
        seq![self.kind] + self.id_bytes() + be32(self.payload.len() as u32) + self.payload
    }
}

/// Reads the length-prefixed payload that ends a frame; `rest` is the frame after its id bytes.
pub open spec fn spec_decode_body(kind: u8, id: Option<u16>, rest: Seq<u8>) -> Option<MessageView> {
    if rest.len() < 4 {
        None
    } else {
        let declared = from_be32(rest[0], rest[1], rest[2], rest[3]);
        if declared > MAX_PAYLOAD_LEN || rest.len() - 4 != declared {
            None
        } else {
            Some(MessageView { kind, id, payload: rest.skip(4) })
        }
    }
}

/// The message that `bytes` frames, if there is one.
///
/// `None` for a short read, an id tag other than 0 or 1, a declared length over
/// the cap, and a declared length that differs from the bytes that follow it.
pub open spec fn spec_decode(bytes: Seq<u8>) -> Option<MessageView> {
    if bytes.len() < 2 {
        None
    } else if bytes[1] == 0 {
        spec_decode_body(bytes[0], None, bytes.skip(2))
    } else if bytes[1] == 1 {
        if bytes.len() < 4 {
            None
        } else {
            spec_decode_body(bytes[0], Some(from_be16(bytes[2], bytes[3])), bytes.skip(4))
        }
    } else {
        None
    }
}

/// Big-endian bytes decode to the integer they encode.
pub proof fn lemma_be16_round_trip(x: u16)
    ensures
        be16(x).len() == 2,
        from_be16(be16(x)[0], be16(x)[1]) == x,
{
}

/// Big-endian bytes decode to the integer they encode.
pub proof fn lemma_be32_round_trip(x: u32)
    ensures
        be32(x).len() == 4,
        from_be32(be32(x)[0], be32(x)[1], be32(x)[2], be32(x)[3]) == x,
{
}

/// Integers re-encode to the big-endian bytes they were read from.
pub proof fn lemma_from_be16_round_trip(hi: u8, lo: u8)
    ensures
        be16(from_be16(hi, lo)) == seq![hi, lo],
{
    assert(be16(from_be16(hi, lo)) =~= seq![hi, lo]);
}

/// Integers re-encode to the big-endian bytes they were read from.
pub proof fn lemma_from_be32_round_trip(b0: u8, b1: u8, b2: u8, b3: u8)
    ensures
        be32(from_be32(b0, b1, b2, b3)) == seq![b0, b1, b2, b3],
{
    let low: int = b1 * 0x1_0000 + b2 * 0x100 + b3;
    let x: int = b0 * 0x100_0000 + low;
    assert(x == from_be32(b0, b1, b2, b3));
    assert(x / 0x100_0000 == b0);
    assert(x / 0x1_0000 == b0 * 0x100 + b1);
    assert(x / 0x100 == b0 * 0x1_0000 + b1 * 0x100 + b2);
    assert(x % 0x100 == b3);
    assert(be32(from_be32(b0, b1, b2, b3)) =~= seq![b0, b1, b2, b3]);
}

/// Decoding inverts encoding: every well-formed message is recovered from its frame.
pub proof fn lemma_decode_encode(m: MessageView)
    requires
        m.well_formed(),
    ensures
        spec_decode(m.encoding()) == Some(m),
{
    let n = m.payload.len() as u32;
    let bytes = m.encoding();
    lemma_be32_round_trip(n);
    match m.id {
        None => {
            assert(bytes.skip(2) =~= be32(n) + m.payload);
            assert(bytes.skip(2).skip(4) =~= m.payload);
        },
        Some(id) => {
            lemma_be16_round_trip(id);
            assert(bytes.skip(4) =~= be32(n) + m.payload);
            assert(bytes.skip(4).skip(4) =~= m.payload);
        },
    }
}

/// Encoding inverts decoding: a frame that decodes is exactly the encoding of
/// the well-formed message it decodes to, with no byte left over.
pub proof fn lemma_encode_decode(bytes: Seq<u8>)
    requires
        spec_decode(bytes) is Some,
    ensures
        spec_decode(bytes)->Some_0.well_formed(),
        spec_decode(bytes)->Some_0.encoding() == bytes,
{
    let m = spec_decode(bytes)->Some_0;
    if bytes[1] == 0 {
        let rest = bytes.skip(2);
        lemma_from_be32_round_trip(rest[0], rest[1], rest[2], rest[3]);
        assert(m.encoding() =~= bytes);
    } else {
        let rest = bytes.skip(4);
        lemma_from_be16_round_trip(bytes[2], bytes[3]);
        lemma_from_be32_round_trip(rest[0], rest[1], rest[2], rest[3]);
        assert(m.encoding() =~= bytes);
    }
}

/// Two well-formed messages with the same frame are the same message.
pub proof fn lemma_encoding_injective(a: MessageView, b: MessageView)
    requires
        a.well_formed(),
        b.well_formed(),
        a.encoding() == b.encoding(),
    ensures
        a == b,
{
    lemma_decode_encode(a);
    lemma_decode_encode(b);
}

fn push_be16(out: &mut Vec<u8>, x: u16)
    ensures
        final(out)@ == old(out)@ + be16(x),
{
    out.push((x / 0x100) as u8);
    out.push((x % 0x100) as u8);
    assert(out@ =~= old(out)@ + be16(x));
}

fn push_be32(out: &mut Vec<u8>, x: u32)
    ensures
        final(out)@ == old(out)@ + be32(x),
{
    out.push((x / 0x100_0000) as u8);
    out.push(((x / 0x1_0000) % 0x100) as u8);
    out.push(((x / 0x100) % 0x100) as u8);
    out.push((x % 0x100) as u8);
    assert(out@ =~= old(out)@ + be32(x));
}

fn read_be16(hi: u8, lo: u8) -> (x: u16)
    ensures
        x == from_be16(hi, lo),
{
    (hi as u16) * 0x100 + (lo as u16)
}

fn read_be32(b0: u8, b1: u8, b2: u8, b3: u8) -> (x: u32)
    ensures
        x == from_be32(b0, b1, b2, b3),
{
    (b0 as u32) * 0x100_0000 + (b1 as u32) * 0x1_0000 + (b2 as u32) * 0x100 + (b3 as u32)
}

/// Copies `src[from..]` into a fresh vector.
fn copy_tail(src: &[u8], from: usize) -> (out: Vec<u8>)
    requires
        from <= src@.len(),
    ensures
        out@ == src@.skip(from as int),
{
    let mut out: Vec<u8> = Vec::new();
    let mut i: usize = from;
    while i < src.len()
        invariant
            from <= i <= src@.len(),
            out@ == src@.subrange(from as int, i as int),
        decreases src@.len() - i,
    {
        out.push(src[i]);
        i += 1;
        assert(out@ =~= src@.subrange(from as int, i as int));
    }
    assert(out@ =~= src@.skip(from as int));
    out
}

/// Reads the length-prefixed payload in `bytes[at..]`.
fn decode_body(kind: u8, id: Option<u16>, bytes: &[u8], at: usize) -> (r: Result<Message, ClientError>)
    requires
        at <= bytes@.len(),
    ensures
        match r {
            Ok(m) => spec_decode_body(kind, id, bytes@.skip(at as int)) == Some(m@),
            Err(e) => spec_decode_body(kind, id, bytes@.skip(at as int)) is None && e is MalformedFrame,
        },
{
    let ghost rest = bytes@.skip(at as int);
    if bytes.len() - at < 4 {
        return Err(ClientError::MalformedFrame);
    }
    let declared = read_be32(bytes[at], bytes[at + 1], bytes[at + 2], bytes[at + 3]);
    if declared as usize > MAX_PAYLOAD_LEN || bytes.len() - at - 4 != declared as usize {
        return Err(ClientError::MalformedFrame);
    }
    let payload = copy_tail(bytes, at + 4);
    assert(bytes@.skip(at + 4) =~= rest.skip(4));
    Ok(Message { kind, id, payload })
}

impl Message {
    /// Frames a message whose payload is within the cap.
    pub fn encode_well_formed(&self) -> (bytes: Vec<u8>)
        requires
            self@.well_formed(),
        ensures
            bytes@ == self@.encoding(),
    {
        let mut out: Vec<u8> = Vec::new();
        out.push(self.kind);
        match self.id {
            None => {
                out.push(0u8);
            },
            Some(id) => {
                out.push(1u8);
                push_be16(&mut out, id);
            },
        }
        assert(out@ =~= seq![self.kind] + self@.id_bytes());
        push_be32(&mut out, self.payload.len() as u32);
        out.extend_from_slice(self.payload.as_slice());
        out
    }

    /// Frames the message.
    ///
    /// Fails with `MalformedFrame` exactly when the payload is longer than
    /// [`MAX_PAYLOAD_LEN`]; otherwise the result is the message's encoding.
    pub fn encode(&self) -> (r: Result<Vec<u8>, ClientError>)
        ensures
            match r {
                Ok(bytes) => self@.well_formed() && bytes@ == self@.encoding(),
                Err(e) => !self@.well_formed() && e is MalformedFrame,
            },
    {
        if self.payload.len() > MAX_PAYLOAD_LEN {
            return Err(ClientError::MalformedFrame);
        }
        Ok(self.encode_well_formed())
    }

    /// Reads one message from a frame.
    ///
    /// Succeeds exactly on the encodings of well-formed messages and returns
    /// the message encoded; short reads, an id tag other than 0 or 1, a length
    /// over the cap and trailing or missing payload bytes give `MalformedFrame`.
    pub fn decode(bytes: &[u8]) -> (r: Result<Message, ClientError>)
        ensures
            match r {
                Ok(m) => spec_decode(bytes@) == Some(m@) && m@.well_formed() && m@.encoding() == bytes@,
                Err(e) => {
                    &&& e is MalformedFrame
                    &&& spec_decode(bytes@) is None
                    &&& forall|m: MessageView| m.well_formed() ==> #[trigger] m.encoding() != bytes@
                },
            },
    {
        proof {
            if spec_decode(bytes@) is Some {
                lemma_encode_decode(bytes@);
            } else {
                assert forall|m: MessageView| m.well_formed() implies #[trigger] m.encoding() != bytes@ by {
                    lemma_decode_encode(m);
                }
            }
        }
        if bytes.len() < 2 {
            return Err(ClientError::MalformedFrame);
        }
        let kind = bytes[0];
        let tag = bytes[1];
        if tag == 0 {
            decode_body(kind, None, bytes, 2)
        } else if tag == 1 {
            if bytes.len() < 4 {
                return Err(ClientError::MalformedFrame);
            }
            let id = read_be16(bytes[2], bytes[3]);
            decode_body(kind, Some(id), bytes, 4)
        } else {
            Err(ClientError::MalformedFrame)
        }
    }
}

} // verus!
