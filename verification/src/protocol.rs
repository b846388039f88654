//! Message framing and integrity layer.
//!
//! A message on the wire is `header ‖ payload ‖ payload-checksum`, where the
//! header is a fixed nine-byte record (magic, version, kind, sequence,
//! payload length, header checksum; multi-byte fields big-endian) and both
//! checksums are the one's complement of the eight-bit wrapping sum of the
//! covered bytes.
//!
//! Construction, serialization and parsing are total functions whose exact
//! behaviour — including which error each bad input produces, and in which
//! order the validation gates fire — is pinned down by the specification
//! functions below.

use vstd::prelude::*;
use vstd::arithmetic::div_mod::lemma_fundamental_div_mod;
use vstd::slice::slice_subrange;
use crate::wire::{
    Wire, be16, u16_from, read_be16, push_be16, bytes_as_array, lemma_bytes_as_array,
    lemma_be16_round,
};

verus! {

/// Maximum message size in bytes.
pub const MAX_MESSAGE_SIZE: usize = 256;

/// Protocol version.
pub const PROTOCOL_VERSION: u8 = 1;

/// First magic byte of a valid message header.
pub const MESSAGE_MAGIC_0: u8 = 0xDC;

/// Second magic byte of a valid message header.
pub const MESSAGE_MAGIC_1: u8 = 0x42;

/// Number of bytes in a serialized header.
pub const HEADER_SIZE: usize = 9;

/// Error types for protocol operations.
#[derive(Debug, PartialEq, Eq, Structural, Clone, Copy)]
pub enum ProtocolError {
    /// Message is too large to fit in the buffer.
    MessageTooLarge,
    /// Invalid message format.
    InvalidFormat,
    /// Checksum verification failed.
    ChecksumMismatch,
    /// Invalid magic bytes in header.
    InvalidMagic,
    /// Unsupported protocol version.
    UnsupportedVersion,
    /// Serialization error in the payload codec.  The codecs this crate
    /// ships are total, so its own framing never produces this variant;
    /// it is kept for callers whose payload codecs can fail to encode.
    SerializationError,
    /// Deserialization error.
    DeserializationError,
}

/// Message types that can be sent or received.
#[derive(Debug, PartialEq, Eq, Structural, Clone, Copy)]
pub enum MessageKind {
    /// Command message.
    Command,
    /// Response message.
    Response,
    /// Notification message (sent without a command).
    Notification,
    /// Acknowledgment message.
    Ack,
    /// Error message.
    Error,
}

/// The one-byte wire tag of a message kind.
pub open spec fn kind_tag(k: MessageKind) -> u8 {
    match k {
        MessageKind::Command => 1,
        MessageKind::Response => 2,
        MessageKind::Notification => 3,
        MessageKind::Ack => 4,
        MessageKind::Error => 5,
    }
}

/// The message kind a wire tag stands for, if any.
pub open spec fn kind_of_tag(t: u8) -> Option<MessageKind> {
    if t == 1 {
        Some(MessageKind::Command)
    } else if t == 2 {
        Some(MessageKind::Response)
    } else if t == 3 {
        Some(MessageKind::Notification)
    } else if t == 4 {
        Some(MessageKind::Ack)
    } else if t == 5 {
        Some(MessageKind::Error)
    } else {
        None
    }
}

/// Reading a tag back gives the kind it was printed from.
pub proof fn lemma_kind_tag_round(k: MessageKind)
    ensures
        kind_of_tag(kind_tag(k)) == Some(k),
{
}

impl MessageKind {
    /// The one-byte wire tag of this kind.
    pub fn tag(&self) -> (r: u8)
        ensures
            r == kind_tag(*self),
    {
        match self {
            MessageKind::Command => 1,
            MessageKind::Response => 2,
            MessageKind::Notification => 3,
            MessageKind::Ack => 4,
            MessageKind::Error => 5,
        }
    }

    /// The kind a wire tag stands for, if any.
    pub fn from_tag(t: u8) -> (r: Option<MessageKind>)
        ensures
            r == kind_of_tag(t),
    {
        if t == 1 {
            Some(MessageKind::Command)
        } else if t == 2 {
            Some(MessageKind::Response)
        } else if t == 3 {
            Some(MessageKind::Notification)
        } else if t == 4 {
            Some(MessageKind::Ack)
        } else if t == 5 {
            Some(MessageKind::Error)
        } else {
            None
        }
    }
}

/// Plain sum of a byte sequence, as an unbounded integer.
pub open spec fn byte_sum(s: Seq<u8>) -> int
    decreases s.len(),
{
    if s.len() == 0 {
        0
    } else {
        byte_sum(s.drop_last()) + s.last()
    }
}

/// The checksum of a byte sequence: the one's complement of its
/// eight-bit wrapping sum.  The empty sequence has checksum 0xFF.
pub open spec fn checksum_of(s: Seq<u8>) -> u8 {
    (255 - byte_sum(s) % 256) as u8
}

/// Calculates the checksum for the given data.
pub fn calculate_checksum(data: &[u8]) -> (r: u8)
    ensures
        r == checksum_of(data@),
{
    let mut sum: u8 = 0;
    let mut i: usize = 0;
    while i < data.len()
        invariant
            0 <= i <= data@.len(),
            sum == byte_sum(data@.take(i as int)) % 256,
        decreases data@.len() - i,
    {
        proof {
            assert(data@.take(i + 1).drop_last() =~= data@.take(i as int));
            assert(data@.take(i + 1).last() == data@[i as int]);
        }
        let b = data[i];
        proof {
            lemma_byte_sum_nonneg(data@.take(i as int));
            lemma_mod_add_byte(byte_sum(data@.take(i as int)), b);
        }
        sum = sum.wrapping_add(b);
        i = i + 1;
    }
    proof {
        assert(data@.take(data@.len() as int) =~= data@);
    }
    255 - sum
}

/// The plain sum of bytes is never negative.
pub proof fn lemma_byte_sum_nonneg(s: Seq<u8>)
    ensures
        byte_sum(s) >= 0,
    decreases s.len(),
{
    if s.len() > 0 {
        lemma_byte_sum_nonneg(s.drop_last());
    }
}

/// Adding one byte to a partial sum commutes with reduction mod 256.
proof fn lemma_mod_add_byte(a: int, b: u8)
    requires
        a >= 0,
    ensures
        (a % 256 + b) % 256 == (a + b) % 256,
{
    lemma_fundamental_div_mod(a, 256);
    let q = a / 256;
    assert(a == 256 * q + a % 256);
    lemma_fundamental_div_mod(a % 256 + b, 256);
    let q2 = (a % 256 + b) / 256;
    assert(a + b == 256 * (q + q2) + (a % 256 + b) % 256);
    lemma_fundamental_div_mod(a + b, 256);
    vstd::arithmetic::div_mod::lemma_mod_multiples_vanish(q + q2, (a % 256 + b) % 256, 256);
}

/// Replacing one byte of a sequence shifts its plain sum by the
/// difference of the bytes.
pub proof fn lemma_byte_sum_update(s: Seq<u8>, i: int, v: u8)
    requires
        0 <= i < s.len(),
    ensures
        byte_sum(s.update(i, v)) == byte_sum(s) - s[i] + v,
    decreases s.len(),
{
    if i == s.len() - 1 {
        assert(s.update(i, v).drop_last() =~= s.drop_last());
    } else {
        assert(s.update(i, v).drop_last() =~= s.drop_last().update(i, v));
        lemma_byte_sum_update(s.drop_last(), i, v);
    }
}

/// Changing any single byte of a sequence changes its checksum.
///
/// A single-byte change shifts the byte sum by a non-zero amount of
/// magnitude less than 256, which cannot vanish mod 256.  (Two or more
/// byte changes can cancel each other out: the checksum is only a guard
/// against accidental corruption.)
pub proof fn lemma_checksum_sensitivity(s: Seq<u8>, i: int, v: u8)
    requires
        0 <= i < s.len(),
        v != s[i],
    ensures
        checksum_of(s.update(i, v)) != checksum_of(s),
{
    lemma_byte_sum_update(s, i, v);
    lemma_byte_sum_nonneg(s);
    lemma_byte_sum_nonneg(s.update(i, v));
    let a = byte_sum(s);
    let b = byte_sum(s.update(i, v));
    lemma_fundamental_div_mod(a, 256);
    lemma_fundamental_div_mod(b, 256);
    if checksum_of(s.update(i, v)) == checksum_of(s) {
        assert(a % 256 == b % 256);
        assert(b - a == 256 * (b / 256 - a / 256));
        assert(false);
    }
}

/// Message header containing metadata about the message.
#[derive(Debug, PartialEq, Eq, Clone, Copy)]
pub struct MessageHeader {
    /// Magic bytes to identify valid messages.
    pub magic: [u8; 2],
    /// Protocol version.
    pub version: u8,
    /// Message type.
    pub kind: MessageKind,
    /// Message sequence number for matching requests and responses.
    pub sequence: u16,
    /// Length of the payload in bytes.
    pub payload_length: u16,
    /// Checksum of the header (excluding the checksum field itself).
    pub header_checksum: u8,
}

/// The first eight header bytes: every field, in wire order, except the
/// trailing header checksum.
pub open spec fn header_body_bytes(h: MessageHeader) -> Seq<u8> {
    seq![h.magic[0], h.magic[1], h.version, kind_tag(h.kind)] + be16(h.sequence) + be16(
        h.payload_length,
    )
}

/// All nine header bytes as they travel on the wire.
pub open spec fn header_wire(h: MessageHeader) -> Seq<u8> {
    header_body_bytes(h) + seq![h.header_checksum]
}

/// The stored header checksum matches the one recomputed from the other
/// fields.
pub open spec fn header_checksum_ok(h: MessageHeader) -> bool {
    h.header_checksum == checksum_of(header_body_bytes(h))
}

impl MessageHeader {
    /// Creates a new message header.  The magic bytes and version are
    /// the protocol constants, and the header checksum is computed over
    /// the other fields' wire bytes.
    pub fn new(kind: MessageKind, sequence: u16, payload_length: u16) -> (r: Self)
        ensures
            r.magic[0] == MESSAGE_MAGIC_0,
            r.magic[1] == MESSAGE_MAGIC_1,
            r.version == PROTOCOL_VERSION,
            r.kind == kind,
            r.sequence == sequence,
            r.payload_length == payload_length,
            header_checksum_ok(r),
    {
        let mut magic = [0u8; 2];
        magic[0] = MESSAGE_MAGIC_0;
        magic[1] = MESSAGE_MAGIC_1;
        let mut header = MessageHeader {
            magic,
            version: PROTOCOL_VERSION,
            kind,
            sequence,
            payload_length,
            header_checksum: 0,
        };
        let body = header_body_to_vec(&header);
        header.header_checksum = calculate_checksum(body.as_slice());
        header
    }

    /// Validates the header checksum.
    pub fn validate_checksum(&self) -> (r: bool)
        ensures
            r == header_checksum_ok(*self),
    {
        let body = header_body_to_vec(self);
        let calculated = calculate_checksum(body.as_slice());
        calculated == self.header_checksum
    }
}

/// Collects the first eight header fields into their wire bytes.
fn header_body_to_vec(h: &MessageHeader) -> (r: Vec<u8>)
    ensures
        r@ == header_body_bytes(*h),
{
    let mut out: Vec<u8> = Vec::new();
    out.push(h.magic[0]);
    out.push(h.magic[1]);
    out.push(h.version);
    out.push(h.kind.tag());
    push_be16(&mut out, h.sequence);
    push_be16(&mut out, h.payload_length);
    assert(out@ =~= header_body_bytes(*h));
    out
}

/// Appends all nine header wire bytes.
fn push_header(out: &mut Vec<u8>, h: &MessageHeader)
    ensures
        final(out)@ == old(out)@ + header_wire(*h),
{
    out.push(h.magic[0]);
    out.push(h.magic[1]);
    out.push(h.version);
    out.push(h.kind.tag());
    push_be16(out, h.sequence);
    push_be16(out, h.payload_length);
    out.push(h.header_checksum);
    assert(out@ =~= old(out)@ + header_wire(*h));
}

/// A complete message with header and payload.
#[derive(Debug, PartialEq, Eq, Clone, Copy)]
pub struct Message<T> {
    /// Message header.
    pub header: MessageHeader,
    /// Message payload.
    pub payload: T,
    /// Payload checksum.
    pub payload_checksum: u8,
}

impl<T: Wire> Message<T> {
    /// All bytes of this message as they travel on the wire:
    /// `header ‖ payload ‖ payload-checksum`.
    pub open spec fn wire_bytes(self) -> Seq<u8> {
        header_wire(self.header) + self.payload.wire() + seq![self.payload_checksum]
    }

    /// The invariant every constructed or parsed message satisfies:
    /// protocol magic and version, a correct header checksum, a payload
    /// length field that equals the encoded payload length, a payload
    /// checksum over exactly those bytes, and a total size within the
    /// fixed buffer bound.
    pub open spec fn wf(self) -> bool {
        &&& self.header.magic[0] == MESSAGE_MAGIC_0
        &&& self.header.magic[1] == MESSAGE_MAGIC_1
        &&& self.header.version == PROTOCOL_VERSION
        &&& header_checksum_ok(self.header)
        &&& self.header.payload_length == self.payload.wire().len()
        &&& self.payload_checksum == checksum_of(self.payload.wire())
        &&& self.payload.wire().len() + HEADER_SIZE + 1 <= MAX_MESSAGE_SIZE
    }

    /// What parsing a byte sequence yields: either the fully validated
    /// message or the error of the first validation gate that fails.
    /// The gates fire in a fixed order: minimum length, header kind tag,
    /// magic, version, header checksum, declared total length, payload
    /// decoding, payload checksum.
    pub open spec fn spec_parse(data: Seq<u8>) -> Result<Message<T>, ProtocolError> {
        if data.len() < HEADER_SIZE {
            Err(ProtocolError::InvalidFormat)
        } else if kind_of_tag(data[3]) is None {
            Err(ProtocolError::DeserializationError)
        } else if data[0] != MESSAGE_MAGIC_0 || data[1] != MESSAGE_MAGIC_1 {
            Err(ProtocolError::InvalidMagic)
        } else if data[2] != PROTOCOL_VERSION {
            Err(ProtocolError::UnsupportedVersion)
        } else if data[8] != checksum_of(data.subrange(0, 8)) {
            Err(ProtocolError::ChecksumMismatch)
        } else if data.len() < HEADER_SIZE + u16_from(data.subrange(6, 8)) + 1 {
            Err(ProtocolError::InvalidFormat)
        } else {
            let plen = u16_from(data.subrange(6, 8)) as int;
            let pbytes = data.subrange(9, 9 + plen);
            match T::parsed(pbytes) {
                None => Err(ProtocolError::DeserializationError),
                Some(payload) => if data[9 + plen] != checksum_of(pbytes) {
                    Err(ProtocolError::ChecksumMismatch)
                } else {
                    Ok(
                        Message {
                            header: MessageHeader {
                                magic: bytes_as_array::<2>(data.subrange(0, 2)),
                                version: data[2],
                                kind: kind_of_tag(data[3])->Some_0,
                                sequence: u16_from(data.subrange(4, 6)),
                                payload_length: u16_from(data.subrange(6, 8)),
                                header_checksum: data[8],
                            },
                            payload,
                            payload_checksum: data[9 + plen],
                        },
                    )
                },
            }
        }
    }

    /// Creates a new message with the given payload.  Succeeds exactly
    /// when the encoded payload, the header and the trailing checksum
    /// byte fit in `MAX_MESSAGE_SIZE` bytes; the result is then the
    /// unique well-formed message carrying this payload.
    pub fn new(kind: MessageKind, sequence: u16, payload: T) -> (r: Result<Message<T>, ProtocolError>)
        ensures
            match r {
                Ok(m) => {
                    &&& payload.wire().len() + HEADER_SIZE + 1 <= MAX_MESSAGE_SIZE
                    &&& m.wf()
                    &&& m.header.kind == kind
                    &&& m.header.sequence == sequence
                    &&& m.payload == payload
                },
                Err(e) => {
                    &&& e == ProtocolError::MessageTooLarge
                    &&& payload.wire().len() + HEADER_SIZE + 1 > MAX_MESSAGE_SIZE
                },
            },
    {
        let mut pbuf: Vec<u8> = Vec::new();
        payload.encode(&mut pbuf);
        if pbuf.len() > MAX_MESSAGE_SIZE - HEADER_SIZE - 1 {
            return Err(ProtocolError::MessageTooLarge);
        }
        let header = MessageHeader::new(kind, sequence, pbuf.len() as u16);
        let payload_checksum = calculate_checksum(pbuf.as_slice());
        Ok(Message { header, payload, payload_checksum })
    }

    /// Serializes the message to a byte buffer, returning the number of
    /// bytes written and the buffer.  Succeeds exactly when the message
    /// fits in `MAX_MESSAGE_SIZE` bytes; nothing is returned otherwise.
    pub fn serialize(&self) -> (r: Result<(usize, Vec<u8>), ProtocolError>)
        ensures
            match r {
                Ok(p) => {
                    &&& self.payload.wire().len() + HEADER_SIZE + 1 <= MAX_MESSAGE_SIZE
                    &&& p.1@ == self.wire_bytes()
                    &&& p.0 == self.wire_bytes().len()
                },
                Err(e) => {
                    &&& e == ProtocolError::MessageTooLarge
                    &&& self.payload.wire().len() + HEADER_SIZE + 1 > MAX_MESSAGE_SIZE
                },
            },
    {
        let mut buf: Vec<u8> = Vec::new();
        push_header(&mut buf, &self.header);
        self.payload.encode(&mut buf);
        if buf.len() >= MAX_MESSAGE_SIZE {
            return Err(ProtocolError::MessageTooLarge);
        }
        buf.push(self.payload_checksum);
        assert(buf@ =~= self.wire_bytes());
        let n = buf.len();
        Ok((n, buf))
    }

    /// Deserializes a message from a byte buffer, validating structure
    /// and integrity in a fixed order; returns the first failure.
    pub fn try_from(data: &[u8]) -> (r: Result<Message<T>, ProtocolError>)
        ensures
            r == Self::spec_parse(data@),
    {
        if data.len() < HEADER_SIZE {
            return Err(ProtocolError::InvalidFormat);
        }
        let kind = match MessageKind::from_tag(data[3]) {
            Some(k) => k,
            None => {
                return Err(ProtocolError::DeserializationError);
            },
        };
        if data[0] != MESSAGE_MAGIC_0 || data[1] != MESSAGE_MAGIC_1 {
            return Err(ProtocolError::InvalidMagic);
        }
        if data[2] != PROTOCOL_VERSION {
            return Err(ProtocolError::UnsupportedVersion);
        }
        let header_region = slice_subrange(data, 0, 8);
        if data[8] != calculate_checksum(header_region) {
            return Err(ProtocolError::ChecksumMismatch);
        }
        let payload_length = read_be16(data, 6);
        if data.len() < HEADER_SIZE + payload_length as usize + 1 {
            return Err(ProtocolError::InvalidFormat);
        }
        let pend = HEADER_SIZE + payload_length as usize;
        let pbytes = slice_subrange(data, HEADER_SIZE, pend);
        let payload = match T::decode(pbytes) {
            Some(p) => p,
            None => {
                return Err(ProtocolError::DeserializationError);
            },
        };
        let payload_checksum = data[pend];
        if payload_checksum != calculate_checksum(pbytes) {
            return Err(ProtocolError::ChecksumMismatch);
        }
        let mut magic = [0u8; 2];
        magic[0] = data[0];
        magic[1] = data[1];
        let sequence = read_be16(data, 4);
        let header = MessageHeader {
            magic,
            version: data[2],
            kind,
            sequence,
            payload_length,
            header_checksum: data[8],
        };
        proof {
            assert(magic@ =~= data@.subrange(0, 2));
            lemma_bytes_as_array::<2>(magic);
        }
        Ok(Message { header, payload, payload_checksum })
    }
}

/// Where each field of a message lies within its wire bytes.
pub proof fn lemma_wire_shape<T: Wire>(m: Message<T>)
    ensures
        m.wire_bytes().len() == 10 + m.payload.wire().len(),
        m.wire_bytes().subrange(0, 8) == header_body_bytes(m.header),
        m.wire_bytes()[0] == m.header.magic[0],
        m.wire_bytes()[1] == m.header.magic[1],
        m.wire_bytes()[2] == m.header.version,
        m.wire_bytes()[3] == kind_tag(m.header.kind),
        m.wire_bytes().subrange(4, 6) == be16(m.header.sequence),
        m.wire_bytes().subrange(6, 8) == be16(m.header.payload_length),
        m.wire_bytes()[8] == m.header.header_checksum,
        m.wire_bytes().subrange(9, 9 + m.payload.wire().len() as int) == m.payload.wire(),
        m.wire_bytes()[9 + m.payload.wire().len() as int] == m.payload_checksum,
{
    let d = m.wire_bytes();
    let w = m.payload.wire();
    lemma_be16_round(m.header.sequence);
    lemma_be16_round(m.header.payload_length);
    assert(d.subrange(0, 8) =~= header_body_bytes(m.header));
    assert(d.subrange(4, 6) =~= be16(m.header.sequence));
    assert(d.subrange(6, 8) =~= be16(m.header.payload_length));
    assert(d.subrange(9, 9 + w.len() as int) =~= w);
}

/// Round trip: parsing the wire bytes of any well-formed message gives
/// back exactly that message.  Messages built by `Message::new` are
/// well-formed, and `Message::serialize` emits exactly these bytes, so
/// construct–serialize–parse returns a message equal to the original in
/// every field.
pub proof fn lemma_message_round_trip<T: Wire>(m: Message<T>)
    requires
        m.wf(),
    ensures
        Message::<T>::spec_parse(m.wire_bytes()) == Ok::<Message<T>, ProtocolError>(m),
{
    let d = m.wire_bytes();
    let h = m.header;
    let w = m.payload.wire();
    lemma_wire_shape(m);
    lemma_kind_tag_round(h.kind);
    lemma_be16_round(h.sequence);
    lemma_be16_round(h.payload_length);
    assert(d.subrange(0, 2) =~= h.magic@);
    lemma_bytes_as_array::<2>(h.magic);
    m.payload.lemma_round_trip();
    assert(Message::<T>::spec_parse(d) is Ok);
    let parsed_msg = Message::<T>::spec_parse(d)->Ok_0;
    assert(parsed_msg.header == h);
    assert(parsed_msg == m);
}

/// Magic gating: whatever else a buffer holds, if its header kind tag is
/// readable and either magic byte is off, parsing reports `InvalidMagic`
/// — before any checksum is looked at.
pub proof fn lemma_magic_gating<T: Wire>(data: Seq<u8>)
    requires
        data.len() >= HEADER_SIZE,
        kind_of_tag(data[3]) is Some,
        data[0] != MESSAGE_MAGIC_0 || data[1] != MESSAGE_MAGIC_1,
    ensures
        Message::<T>::spec_parse(data) == Err::<Message<T>, ProtocolError>(
            ProtocolError::InvalidMagic,
        ),
{
}

/// Version gating: with the magic in place, any version byte other than
/// the protocol constant is reported as `UnsupportedVersion` — before
/// any checksum is looked at.
pub proof fn lemma_version_gating<T: Wire>(data: Seq<u8>)
    requires
        data.len() >= HEADER_SIZE,
        kind_of_tag(data[3]) is Some,
        data[0] == MESSAGE_MAGIC_0,
        data[1] == MESSAGE_MAGIC_1,
        data[2] != PROTOCOL_VERSION,
    ensures
        Message::<T>::spec_parse(data) == Err::<Message<T>, ProtocolError>(
            ProtocolError::UnsupportedVersion,
        ),
{
}

/// Truncation: a buffer whose valid header declares more payload bytes
/// than the buffer holds (including the trailing checksum byte) is
/// reported as `InvalidFormat`.
pub proof fn lemma_truncation<T: Wire>(data: Seq<u8>)
    requires
        data.len() >= HEADER_SIZE,
        kind_of_tag(data[3]) is Some,
        data[0] == MESSAGE_MAGIC_0,
        data[1] == MESSAGE_MAGIC_1,
        data[2] == PROTOCOL_VERSION,
        data[8] == checksum_of(data.subrange(0, 8)),
        data.len() < HEADER_SIZE + u16_from(data.subrange(6, 8)) + 1,
    ensures
        Message::<T>::spec_parse(data) == Err::<Message<T>, ProtocolError>(
            ProtocolError::InvalidFormat,
        ),
{
}

/// Corruption of any single byte of a well-formed message's wire bytes
/// is never accepted, and the reported error is determined by the region
/// hit: the magic bytes, the version byte, the kind tag, the rest of the
/// header (caught by the header checksum), the payload (caught by the
/// payload codec or the payload checksum), or the trailing checksum byte
/// itself.
pub proof fn lemma_corruption_detected<T: Wire>(m: Message<T>, i: int, v: u8)
    requires
        m.wf(),
        0 <= i < m.wire_bytes().len(),
        v != m.wire_bytes()[i],
    ensures
        Message::<T>::spec_parse(m.wire_bytes().update(i, v)) is Err,
        0 <= i < 2 ==> Message::<T>::spec_parse(m.wire_bytes().update(i, v)) == Err::<
            Message<T>,
            ProtocolError,
        >(ProtocolError::InvalidMagic),
        i == 2 ==> Message::<T>::spec_parse(m.wire_bytes().update(i, v)) == Err::<
            Message<T>,
            ProtocolError,
        >(ProtocolError::UnsupportedVersion),
        i == 3 && kind_of_tag(v) is None ==> Message::<T>::spec_parse(m.wire_bytes().update(i, v))
            == Err::<Message<T>, ProtocolError>(ProtocolError::DeserializationError),
        i == 3 && kind_of_tag(v) is Some ==> Message::<T>::spec_parse(m.wire_bytes().update(i, v))
            == Err::<Message<T>, ProtocolError>(ProtocolError::ChecksumMismatch),
        4 <= i <= 8 ==> Message::<T>::spec_parse(m.wire_bytes().update(i, v)) == Err::<
            Message<T>,
            ProtocolError,
        >(ProtocolError::ChecksumMismatch),
        i == 9 + m.payload.wire().len() as int ==> Message::<T>::spec_parse(m.wire_bytes().update(i, v))
            == Err::<Message<T>, ProtocolError>(ProtocolError::ChecksumMismatch),
        9 <= i < 9 + m.payload.wire().len() as int && T::parsed(m.payload.wire().update(i - 9, v))
            is Some ==> Message::<T>::spec_parse(m.wire_bytes().update(i, v)) == Err::<
            Message<T>,
            ProtocolError,
        >(ProtocolError::ChecksumMismatch),
        9 <= i < 9 + m.payload.wire().len() as int && T::parsed(m.payload.wire().update(i - 9, v))
            is None ==> Message::<T>::spec_parse(m.wire_bytes().update(i, v)) == Err::<
            Message<T>,
            ProtocolError,
        >(ProtocolError::DeserializationError),
{
    let d = m.wire_bytes();
    let d2 = d.update(i, v);
    let h = m.header;
    let w = m.payload.wire();
    let plen = w.len() as int;
    lemma_wire_shape(m);
    lemma_kind_tag_round(h.kind);
    lemma_be16_round(h.sequence);
    lemma_be16_round(h.payload_length);
    assert(d2.len() == d.len());
    if i < 2 {
        // the kind tag is untouched, so the magic gate is the first to fire
        assert(Message::<T>::spec_parse(d2) == Err::<Message<T>, ProtocolError>(
            ProtocolError::InvalidMagic,
        ));
    } else if i == 2 {
        assert(Message::<T>::spec_parse(d2) == Err::<Message<T>, ProtocolError>(
            ProtocolError::UnsupportedVersion,
        ));
    } else if i <= 7 {
        if i == 3 && kind_of_tag(v) is None {
            assert(Message::<T>::spec_parse(d2) == Err::<Message<T>, ProtocolError>(
                ProtocolError::DeserializationError,
            ));
        } else {
            // the altered byte sits under the header checksum
            assert(d2.subrange(0, 8) =~= d.subrange(0, 8).update(i, v));
            lemma_checksum_sensitivity(d.subrange(0, 8), i, v);
            assert(d2[8] == h.header_checksum);
            assert(Message::<T>::spec_parse(d2) == Err::<Message<T>, ProtocolError>(
                ProtocolError::ChecksumMismatch,
            ));
        }
    } else if i == 8 {
        assert(d2.subrange(0, 8) =~= d.subrange(0, 8));
        assert(d2[8] == v);
        assert(Message::<T>::spec_parse(d2) == Err::<Message<T>, ProtocolError>(
            ProtocolError::ChecksumMismatch,
        ));
    } else {
        // header bytes are untouched: every header gate passes
        assert(d2.subrange(0, 8) =~= d.subrange(0, 8));
        assert(d2.subrange(6, 8) =~= be16(h.payload_length));
        assert(d2.subrange(4, 6) =~= be16(h.sequence));
        if i < 9 + plen {
            assert(d2.subrange(9, 9 + plen) =~= w.update(i - 9, v));
            assert(w[i - 9] == d[i]);
            lemma_checksum_sensitivity(w, i - 9, v);
            assert(d2[9 + plen] == m.payload_checksum);
            match T::parsed(w.update(i - 9, v)) {
                None => {
                    assert(Message::<T>::spec_parse(d2) == Err::<Message<T>, ProtocolError>(
                        ProtocolError::DeserializationError,
                    ));
                },
                Some(_) => {
                    assert(Message::<T>::spec_parse(d2) == Err::<Message<T>, ProtocolError>(
                        ProtocolError::ChecksumMismatch,
                    ));
                },
            }
        } else {
            assert(i == 9 + plen);
            assert(d2.subrange(9, 9 + plen) =~= w);
            m.payload.lemma_round_trip();
            assert(d2[9 + plen] == v);
            assert(Message::<T>::spec_parse(d2) == Err::<Message<T>, ProtocolError>(
                ProtocolError::ChecksumMismatch,
            ));
        }
    }
}

/// A payload that encodes to zero bytes is framed with a zero payload
/// length and the empty checksum 0xFF, and round-trips like any other
/// well-formed message.
pub proof fn lemma_empty_payload<T: Wire>(m: Message<T>)
    requires
        m.wf(),
        m.payload.wire().len() == 0,
    ensures
        m.header.payload_length == 0,
        m.payload_checksum == 0xFF,
        Message::<T>::spec_parse(m.wire_bytes()) == Ok::<Message<T>, ProtocolError>(m),
{
    assert(checksum_of(m.payload.wire()) == 0xFF) by {
        assert(byte_sum(m.payload.wire()) == 0);
    }
    lemma_message_round_trip(m);
}

} // verus!
