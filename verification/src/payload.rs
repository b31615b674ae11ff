//! The fixed eight-byte telemetry payload.
//!
//! A payload is the four bytes of the temperature pattern followed by the four
//! bytes of the humidity pattern, both in one byte order. It carries no
//! framing, checksum or sequence number.

use vstd::prelude::*;
use crate::reading::SensorReading;

verus! {

/// Number of bytes in a payload.
pub const PAYLOAD_LEN: usize = 8;

/// The order in which the bytes of a 32-bit word are laid out.
#[derive(Clone, Copy, Debug, PartialEq, Eq, Structural)]
pub enum ByteOrder {
    /// Least significant byte first.
    Little,
    /// Most significant byte first.
    Big,
}

/// Byte `index` of a word, counted from the least significant one.
pub open spec fn byte_of(value: u32, index: nat) -> u8 {
    if index == 0 {
        (value % 0x100) as u8
    } else if index == 1 {
        (value / 0x100 % 0x100) as u8
    } else if index == 2 {
        (value / 0x1_0000 % 0x100) as u8
    } else {
        (value / 0x100_0000 % 0x100) as u8
    }
}

/// The four bytes of a word in the given order.
pub open spec fn word_bytes(value: u32, order: ByteOrder) -> Seq<u8> {
    match order {
        ByteOrder::Little => seq![
            byte_of(value, 0),
            byte_of(value, 1),
            byte_of(value, 2),
            byte_of(value, 3),
        ],
        ByteOrder::Big => seq![
            byte_of(value, 3),
            byte_of(value, 2),
            byte_of(value, 1),
            byte_of(value, 0),
        ],
    }
}

/// The word whose bytes in the given order are the first four of `bytes`.
pub open spec fn word_from_bytes(bytes: Seq<u8>, order: ByteOrder) -> u32
    recommends
        bytes.len() >= 4,
{
    match order {
        ByteOrder::Little => (bytes[0] + bytes[1] * 0x100 + bytes[2] * 0x1_0000 + bytes[3]
            * 0x100_0000) as u32,
        ByteOrder::Big => (bytes[3] + bytes[2] * 0x100 + bytes[1] * 0x1_0000 + bytes[0]
            * 0x100_0000) as u32,
    }
}

/// The payload bytes that stand for a reading.
pub open spec fn encoding(reading: SensorReading, order: ByteOrder) -> Seq<u8> {
    word_bytes(reading.temperature_bits, order) + word_bytes(reading.humidity_bits, order)
}

/// The reading that eight payload bytes stand for.
pub open spec fn decoding(bytes: Seq<u8>, order: ByteOrder) -> SensorReading
    recommends
        bytes.len() == 8,
{
    SensorReading {
        temperature_bits: word_from_bytes(bytes.subrange(0, 4), order),
        humidity_bits: word_from_bytes(bytes.subrange(4, 8), order),
    }
}

/// Reading a word back from its own bytes gives the word.
pub proof fn lemma_word_round_trip(value: u32, order: ByteOrder)
    ensures
        word_bytes(value, order).len() == 4,
        word_from_bytes(word_bytes(value, order), order) == value,
{
    let b0 = byte_of(value, 0);
    let b1 = byte_of(value, 1);
    let b2 = byte_of(value, 2);
    let b3 = byte_of(value, 3);
    assert(b0 + b1 * 0x100 + b2 * 0x1_0000 + b3 * 0x100_0000 == value);
}

/// Four bytes are the base-256 digits of the word they add up to.
proof fn lemma_base_256_digits(b0: u8, b1: u8, b2: u8, b3: u8)
    ensures
        ({
            let value = b0 + b1 * 0x100 + b2 * 0x1_0000 + b3 * 0x100_0000;
            &&& 0 <= value <= u32::MAX
            &&& value % 0x100 == b0
            &&& value / 0x100 % 0x100 == b1
            &&& value / 0x1_0000 % 0x100 == b2
            &&& value / 0x100_0000 % 0x100 == b3
        }),
{
    let value: int = b0 + b1 * 0x100 + b2 * 0x1_0000 + b3 * 0x100_0000;
    let upper1: int = b1 + b2 * 0x100 + b3 * 0x1_0000;
    let upper2: int = b2 + b3 * 0x100;
    assert(value == b0 + 0x100 * upper1);
    assert(value / 0x100 == upper1);
    assert(value == (b0 + b1 * 0x100) + 0x1_0000 * upper2);
    assert(value / 0x1_0000 == upper2);
    assert(value == (b0 + b1 * 0x100 + b2 * 0x1_0000) + 0x100_0000 * b3);
    assert(value / 0x100_0000 == b3);
    assert(upper1 == b1 + 0x100 * upper2);
    assert(upper1 % 0x100 == b1);
    assert(upper2 % 0x100 == b2);
}

/// Laying out the word read from four bytes gives those bytes.
pub proof fn lemma_bytes_round_trip(bytes: Seq<u8>, order: ByteOrder)
    requires
        bytes.len() == 4,
    ensures
        word_bytes(word_from_bytes(bytes, order), order) == bytes,
{
    let value = word_from_bytes(bytes, order);
    match order {
        ByteOrder::Little => {
            lemma_base_256_digits(bytes[0], bytes[1], bytes[2], bytes[3]);
        },
        ByteOrder::Big => {
            lemma_base_256_digits(bytes[3], bytes[2], bytes[1], bytes[0]);
        },
    }
    assert(word_bytes(value, order) =~= bytes);
}

/// Decoding the payload of a reading yields that reading, bit for bit.
pub proof fn lemma_decode_encode(reading: SensorReading, order: ByteOrder)
    ensures
        encoding(reading, order).len() == 8,
        decoding(encoding(reading, order), order) == reading,
{
    let t = word_bytes(reading.temperature_bits, order);
    let h = word_bytes(reading.humidity_bits, order);
    lemma_word_round_trip(reading.temperature_bits, order);
    lemma_word_round_trip(reading.humidity_bits, order);
    assert((t + h).subrange(0, 4) =~= t);
    assert((t + h).subrange(4, 8) =~= h);
}

/// Encoding the reading decoded from eight bytes yields those bytes.
pub proof fn lemma_encode_decode(bytes: Seq<u8>, order: ByteOrder)
    requires
        bytes.len() == 8,
    ensures
        encoding(decoding(bytes, order), order) == bytes,
{
    lemma_bytes_round_trip(bytes.subrange(0, 4), order);
    lemma_bytes_round_trip(bytes.subrange(4, 8), order);
    assert(bytes.subrange(0, 4) + bytes.subrange(4, 8) =~= bytes);
}

/// The word whose layout `order_of_layout` recognises.
pub const PROBE_WORD: u32 = 0x0403_0201;

/// The eight bytes sent to a peer for one reading.
#[derive(Clone, Copy, Debug, PartialEq, Eq)]
pub struct TelemetryPayload {
    pub bytes: [u8; 8],
}

impl View for TelemetryPayload {
    type V = Seq<u8>;

    open spec fn view(&self) -> Seq<u8> {
        self.bytes@
    }
}

/// `u32::to_ne_bytes`: the four bytes of the word as this machine stores
/// them, which is one of the two orders.
#[verifier::external_body]
fn native_word_bytes(value: u32) -> (bytes: [u8; 4])
    ensures
        bytes@ == word_bytes(value, ByteOrder::Little) || bytes@ == word_bytes(
            value,
            ByteOrder::Big,
        ),
{
    value.to_ne_bytes()
}

/// The order in which `bytes` lays out `PROBE_WORD`, if it is one of the two.
pub fn order_of_layout(bytes: &[u8; 4]) -> (order: Option<ByteOrder>)
    ensures
        order == if bytes@ == word_bytes(PROBE_WORD, ByteOrder::Little) {
            Some(ByteOrder::Little)
        } else if bytes@ == word_bytes(PROBE_WORD, ByteOrder::Big) {
            Some(ByteOrder::Big)
        } else {
            None
        },
{
    let little = word_to_bytes(PROBE_WORD, ByteOrder::Little);
    let big = word_to_bytes(PROBE_WORD, ByteOrder::Big);
    if bytes[0] == 1 && bytes[1] == 2 && bytes[2] == 3 && bytes[3] == 4 {
        assert(bytes@ =~= little@);
        Some(ByteOrder::Little)
    } else if bytes[0] == 4 && bytes[1] == 3 && bytes[2] == 2 && bytes[3] == 1 {
        assert(bytes@ =~= big@);
        assert(big@[0] != little@[0]);
        Some(ByteOrder::Big)
    } else {
        assert(bytes@[0] != little@[0] || bytes@[1] != little@[1] || bytes@[2] != little@[2]
            || bytes@[3] != little@[3]);
        assert(bytes@[0] != big@[0] || bytes@[1] != big@[1] || bytes@[2] != big@[2] || bytes@[3]
            != big@[3]);
        None
    }
}

/// Lays out a word in the given order.
pub fn word_to_bytes(value: u32, order: ByteOrder) -> (bytes: [u8; 4])
    ensures
        bytes@ == word_bytes(value, order),
{
    let b0: u8 = (value % 0x100) as u8;
    let b1: u8 = (value / 0x100 % 0x100) as u8;
    let b2: u8 = (value / 0x1_0000 % 0x100) as u8;
    let b3: u8 = (value / 0x100_0000 % 0x100) as u8;
    let bytes: [u8; 4] = match order {
        ByteOrder::Little => [b0, b1, b2, b3],
        ByteOrder::Big => [b3, b2, b1, b0],
    };
    assert(bytes@ =~= word_bytes(value, order));
    bytes
}

/// Reads a word from four bytes in the given order.
pub fn bytes_to_word(bytes: &[u8; 4], order: ByteOrder) -> (value: u32)
    ensures
        value == word_from_bytes(bytes@, order),
{
    let b0: u32 = bytes[0] as u32;
    let b1: u32 = bytes[1] as u32;
    let b2: u32 = bytes[2] as u32;
    let b3: u32 = bytes[3] as u32;
    match order {
        ByteOrder::Little => b0 + b1 * 0x100 + b2 * 0x1_0000 + b3 * 0x100_0000,
        ByteOrder::Big => b3 + b2 * 0x100 + b1 * 0x1_0000 + b0 * 0x100_0000,
    }
}

impl ByteOrder {
    /// The order in which this machine stores the bytes of a word.
    pub fn native() -> ByteOrder {
        let probe = native_word_bytes(PROBE_WORD);
        match order_of_layout(&probe) {
            Some(order) => order,
            // not reached: the bytes of a word come in one of the two orders
            None => ByteOrder::Little,
        }
    }
}

impl TelemetryPayload {
    /// The payload that stands for `reading`.
    pub fn encode(reading: &SensorReading, order: ByteOrder) -> (payload: TelemetryPayload)
        ensures
            payload@ == encoding(*reading, order),
            payload@.len() == PAYLOAD_LEN,
    {
        let t = word_to_bytes(reading.temperature_bits, order);
        let h = word_to_bytes(reading.humidity_bits, order);
        let bytes: [u8; 8] = [t[0], t[1], t[2], t[3], h[0], h[1], h[2], h[3]];
        assert(bytes@ =~= encoding(*reading, order));
        TelemetryPayload { bytes }
    }

    /// The reading that this payload stands for.
    pub fn decode(&self, order: ByteOrder) -> (reading: SensorReading)
        ensures
            reading == decoding(self@, order),
    {
        let t: [u8; 4] = [self.bytes[0], self.bytes[1], self.bytes[2], self.bytes[3]];
        let h: [u8; 4] = [self.bytes[4], self.bytes[5], self.bytes[6], self.bytes[7]];
        assert(t@ =~= self@.subrange(0, 4));
        assert(h@ =~= self@.subrange(4, 8));
        SensorReading {
            temperature_bits: bytes_to_word(&t, order),
            humidity_bits: bytes_to_word(&h, order),
        }
    }

    /// Wraps eight bytes received from a node.
    pub fn from_bytes(bytes: [u8; 8]) -> (payload: TelemetryPayload)
        ensures
            payload@ == bytes@,
    {
        TelemetryPayload { bytes }
    }

    /// The bytes to hand to the radio.
    pub fn as_bytes(&self) -> (bytes: &[u8; 8])
        ensures
            bytes@ == self@,
    {
        &self.bytes
    }
}

} // verus!
