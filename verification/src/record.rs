//! The binary layout of kernel input records and its decoding.

use crate::input::{InputEvent, Timestamp};
use vstd::prelude::*;

verus! {

/// The order in which the bytes of an integer field are laid out.
#[derive(Clone, Copy, Debug, PartialEq, Eq, Hash, Structural)]
pub enum ByteOrder {
    LittleEndian,
    BigEndian,
}

/// The width of each of the two time fields, the C `long` of the host.
#[derive(Clone, Copy, Debug, PartialEq, Eq, Hash, Structural)]
pub enum TimeWidth {
    Bits32,
    Bits64,
}

/// How a host lays out an input record: the seconds and the microseconds
/// of the time stamp, then a 16-bit type, a 16-bit code and a signed
/// 32-bit value.
#[derive(Clone, Copy, Debug, PartialEq, Eq, Hash, Structural)]
pub struct RecordLayout {
    pub order: ByteOrder,
    pub time: TimeWidth,
}

/// 256 to the power of `n`.
pub open spec fn pow256(n: nat) -> nat
    decreases n,
{
    if n == 0 {
        1
    } else {
        256 * pow256((n - 1) as nat)
    }
}

/// The number that `bytes` spell with the least significant byte first.
pub open spec fn le_value(bytes: Seq<u8>) -> nat
    decreases bytes.len(),
{
    if bytes.len() == 0 {
        0
    } else {
        bytes[0] as nat + 256 * le_value(bytes.drop_first())
    }
}

/// The unsigned integer that `bytes` hold in the given byte order.
pub open spec fn unsigned(bytes: Seq<u8>, order: ByteOrder) -> nat {
    match order {
        ByteOrder::LittleEndian => le_value(bytes),
        ByteOrder::BigEndian => le_value(bytes.reverse()),
    }
}

/// The two's complement integer that `bytes` hold in the given byte order.
pub open spec fn signed(bytes: Seq<u8>, order: ByteOrder) -> int {
    let v = unsigned(bytes, order);
    if 2 * v >= pow256(bytes.len()) {
        v - pow256(bytes.len())
    } else {
        v as int
    }
}

impl TimeWidth {
    /// The width in bytes.
    pub open spec fn spec_bytes(self) -> nat {
        match self {
            TimeWidth::Bits32 => 4,
            TimeWidth::Bits64 => 8,
        }
    }

    /// The width in bytes.
    pub fn bytes(&self) -> (n: usize)
        ensures
            n == self.spec_bytes(),
    {
        match self {
            TimeWidth::Bits32 => 4,
            TimeWidth::Bits64 => 8,
        }
    }
}

impl RecordLayout {
    /// The length of one record in bytes.
    pub open spec fn spec_record_len(self) -> nat {
        2 * self.time.spec_bytes() + 8
    }

    /// The record that the bytes of one record spell.
    pub open spec fn decoded(self, bytes: Seq<u8>) -> InputEvent {
        let w = self.time.spec_bytes() as int;
        InputEvent {
            time: Timestamp {
                sec: signed(bytes.subrange(0, w), self.order) as i64,
                usec: signed(bytes.subrange(w, 2 * w), self.order) as i64,
            },
            kind: unsigned(bytes.subrange(2 * w, 2 * w + 2), self.order) as u16,
            code: unsigned(bytes.subrange(2 * w + 2, 2 * w + 4), self.order) as u16,
            value: signed(bytes.subrange(2 * w + 4, 2 * w + 8), self.order) as i32,
        }
    }

    /// The number of whole records at the start of a stream of `len` bytes.
    pub open spec fn whole_records(self, len: nat) -> nat {
        len / self.spec_record_len()
    }

    /// The records of a byte stream: its whole records in order. Bytes
    /// after the last whole record belong to none.
    pub open spec fn records(self, stream: Seq<u8>) -> Seq<InputEvent> {
        Seq::new(
            self.whole_records(stream.len()),
            |i: int|
                self.decoded(
                    stream.subrange(i * self.spec_record_len(), (i + 1) * self.spec_record_len()),
                ),
        )
    }

    pub fn new(order: ByteOrder, time: TimeWidth) -> (l: RecordLayout)
        ensures
            l == (RecordLayout { order, time }),
    {
        RecordLayout { order, time }
    }

    /// The length of one record in bytes.
    pub fn record_len(&self) -> (n: usize)
        ensures
            n == self.spec_record_len(),
            n == 16 || n == 24,
    {
        2 * self.time.bytes() + 8
    }
}

/// An integer of `n` bytes is below 256 to the `n`.
pub proof fn lemma_le_value_bound(bytes: Seq<u8>)
    ensures
        le_value(bytes) < pow256(bytes.len()),
    decreases bytes.len(),
{
    if bytes.len() > 0 {
        lemma_le_value_bound(bytes.drop_first());
    }
}

/// The powers of 256 that the fields of a record need.
pub proof fn lemma_pow256_values()
    ensures
        pow256(0) == 1,
        pow256(1) == 0x100,
        pow256(2) == 0x1_0000,
        pow256(3) == 0x100_0000,
        pow256(4) == 0x1_0000_0000,
        pow256(5) == 0x100_0000_0000,
        pow256(6) == 0x1_0000_0000_0000,
        pow256(7) == 0x100_0000_0000_0000,
        pow256(8) == 0x1_0000_0000_0000_0000,
{
    reveal_with_fuel(pow256, 9);
}

/// The powers of 256 grow with the exponent.
pub proof fn lemma_pow256_grows(a: nat, b: nat)
    requires
        a <= b,
    ensures
        pow256(a) <= pow256(b),
    decreases b,
{
    if a < b {
        lemma_pow256_grows(a, (b - 1) as nat);
    }
}

/// Reads the unsigned integer of `width` bytes at `start`.
fn read_unsigned(bytes: &[u8], start: usize, width: usize, order: ByteOrder) -> (v: u64)
    requires
        1 <= width <= 8,
        start + width <= bytes@.len(),
    ensures
        v == unsigned(bytes@.subrange(start as int, start + width), order),
{
    let ghost field = bytes@.subrange(start as int, start + width);
    let ghost digits = match order {
        ByteOrder::LittleEndian => field,
        ByteOrder::BigEndian => field.reverse(),
    };
    let len: usize = bytes.len();
    let mut acc: u64 = 0;
    let mut k: usize = 0;
    while k < width
        invariant
            1 <= width <= 8,
            len == bytes@.len(),
            start + width <= len,
            k <= width,
            field == bytes@.subrange(start as int, start + width),
            digits == match order {
                ByteOrder::LittleEndian => field,
                ByteOrder::BigEndian => field.reverse(),
            },
            acc == le_value(digits.subrange(width - k, width as int)),
        decreases width - k,
    {
        let j: usize = width - 1 - k;
        let at: usize = match order {
            ByteOrder::LittleEndian => start + j,
            ByteOrder::BigEndian => start + k,
        };
        let digit: u8 = bytes[at];
        proof {
            let upper = digits.subrange(width - k, width as int);
            let grown = digits.subrange(j as int, width as int);
            assert(digit == digits[j as int]);
            assert(grown.drop_first() == upper);
            assert(grown[0] == digit);
            lemma_le_value_bound(upper);
            lemma_pow256_values();
            lemma_pow256_grows(k as nat, 7);
        }
        acc = acc * 256 + digit as u64;
        k = k + 1;
    }
    proof {
        assert(digits.subrange(0, width as int) == digits);
    }
    acc
}

/// Reads the two's complement integer of `width` bytes at `start`.
fn read_signed(bytes: &[u8], start: usize, width: usize, order: ByteOrder) -> (v: i64)
    requires
        width == 4 || width == 8,
        start + width <= bytes@.len(),
    ensures
        v == signed(bytes@.subrange(start as int, start + width), order),
        width == 4 ==> -0x8000_0000 <= v < 0x8000_0000,
{
    let u: u64 = read_unsigned(bytes, start, width, order);
    proof {
        let field = bytes@.subrange(start as int, start + width);
        lemma_pow256_values();
        lemma_le_value_bound(field);
        lemma_le_value_bound(field.reverse());
    }
    if width == 4 {
        if u >= 0x8000_0000 {
            u as i64 - 0x1_0000_0000
        } else {
            u as i64
        }
    } else {
        if u >= 0x8000_0000_0000_0000 {
            (u - 0x8000_0000_0000_0000) as i64 + i64::MIN
        } else {
            u as i64
        }
    }
}

/// Decodes the record that starts at `base`.
fn decode_at(bytes: &[u8], base: usize, layout: &RecordLayout) -> (r: InputEvent)
    requires
        base + layout.spec_record_len() <= bytes@.len(),
    ensures
        r == layout.decoded(bytes@.subrange(base as int, base + layout.spec_record_len())),
{
    let w: usize = layout.time.bytes();
    let order = layout.order;
    let len: usize = bytes.len();
    assert(base + 2 * w + 8 <= len);
    let ghost record = bytes@.subrange(base as int, base + layout.spec_record_len());
    proof {
        assert(record.subrange(0, w as int) == bytes@.subrange(base as int, base + w));
        assert(record.subrange(w as int, 2 * w) == bytes@.subrange(base + w, base + w + w));
        assert(record.subrange(2 * w, 2 * w + 2) == bytes@.subrange(
            base + 2 * w,
            base + 2 * w + 2,
        ));
        assert(record.subrange(2 * w + 2, 2 * w + 4) == bytes@.subrange(
            base + 2 * w + 2,
            base + 2 * w + 2 + 2,
        ));
        assert(record.subrange(2 * w + 4, 2 * w + 8) == bytes@.subrange(
            base + 2 * w + 4,
            base + 2 * w + 4 + 4,
        ));
    }
    let sec: i64 = read_signed(bytes, base, w, order);
    let usec: i64 = read_signed(bytes, base + w, w, order);
    let kind: u64 = read_unsigned(bytes, base + 2 * w, 2, order);
    let code: u64 = read_unsigned(bytes, base + 2 * w + 2, 2, order);
    let value: i64 = read_signed(bytes, base + 2 * w + 4, 4, order);
    proof {
        lemma_pow256_values();
        lemma_le_value_bound(record.subrange(2 * w, 2 * w + 2));
        lemma_le_value_bound(record.subrange(2 * w, 2 * w + 2).reverse());
        lemma_le_value_bound(record.subrange(2 * w + 2, 2 * w + 4));
        lemma_le_value_bound(record.subrange(2 * w + 2, 2 * w + 4).reverse());
    }
    InputEvent {
        time: Timestamp { sec, usec },
        kind: kind as u16,
        code: code as u16,
        value: value as i32,
    }
}

impl InputEvent {
    /// Decodes one record. The bytes must be exactly one record long.
    pub fn decode(bytes: &[u8], layout: &RecordLayout) -> (r: Option<InputEvent>)
        ensures
            r == if bytes@.len() == layout.spec_record_len() {
                Some(layout.decoded(bytes@))
            } else {
                None
            },
    {
        if bytes.len() == layout.record_len() {
            proof {
                assert(bytes@.subrange(0, layout.spec_record_len() as int) == bytes@);
            }
            Some(decode_at(bytes, 0, layout))
        } else {
            None
        }
    }
}

/// Decodes the whole records of a byte stream, in order. Decoding ends at
/// the first record that the stream does not hold in full.
pub fn parse_raw_events(stream: &[u8], layout: &RecordLayout) -> (out: Vec<InputEvent>)
    ensures
        out@ == layout.records(stream@),
{
    let len: usize = stream.len();
    let size: usize = layout.record_len();
    let mut out: Vec<InputEvent> = Vec::new();
    let mut pos: usize = 0;
    while len - pos >= size
        invariant
            len == stream@.len(),
            size == layout.spec_record_len(),
            size == 16 || size == 24,
            pos <= len,
            pos == out@.len() * size,
            forall|i: int|
                0 <= i < out@.len() ==> out@[i] == layout.decoded(
                    #[trigger] stream@.subrange(i * size, (i + 1) * size),
                ),
        decreases len - pos,
    {
        let record = decode_at(stream, pos, layout);
        proof {
            let n = out@.len() as int;
            assert((n + 1) * size == n * size + size) by (nonlinear_arith);
        }
        out.push(record);
        pos = pos + size;
    }
    proof {
        let n = out@.len() as int;
        assert(n == (len as int) / (size as int)) by (nonlinear_arith)
            requires
                n * size <= len < n * size + size,
                size > 0,
        ;
        assert(out@ =~= layout.records(stream@));
    }
    out
}

} // verus!
