//! Typed Move values and their canonical binary encoding.
//!
//! The encoding is BCS: integers are little-endian at their natural width, a
//! boolean is one byte, an address is its 32 bytes, a vector is the ULEB128
//! encoding of its length followed by its elements, and a struct is its fields
//! one after the other. Nothing marks where a value ends or what type it has:
//! the function that is called knows what it expects.

use vstd::prelude::*;

verus! {

/// A value that can be passed to an entry function. A `U256` holds its 32
/// bytes least significant first, which is how it travels.
#[derive(Debug, PartialEq, Eq)]
pub enum MoveValue {
    Bool(bool),
    U8(u8),
    U16(u16),
    U32(u32),
    U64(u64),
    U128(u128),
    U256([u8; 32]),
    Address([u8; 32]),
    Vector(Vec<MoveValue>),
    Struct(Vec<MoveValue>),
}

/// The `width` low-order bytes of `value`, least significant first.
pub open spec fn le_bytes(value: nat, width: nat) -> Seq<u8>
    decreases width,
{
    if width == 0 {
        Seq::empty()
    } else {
        seq![(value % 256) as u8] + le_bytes(value / 256, (width - 1) as nat)
    }
}

/// The ULEB128 encoding of `value`: seven bits per byte, least significant
/// group first, the high bit set on every byte but the last.
pub open spec fn uleb128(value: nat) -> Seq<u8>
    decreases value,
{
    if value < 128 {
        seq![value as u8]
    } else {
        seq![(value % 128 + 128) as u8] + uleb128(value / 128)
    }
}

/// The encodings of the first `count` values of `items`, concatenated.
pub open spec fn encoding_of_prefix(items: Seq<MoveValue>, count: nat) -> Seq<u8>
    decreases items, count,
{
    if count == 0 || count > items.len() {
        Seq::empty()
    } else {
        encoding_of_prefix(items, (count - 1) as nat) + items[count - 1].encoding()
    }
}

/// The vector of `U8` values that stands for a byte string.
pub open spec fn byte_vector(bytes: Seq<u8>) -> Seq<MoveValue> {
    Seq::new(bytes.len(), |i: int| MoveValue::U8(bytes[i]))
}

impl MoveValue {
    /// The canonical bytes of this value.
    pub open spec fn encoding(self) -> Seq<u8>
        decreases self,
    {
        match self {
            MoveValue::Bool(b) => seq![if b { 1u8 } else { 0u8 }],
            MoveValue::U8(x) => seq![x],
            MoveValue::U16(x) => le_bytes(x as nat, 2),
            MoveValue::U32(x) => le_bytes(x as nat, 4),
            MoveValue::U64(x) => le_bytes(x as nat, 8),
            MoveValue::U128(x) => le_bytes(x as nat, 16),
            MoveValue::U256(bytes) => bytes@,
            MoveValue::Address(a) => a@,
            MoveValue::Vector(items) => uleb128(items@.len()) + encoding_of_prefix(
                items@,
                items@.len(),
            ),
            MoveValue::Struct(fields) => encoding_of_prefix(fields@, fields@.len()),
        }
    }
}

/// Appends the `width` low-order bytes of `value`, least significant first.
fn push_le_bytes(out: &mut Vec<u8>, value: u128, width: usize)
    ensures
        final(out)@ == old(out)@ + le_bytes(value as nat, width as nat),
{
    let ghost start = out@;
    let mut rest: u128 = value;
    let mut done: usize = 0;
    while done < width
        invariant
            done <= width,
            out@ + le_bytes(rest as nat, (width - done) as nat) == start + le_bytes(
                value as nat,
                width as nat,
            ),
        decreases width - done,
    {
        let byte: u8 = (rest % 256) as u8;
        proof {
            let tail = le_bytes((rest / 256) as nat, (width - done - 1) as nat);
            assert(le_bytes(rest as nat, (width - done) as nat) == seq![byte] + tail);
            assert(out@.push(byte) + tail =~= out@ + (seq![byte] + tail));
        }
        out.push(byte);
        rest = rest / 256;
        done = done + 1;
    }
    assert(out@ + Seq::<u8>::empty() =~= out@);
}

/// Appends the ULEB128 encoding of `value`.
fn push_uleb128(out: &mut Vec<u8>, value: usize)
    ensures
        final(out)@ == old(out)@ + uleb128(value as nat),
{
    let ghost start = out@;
    let mut rest: usize = value;
    while rest >= 128
        invariant
            out@ + uleb128(rest as nat) == start + uleb128(value as nat),
        decreases rest,
    {
        let byte: u8 = (rest % 128 + 128) as u8;
        proof {
            let tail = uleb128((rest / 128) as nat);
            assert(uleb128(rest as nat) == seq![byte] + tail);
            assert(out@.push(byte) + tail =~= out@ + (seq![byte] + tail));
        }
        out.push(byte);
        rest = rest / 128;
    }
    let last: u8 = rest as u8;
    assert(out@.push(last) =~= out@ + uleb128(rest as nat));
    out.push(last);
}

/// Appends the encodings of all of `items`, in order.
fn encode_all_into(items: &Vec<MoveValue>, out: &mut Vec<u8>)
    ensures
        final(out)@ == old(out)@ + encoding_of_prefix(items@, items@.len()),
    decreases items,
{
    let ghost start = out@;
    let mut next: usize = 0;
    assert(out@ =~= start + encoding_of_prefix(items@, 0));
    while next < items.len()
        invariant
            next <= items.len(),
            out@ == start + encoding_of_prefix(items@, next as nat),
        decreases items.len() - next,
    {
        let ghost before = out@;
        items[next].encode_into(out);
        proof {
            let head = encoding_of_prefix(items@, next as nat);
            let item = items@[next as int].encoding();
            assert(encoding_of_prefix(items@, (next + 1) as nat) == head + item);
            assert((start + head) + item =~= start + (head + item));
        }
        next = next + 1;
    }
}

impl MoveValue {
    /// Appends the canonical bytes of this value to `out`.
    pub fn encode_into(&self, out: &mut Vec<u8>)
        ensures
            final(out)@ == old(out)@ + self.encoding(),
        decreases self,
    {
        match self {
            MoveValue::Bool(b) => {
                let byte: u8 = if *b { 1 } else { 0 };
                assert(out@.push(byte) =~= out@ + self.encoding());
                out.push(byte);
            },
            MoveValue::U8(x) => {
                assert(out@.push(*x) =~= out@ + self.encoding());
                out.push(*x);
            },
            MoveValue::U16(x) => push_le_bytes(out, *x as u128, 2),
            MoveValue::U32(x) => push_le_bytes(out, *x as u128, 4),
            MoveValue::U64(x) => push_le_bytes(out, *x as u128, 8),
            MoveValue::U128(x) => push_le_bytes(out, *x, 16),
            MoveValue::U256(bytes) => out.extend_from_slice(bytes.as_slice()),
            MoveValue::Address(a) => out.extend_from_slice(a.as_slice()),
            MoveValue::Vector(items) => {
                let ghost start = out@;
                push_uleb128(out, items.len());
                encode_all_into(items, out);
                assert(out@ =~= start + self.encoding());
            },
            MoveValue::Struct(fields) => encode_all_into(fields, out),
        }
    }

    /// The canonical bytes of this value.
    pub fn encode(&self) -> (bytes: Vec<u8>)
        ensures
            bytes@ == self.encoding(),
    {
        let mut bytes: Vec<u8> = Vec::new();
        self.encode_into(&mut bytes);
        assert(Seq::<u8>::empty() + self.encoding() =~= self.encoding());
        bytes
    }

    /// The value that stands for a byte string: a vector with one `U8` per byte.
    pub fn from_bytes(bytes: &[u8]) -> (value: MoveValue)
        ensures
            value matches MoveValue::Vector(items) && items@ == byte_vector(bytes@),
    {
        let mut items: Vec<MoveValue> = Vec::new();
        let mut next: usize = 0;
        while next < bytes.len()
            invariant
                next <= bytes.len(),
                items@ == byte_vector(bytes@.take(next as int)),
            decreases bytes.len() - next,
        {
            items.push(MoveValue::U8(bytes[next]));
            next = next + 1;
            assert(items@ =~= byte_vector(bytes@.take(next as int)));
        }
        assert(bytes@.take(next as int) =~= bytes@);
        MoveValue::Vector(items)
    }
}

/// The elements of a byte vector encode to the bytes themselves.
proof fn lemma_byte_vector_prefix(bytes: Seq<u8>, count: nat)
    requires
        count <= bytes.len(),
    ensures
        encoding_of_prefix(byte_vector(bytes), count) == bytes.take(count as int),
    decreases count,
{
    if count == 0 {
        assert(bytes.take(0) =~= Seq::<u8>::empty());
    } else {
        lemma_byte_vector_prefix(bytes, (count - 1) as nat);
        assert(byte_vector(bytes)[count - 1].encoding() == seq![bytes[count - 1]]);
        assert(bytes.take(count - 1) + seq![bytes[count - 1]] =~= bytes.take(count as int));
    }
}

/// A byte string is encoded as its length in ULEB128 followed by its bytes:
/// tagging every byte as a `U8` adds nothing to the bytes on the wire.
pub proof fn lemma_byte_vector_encoding(items: Vec<MoveValue>, bytes: Seq<u8>)
    requires
        items@ == byte_vector(bytes),
    ensures
        MoveValue::Vector(items).encoding() == uleb128(bytes.len()) + bytes,
{
    lemma_byte_vector_prefix(bytes, bytes.len());
    assert(bytes.take(bytes.len() as int) =~= bytes);
}

/// A byte string of fewer than 128 bytes takes one byte more than it holds.
pub proof fn lemma_short_byte_vector_length(items: Vec<MoveValue>, bytes: Seq<u8>)
    requires
        items@ == byte_vector(bytes),
        bytes.len() < 128,
    ensures
        MoveValue::Vector(items).encoding().len() == bytes.len() + 1,
{
    lemma_byte_vector_encoding(items, bytes);
}

/// An integer of `width` bytes is encoded in exactly `width` bytes.
pub proof fn lemma_le_bytes_length(value: nat, width: nat)
    ensures
        le_bytes(value, width).len() == width,
    decreases width,
{
    if width > 0 {
        lemma_le_bytes_length(value / 256, (width - 1) as nat);
    }
}

/// The number of values that `width` bytes can tell apart.
pub open spec fn radix_power(width: nat) -> nat
    decreases width,
{
    if width == 0 {
        1
    } else {
        256 * radix_power((width - 1) as nat)
    }
}

/// Two numbers that fit in `width` bytes and are encoded alike are the same
/// number.
pub proof fn lemma_le_bytes_tell_numbers_apart(first: nat, second: nat, width: nat)
    requires
        first < radix_power(width),
        second < radix_power(width),
        le_bytes(first, width) == le_bytes(second, width),
    ensures
        first == second,
    decreases width,
{
    if width > 0 {
        let rest = (width - 1) as nat;
        let first_tail = le_bytes(first / 256, rest);
        let second_tail = le_bytes(second / 256, rest);
        lemma_le_bytes_length(first / 256, rest);
        lemma_le_bytes_length(second / 256, rest);
        assert(le_bytes(first, width)[0] == (first % 256) as u8);
        assert(le_bytes(second, width)[0] == (second % 256) as u8);
        assert(first_tail =~= le_bytes(first, width).subrange(1, width as int));
        assert(second_tail =~= le_bytes(second, width).subrange(1, width as int));
        lemma_le_bytes_tell_numbers_apart(first / 256, second / 256, rest);
    }
}

/// Encodes each argument of a call on its own, in order.
pub fn serialize_values(values: &Vec<MoveValue>) -> (encoded: Vec<Vec<u8>>)
    ensures
        encoded@.len() == values@.len(),
        forall|i: int| 0 <= i < values@.len() ==> (#[trigger] encoded@[i])@ == values@[i].encoding(),
{
    let mut encoded: Vec<Vec<u8>> = Vec::new();
    let mut next: usize = 0;
    while next < values.len()
        invariant
            next <= values.len(),
            encoded@.len() == next,
            forall|i: int| 0 <= i < next ==> (#[trigger] encoded@[i])@ == values@[i].encoding(),
        decreases values.len() - next,
    {
        encoded.push(values[next].encode());
        next = next + 1;
    }
    encoded
}

} // verus!
