//! Integers as bytes, least significant byte first.
//!
//! A run of bytes spells a natural number in base 256. A signed field holds its
//! number in two's complement: of the values that its width can spell, the upper
//! half stands for the negative numbers.

use vstd::prelude::*;

verus! {

/// The number of values that `width` bytes can spell: 256 to the power `width`.
pub open spec fn radix(width: nat) -> nat
    decreases width,
{
    if width == 0 {
        1
    } else {
        256 * radix((width - 1) as nat)
    }
}

/// The number that `bytes` spells, least significant byte first.
pub open spec fn le_value(bytes: Seq<u8>) -> nat
    decreases bytes.len(),
{
    if bytes.len() == 0 {
        0
    } else {
        bytes[0] as nat + 256 * le_value(bytes.drop_first())
    }
}

/// The `width` bytes that spell `value`, least significant byte first. Of a
/// value too large for the width, the low `width` bytes.
pub open spec fn le_bytes(value: nat, width: nat) -> Seq<u8>
    decreases width,
{
    if width == 0 {
        Seq::empty()
    } else {
        seq![(value % 256) as u8] + le_bytes(value / 256, (width - 1) as nat)
    }
}

/// The signed number that the unsigned `value` of `width` bytes stands for in
/// two's complement.
pub open spec fn as_signed(value: nat, width: nat) -> int {
    if 2 * value >= radix(width) {
        value - radix(width)
    } else {
        value as int
    }
}

/// The unsigned number of `width` bytes that stands for `value` in two's
/// complement.
pub open spec fn as_unsigned(value: int, width: nat) -> nat {
    if value < 0 {
        (value + radix(width)) as nat
    } else {
        value as nat
    }
}

/// The radix of the widths in use, written out.
pub proof fn lemma_radix_values()
    ensures
        radix(0) == 1,
        radix(1) == 0x100,
        radix(2) == 0x1_0000,
        radix(4) == 0x1_0000_0000,
        radix(8) == 0x1_0000_0000_0000_0000,
{
    reveal_with_fuel(radix, 9);
}

/// More bytes spell more values.
pub proof fn lemma_radix_increases(narrow: nat, wide: nat)
    requires
        narrow <= wide,
    ensures
        radix(narrow) <= radix(wide),
    decreases wide,
{
    if narrow < wide {
        lemma_radix_increases(narrow, (wide - 1) as nat);
    }
}

/// Bytes spell a number below the radix of their count.
pub proof fn lemma_le_value_bound(bytes: Seq<u8>)
    ensures
        le_value(bytes) < radix(bytes.len()),
    decreases bytes.len(),
{
    if bytes.len() > 0 {
        lemma_le_value_bound(bytes.drop_first());
    }
}

/// `le_bytes` gives as many bytes as it is asked for.
pub proof fn lemma_le_bytes_len(value: nat, width: nat)
    ensures
        le_bytes(value, width).len() == width,
    decreases width,
{
    if width > 0 {
        lemma_le_bytes_len(value / 256, (width - 1) as nat);
    }
}

/// Spelling a number that fits the width and reading the bytes again gives the
/// number.
pub proof fn lemma_le_value_of_bytes(value: nat, width: nat)
    requires
        value < radix(width),
    ensures
        le_value(le_bytes(value, width)) == value,
    decreases width,
{
    if width > 0 {
        let rest = le_bytes(value / 256, (width - 1) as nat);
        let all = le_bytes(value, width);
        lemma_le_bytes_len(value / 256, (width - 1) as nat);
        assert(all.drop_first() =~= rest);
        lemma_le_value_of_bytes(value / 256, (width - 1) as nat);
    }
}

/// Reading bytes and spelling the number again in as many bytes gives the
/// bytes.
pub proof fn lemma_le_bytes_of_value(bytes: Seq<u8>)
    ensures
        le_bytes(le_value(bytes), bytes.len()) == bytes,
    decreases bytes.len(),
{
    if bytes.len() > 0 {
        let rest = bytes.drop_first();
        lemma_le_bytes_of_value(rest);
        let value: nat = le_value(bytes);
        assert(value % 256 == bytes[0] as nat && value / 256 == le_value(rest));
        assert(le_bytes(value, bytes.len()) =~= bytes);
    } else {
        assert(le_bytes(le_value(bytes), bytes.len()) =~= bytes);
    }
}

/// Two's complement loses no signed number: one that the width can hold comes
/// back from its unsigned form.
pub proof fn lemma_signed_of_unsigned(value: int, width: nat)
    requires
        -(radix(width) as int) <= 2 * value < radix(width),
    ensures
        as_unsigned(value, width) < radix(width),
        as_signed(as_unsigned(value, width), width) == value,
{
}

/// Two's complement loses no unsigned number: one that the width can hold
/// comes back from its signed form.
pub proof fn lemma_unsigned_of_signed(value: nat, width: nat)
    requires
        value < radix(width),
    ensures
        -(radix(width) as int) <= 2 * as_signed(value, width) < radix(width),
        as_unsigned(as_signed(value, width), width) == value,
{
}

/// Reads the `width` bytes of `buffer` from index `at` on as one unsigned
/// number, least significant byte first.
pub fn read_le(buffer: &[u8], at: usize, width: usize) -> (value: u64)
    requires
        width <= 8,
        at + width <= buffer.len(),
    ensures
        value == le_value(buffer@.subrange(at as int, at + width)),
{
    let mut value: u64 = 0;
    let mut i: usize = width;
    while i > 0
        invariant
            i <= width <= 8,
            at + width <= buffer.len(),
            value == le_value(buffer@.subrange(at + i, at + width)),
        decreases i,
    {
        i = i - 1;
        proof {
            let read = buffer@.subrange(at + i + 1, at + width);
            assert(buffer@.subrange(at + i, at + width).drop_first() =~= read);
            lemma_le_value_bound(read);
            lemma_radix_increases(read.len(), 7);
            reveal_with_fuel(radix, 8);
        }
        value = value * 256 + buffer[at + i] as u64;
    }
    value
}

/// Appends to `out` the `width` bytes that spell `value`, least significant
/// byte first.
pub fn write_le(out: &mut Vec<u8>, value: u64, width: usize)
    ensures
        final(out)@ == old(out)@ + le_bytes(value as nat, width as nat),
{
    let ghost before = out@;
    let mut rest: u64 = value;
    let mut i: usize = 0;
    while i < width
        invariant
            i <= width,
            out@ + le_bytes(rest as nat, (width - i) as nat) == before + le_bytes(
                value as nat,
                width as nat,
            ),
        decreases width - i,
    {
        out.push((rest % 256) as u8);
        rest = rest / 256;
        i = i + 1;
    }
}

/// The signed number that the eight bytes of `bits` stand for.
pub fn i64_from_bits(bits: u64) -> (number: i64)
    ensures
        number == as_signed(bits as nat, 8),
{
    proof {
        lemma_radix_values();
    }
    if bits >= 0x8000_0000_0000_0000 {
        (bits - 0x8000_0000_0000_0000) as i64 + i64::MIN
    } else {
        bits as i64
    }
}

/// The eight bytes, as an unsigned number, that stand for `number`.
pub fn i64_to_bits(number: i64) -> (bits: u64)
    ensures
        bits == as_unsigned(number as int, 8),
{
    proof {
        lemma_radix_values();
    }
    if number < 0 {
        (number - i64::MIN) as u64 + 0x8000_0000_0000_0000
    } else {
        number as u64
    }
}

/// The signed number that the four bytes of `bits` stand for.
pub fn i32_from_bits(bits: u32) -> (number: i32)
    ensures
        number == as_signed(bits as nat, 4),
{
    proof {
        lemma_radix_values();
    }
    if bits >= 0x8000_0000 {
        (bits - 0x8000_0000) as i32 + i32::MIN
    } else {
        bits as i32
    }
}

/// The four bytes, as an unsigned number, that stand for `number`.
pub fn i32_to_bits(number: i32) -> (bits: u32)
    ensures
        bits == as_unsigned(number as int, 4),
{
    proof {
        lemma_radix_values();
    }
    if number < 0 {
        (number - i32::MIN) as u32 + 0x8000_0000
    } else {
        number as u32
    }
}

} // verus!
