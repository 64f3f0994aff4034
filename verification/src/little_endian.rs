//! Little-endian positional notation in base 256.
//!
//! Every fixed-width number of the storage format is written as its base-256
//! digits, least significant digit first. Signed numbers are written in two's
//! complement.

use vstd::prelude::*;

verus! {

/// `256` to the power `width`: the number of values that `width` bytes can hold.
pub open spec fn radix_pow(width: nat) -> nat
    decreases width,
{
    if width == 0 {
        1
    } else {
        256 * radix_pow((width - 1) as nat)
    }
}

/// The `width` least significant base-256 digits of `value`, least significant first.
pub open spec fn le_bytes(value: nat, width: nat) -> Seq<u8>
    decreases width,
{
    if width == 0 {
        Seq::empty()
    } else {
        seq![(value % 256) as u8] + le_bytes(value / 256, (width - 1) as nat)
    }
}

/// The number whose base-256 digits, least significant first, are `bytes`.
pub open spec fn le_value(bytes: Seq<u8>) -> nat
    decreases bytes.len(),
{
    if bytes.len() == 0 {
        0
    } else {
        bytes[0] as nat + 256 * le_value(bytes.drop_first())
    }
}

/// The unsigned number that stands for `value` in two's complement on `width` bytes.
pub open spec fn twos_complement(value: int, width: nat) -> nat {
    if value < 0 {
        (value + radix_pow(width)) as nat
    } else {
        value as nat
    }
}

/// The signed number that `code` stands for in two's complement on `width` bytes.
pub open spec fn from_twos_complement(code: nat, width: nat) -> int {
    if 2 * code >= radix_pow(width) {
        code - radix_pow(width)
    } else {
        code as int
    }
}

/// Whether `value` can be written as a signed number on `width` bytes.
pub open spec fn fits_signed(value: int, width: nat) -> bool {
    -(radix_pow(width) as int) <= 2 * value < radix_pow(width)
}

/// A power of 256 is at least one.
pub proof fn lemma_radix_pow_positive(width: nat)
    ensures
        radix_pow(width) >= 1,
    decreases width,
{
    if width > 0 {
        lemma_radix_pow_positive((width - 1) as nat);
    }
}

/// The widths of the storage format, as numbers.
pub proof fn lemma_radix_pow_values()
    ensures
        radix_pow(1) == 0x100,
        radix_pow(2) == 0x1_0000,
        radix_pow(4) == 0x1_0000_0000,
        radix_pow(8) == 0x1_0000_0000_0000_0000,
        radix_pow(16) == 0x1_0000_0000_0000_0000_0000_0000_0000_0000,
{
    reveal_with_fuel(radix_pow, 17);
}

/// A number written on `width` bytes takes `width` bytes.
pub proof fn lemma_le_bytes_len(value: nat, width: nat)
    ensures
        le_bytes(value, width).len() == width,
    decreases width,
{
    if width > 0 {
        lemma_le_bytes_len(value / 256, (width - 1) as nat);
    }
}

/// What some bytes stand for is less than the number of values that they can hold.
pub proof fn lemma_le_value_bound(bytes: Seq<u8>)
    ensures
        le_value(bytes) < radix_pow(bytes.len()),
    decreases bytes.len(),
{
    if bytes.len() > 0 {
        lemma_le_value_bound(bytes.drop_first());
    }
}

/// Reading the digits of a number that fits gives the number back.
pub proof fn lemma_le_value_of_bytes(value: nat, width: nat)
    requires
        value < radix_pow(width),
    ensures
        le_value(le_bytes(value, width)) == value,
    decreases width,
{
    if width > 0 {
        let rest = le_bytes(value / 256, (width - 1) as nat);
        let all = le_bytes(value, width);
        assert(all.drop_first() =~= rest);
        lemma_le_value_of_bytes(value / 256, (width - 1) as nat);
    }
}

/// A signed number that fits is what its code in two's complement stands for.
pub proof fn lemma_twos_complement_round_trip(value: int, width: nat)
    requires
        fits_signed(value, width),
    ensures
        twos_complement(value, width) < radix_pow(width),
        from_twos_complement(twos_complement(value, width), width) == value,
{
}

/// More bytes hold at least as many values.
pub proof fn lemma_radix_pow_monotonic(low: nat, high: nat)
    requires
        low <= high,
    ensures
        radix_pow(low) <= radix_pow(high),
    decreases high,
{
    if low < high {
        lemma_radix_pow_monotonic(low, (high - 1) as nat);
        lemma_radix_pow_positive((high - 1) as nat);
    }
}

/// Reads an unsigned number of at most sixteen bytes.
pub fn read_le(data: &[u8]) -> (value: u128)
    requires
        data@.len() <= 16,
    ensures
        value == le_value(data@),
{
    let mut value: u128 = 0;
    let mut at: usize = data.len();
    assert(data@.skip(at as int) =~= Seq::<u8>::empty());
    while at > 0
        invariant
            at <= data@.len() <= 16,
            value == le_value(data@.skip(at as int)),
        decreases at,
    {
        at = at - 1;
        proof {
            let tail = data@.skip(at as int);
            assert(tail.drop_first() =~= data@.skip(at + 1));
            lemma_le_value_bound(tail.drop_first());
            lemma_le_value_bound(tail);
            lemma_radix_pow_monotonic(tail.len(), 16);
            lemma_radix_pow_values();
        }
        value = value * 256 + data[at] as u128;
    }
    assert(data@.skip(0) =~= data@);
    value
}

/// Writes the `width` least significant bytes of an unsigned number.
pub fn write_le(value: u128, width: usize) -> (bytes: Vec<u8>)
    ensures
        bytes@ == le_bytes(value as nat, width as nat),
{
    let mut bytes: Vec<u8> = Vec::new();
    let mut rest: u128 = value;
    let mut done: usize = 0;
    while done < width
        invariant
            done <= width,
            bytes@.len() == done,
            bytes@ + le_bytes(rest as nat, (width - done) as nat) == le_bytes(
                value as nat,
                width as nat,
            ),
        decreases width - done,
    {
        let ghost before = bytes@;
        bytes.push((rest % 256) as u8);
        proof {
            let tail = le_bytes((rest / 256) as nat, (width - done - 1) as nat);
            assert(bytes@ + tail =~= before + le_bytes(rest as nat, (width - done) as nat));
        }
        rest = rest / 256;
        done = done + 1;
    }
    assert(bytes@ + Seq::<u8>::empty() =~= bytes@);
    bytes
}

/// Reads a signed number of at most sixteen bytes, written in two's complement.
pub fn read_le_signed(data: &[u8]) -> (value: i128)
    requires
        1 <= data@.len() <= 16,
    ensures
        value == from_twos_complement(le_value(data@), data@.len()),
{
    let code: u128 = read_le(data);
    proof {
        lemma_le_value_bound(data@);
        lemma_radix_pow_values();
    }
    if data.len() == 16 {
        if code >= 0x8000_0000_0000_0000_0000_0000_0000_0000 {
            -((u128::MAX - code) as i128) - 1
        } else {
            code as i128
        }
    } else {
        let modulus: u128 = modulus_of(data.len());
        if code >= modulus / 2 {
            code as i128 - modulus as i128
        } else {
            code as i128
        }
    }
}

/// Writes the `width` bytes that stand for a signed number in two's complement.
pub fn write_le_signed(value: i128, width: usize) -> (bytes: Vec<u8>)
    requires
        1 <= width <= 16,
        fits_signed(value as int, width as nat),
    ensures
        bytes@ == le_bytes(twos_complement(value as int, width as nat), width as nat),
{
    proof {
        lemma_radix_pow_values();
    }
    let code: u128 = if value >= 0 {
        value as u128
    } else if width == 16 {
        u128::MAX - ((-(value + 1)) as u128)
    } else {
        let modulus: u128 = modulus_of(width);
        (modulus as i128 + value) as u128
    };
    write_le(code, width)
}

/// The number of values that `width` bytes can hold, for fewer than sixteen bytes.
fn modulus_of(width: usize) -> (modulus: u128)
    requires
        width < 16,
    ensures
        modulus == radix_pow(width as nat),
        modulus % 2 == 0 || width == 0,
        modulus <= 0x1_0000_0000_0000_0000_0000_0000_0000_00,
{
    let mut modulus: u128 = 1;
    let mut done: usize = 0;
    while done < width
        invariant
            done <= width < 16,
            modulus == radix_pow(done as nat),
            modulus % 2 == 0 || done == 0,
        decreases width - done,
    {
        proof {
            lemma_radix_pow_monotonic((done + 1) as nat, 15);
            reveal_with_fuel(radix_pow, 16);
        }
        modulus = modulus * 256;
        done = done + 1;
    }
    proof {
        lemma_radix_pow_monotonic(width as nat, 15);
        reveal_with_fuel(radix_pow, 16);
    }
    modulus
}

} // verus!
