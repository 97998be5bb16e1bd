//! The 8-bit cyclic redundancy check of single-wire devices: polynomial
//! x^8 + x^5 + x^4 + 1, fed least significant bit first (0x8C reflected).

use vstd::prelude::*;

verus! {

/// One step of the shift register: shift right, and fold the polynomial in
/// when a one was shifted out.
pub open spec fn shift_step(register: u8) -> u8 {
    if register & 1 == 1 {
        (register >> 1) ^ 0x8C
    } else {
        register >> 1
    }
}

/// `steps` steps of the shift register.
pub open spec fn shift_steps(register: u8, steps: nat) -> u8
    decreases steps,
{
    if steps == 0 {
        register
    } else {
        shift_step(shift_steps(register, (steps - 1) as nat))
    }
}

/// The checksum after one more byte.
pub open spec fn crc8_byte(crc: u8, byte: u8) -> u8 {
    shift_steps(crc ^ byte, 8)
}

/// The checksum of `data`, continued from `crc`.
pub open spec fn crc8(crc: u8, data: Seq<u8>) -> u8
    decreases data.len(),
{
    if data.len() == 0 {
        crc
    } else {
        crc8_byte(crc8(crc, data.drop_last()), data.last())
    }
}

/// Continues the checksum `crc` with one byte.
pub fn update_crc8(crc: u8, byte: u8) -> (next: u8)
    ensures
        next == crc8_byte(crc, byte),
{
    let mut register: u8 = crc ^ byte;
    let mut done: u8 = 0;
    while done < 8
        invariant
            done <= 8,
            register == shift_steps(crc ^ byte, done as nat),
        decreases 8 - done,
    {
        register = if register & 1 == 1 {
            (register >> 1) ^ 0x8C
        } else {
            register >> 1
        };
        done = done + 1;
    }
    register
}

/// Continues the checksum `crc` with all of `data`.
pub fn compute_crc8(crc: u8, data: &[u8]) -> (out: u8)
    ensures
        out == crc8(crc, data@),
{
    let mut out: u8 = crc;
    let mut at: usize = 0;
    while at < data.len()
        invariant
            at <= data.len(),
            out == crc8(crc, data@.take(at as int)),
        decreases data.len() - at,
    {
        assert(data@.take(at + 1).drop_last() == data@.take(at as int));
        out = update_crc8(out, data[at]);
        at = at + 1;
    }
    assert(data@.take(at as int) == data@);
    out
}

/// Two registers that agree after a step agreed before it.
proof fn lemma_shift_step_injective(a: u8, b: u8)
    requires
        shift_step(a) == shift_step(b),
    ensures
        a == b,
{
    assert(shift_step(a) == shift_step(b) ==> a == b) by (bit_vector);
}

/// Two registers that agree after some steps agreed before them.
proof fn lemma_shift_steps_injective(a: u8, b: u8, steps: nat)
    requires
        shift_steps(a, steps) == shift_steps(b, steps),
    ensures
        a == b,
    decreases steps,
{
    if steps > 0 {
        lemma_shift_step_injective(
            shift_steps(a, (steps - 1) as nat),
            shift_steps(b, (steps - 1) as nat),
        );
        lemma_shift_steps_injective(a, b, (steps - 1) as nat);
    }
}

/// A byte step loses nothing: from the same checksum two different bytes
/// lead to different checksums, and the same byte keeps two different
/// checksums apart.
pub proof fn lemma_crc8_byte_injective(crc_a: u8, byte_a: u8, crc_b: u8, byte_b: u8)
    requires
        crc8_byte(crc_a, byte_a) == crc8_byte(crc_b, byte_b),
    ensures
        crc_a == crc_b ==> byte_a == byte_b,
        byte_a == byte_b ==> crc_a == crc_b,
{
    lemma_shift_steps_injective(crc_a ^ byte_a, crc_b ^ byte_b, 8);
    assert(crc_a ^ byte_a == crc_b ^ byte_b ==> (crc_a == crc_b <==> byte_a == byte_b))
        by (bit_vector);
}

/// The checksum tells apart any two messages of one length that differ in
/// exactly one byte.
pub proof fn lemma_crc8_detects_one_byte(crc: u8, a: Seq<u8>, b: Seq<u8>, at: int)
    requires
        a.len() == b.len(),
        0 <= at < a.len(),
        a[at] != b[at],
        forall|i: int| 0 <= i < a.len() && i != at ==> a[i] == b[i],
    ensures
        crc8(crc, a) != crc8(crc, b),
    decreases a.len(),
{
    if at == a.len() - 1 {
        assert(a.drop_last() == b.drop_last());
    } else {
        lemma_crc8_detects_one_byte(crc, a.drop_last(), b.drop_last(), at);
    }
    if crc8(crc, a) == crc8(crc, b) {
        lemma_crc8_byte_injective(
            crc8(crc, a.drop_last()),
            a.last(),
            crc8(crc, b.drop_last()),
            b.last(),
        );
    }
}

} // verus!
