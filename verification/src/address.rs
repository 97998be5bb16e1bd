//! The 64-bit address of a single-wire device: family code, serial number
//! and checksum.

use vstd::prelude::*;
use crate::crc::{compute_crc8, crc8, lemma_crc8_detects_one_byte, update_crc8};

verus! {

/// Bytes in an address.
pub const ADDRESS_BYTES: usize = 8;

/// Whether eight address bytes carry the checksum of their first seven.
pub open spec fn checksum_holds(bytes: Seq<u8>) -> bool {
    &&& bytes.len() == 8
    &&& bytes[7] == crc8(0, bytes.take(7))
}

/// `bytes` with one bit of one byte inverted.
pub open spec fn with_bit_flipped(bytes: Seq<u8>, byte: int, bit: u8) -> Seq<u8> {
    bytes.update(byte, bytes[byte] ^ (1u8 << bit))
}

/// The address a device answers to: one byte of family code, six bytes of
/// serial number, one byte of checksum.
#[derive(Clone, Copy, Debug, PartialEq, Eq)]
pub struct DeviceAddress {
    pub bytes: [u8; 8],
}

impl View for DeviceAddress {
    type V = Seq<u8>;

    open spec fn view(&self) -> Seq<u8> {
        self.bytes@
    }
}

impl DeviceAddress {
    /// The address made of the eight bytes as they came off the bus.
    pub fn new(bytes: [u8; 8]) -> (address: DeviceAddress)
        ensures
            address@ == bytes@,
    {
        DeviceAddress { bytes }
    }

    /// The address that begins with `prefix` and ends with its checksum.
    pub fn sealed(prefix: [u8; 7]) -> (address: DeviceAddress)
        ensures
            address@.take(7) == prefix@,
            checksum_holds(address@),
    {
        let crc: u8 = compute_crc8(0, prefix.as_slice());
        let bytes: [u8; 8] = [
            prefix[0],
            prefix[1],
            prefix[2],
            prefix[3],
            prefix[4],
            prefix[5],
            prefix[6],
            crc,
        ];
        assert(bytes@.take(7) == prefix@);
        DeviceAddress { bytes }
    }

    /// The family code: which kind of device this is.
    pub fn family_code(&self) -> (code: u8)
        ensures
            code == self@[0],
    {
        self.bytes[0]
    }

    /// The checksum byte the address carries.
    pub fn checksum(&self) -> (carried: u8)
        ensures
            carried == self@[7],
    {
        self.bytes[7]
    }

    /// The checksum of the first seven bytes.
    pub fn computed_checksum(&self) -> (crc: u8)
        ensures
            crc == crc8(0, self@.take(7)),
    {
        let mut crc: u8 = 0;
        let mut at: usize = 0;
        while at < 7
            invariant
                at <= 7,
                crc == crc8(0, self@.take(at as int)),
            decreases 7 - at,
        {
            assert(self@.take(at + 1).drop_last() == self@.take(at as int));
            crc = update_crc8(crc, self.bytes[at]);
            at = at + 1;
        }
        crc
    }

    /// Whether the address is intact: its last byte is the checksum of the
    /// seven before it.
    pub fn is_valid(&self) -> (intact: bool)
        ensures
            intact == checksum_holds(self@),
    {
        self.computed_checksum() == self.bytes[7]
    }
}

/// No single inverted bit goes unnoticed: an intact address with any one of
/// its 64 bits inverted is not intact.
pub proof fn lemma_flipped_bit_detected(bytes: Seq<u8>, byte: int, bit: u8)
    requires
        checksum_holds(bytes),
        0 <= byte < 8,
        bit < 8,
    ensures
        !checksum_holds(with_bit_flipped(bytes, byte, bit)),
{
    let old_byte = bytes[byte];
    let new_byte = old_byte ^ (1u8 << bit);
    let flipped = with_bit_flipped(bytes, byte, bit);
    assert(new_byte != old_byte) by (bit_vector)
        requires
            bit < 8,
            new_byte == old_byte ^ (1u8 << bit),
    ;
    if byte == 7 {
        assert(flipped.take(7) == bytes.take(7));
    } else {
        lemma_crc8_detects_one_byte(0, bytes.take(7), flipped.take(7), byte);
    }
}

/// An intact address is settled by its first seven bytes: two intact
/// addresses that share them are the same address.
pub proof fn lemma_prefix_settles_address(a: Seq<u8>, b: Seq<u8>)
    requires
        checksum_holds(a),
        checksum_holds(b),
        a.take(7) == b.take(7),
    ensures
        a == b,
{
    assert forall|i: int| 0 <= i < 8 implies a[i] == b[i] by {
        if i < 7 {
            assert(a[i] == a.take(7)[i]);
            assert(b[i] == b.take(7)[i]);
        }
    }
    assert(a =~= b);
}

} // verus!
