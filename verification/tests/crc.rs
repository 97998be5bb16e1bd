use thermometer::address::DeviceAddress;
use thermometer::crc::{compute_crc8, update_crc8};

#[test]
fn checksum_of_nothing_is_the_start_value() {
    assert_eq!(compute_crc8(0, &[]), 0);
    assert_eq!(compute_crc8(0x5A, &[]), 0x5A);
}

#[test]
fn checksum_of_known_messages() {
    assert_eq!(update_crc8(0, 0), 0);
    assert_eq!(update_crc8(0, 1), 0x5E);
    assert_eq!(update_crc8(0, 0x80), 0x8C);
    assert_eq!(compute_crc8(0, &[0x02, 0x1C, 0xB8, 0x01, 0x00, 0x00, 0x00]), 0xA2);
    assert_eq!(compute_crc8(0, b"123456789"), 0xA1);
}

#[test]
fn message_followed_by_its_checksum_sums_to_zero() {
    assert_eq!(compute_crc8(0, &[0x02, 0x1C, 0xB8, 0x01, 0x00, 0x00, 0x00, 0xA2]), 0);
}

#[test]
fn checksum_can_be_continued() {
    let whole = compute_crc8(0, &[0x28, 0xFF, 0x64, 0x1E, 0x0F, 0x9A, 0x03]);
    let head = compute_crc8(0, &[0x28, 0xFF, 0x64]);
    assert_eq!(compute_crc8(head, &[0x1E, 0x0F, 0x9A, 0x03]), whole);
}

#[test]
fn byte_step_agrees_with_the_bus_driver_crate() {
    for crc in 0..=u8::MAX {
        for byte in 0..=u8::MAX {
            assert_eq!(update_crc8(crc, byte), onewire::compute_partial_crc8(crc, &[byte]));
        }
    }
}

#[test]
fn checksum_agrees_with_the_bus_driver_crate() {
    let mut message: Vec<u8> = Vec::new();
    let mut seed: u32 = 0x1234_5678;
    for _ in 0..64 {
        seed = seed.wrapping_mul(1_664_525).wrapping_add(1_013_904_223);
        message.push((seed >> 24) as u8);
        assert_eq!(compute_crc8(0, &message), onewire::compute_partial_crc8(0, &message));
        assert_eq!(compute_crc8(0xC3, &message), onewire::compute_partial_crc8(0xC3, &message));
    }
}

#[test]
fn address_is_intact_exactly_when_it_carries_its_checksum() {
    let prefix = [0x28, 0xFF, 0x64, 0x1E, 0x0F, 0x9A, 0x03];
    let crc = compute_crc8(0, &prefix);
    for last in 0..=u8::MAX {
        let mut bytes = [0u8; 8];
        bytes[..7].copy_from_slice(&prefix);
        bytes[7] = last;
        let address = DeviceAddress::new(bytes);
        assert_eq!(address.is_valid(), last == crc);
        assert_eq!(address.computed_checksum(), crc);
        assert_eq!(address.checksum(), last);
    }
}

#[test]
fn sealed_address_is_intact() {
    let address = DeviceAddress::sealed([0x02, 0x1C, 0xB8, 0x01, 0x00, 0x00, 0x00]);
    assert_eq!(address.bytes, [0x02, 0x1C, 0xB8, 0x01, 0x00, 0x00, 0x00, 0xA2]);
    assert!(address.is_valid());
    assert_eq!(address.family_code(), 0x02);
    assert_eq!(address.checksum(), 0xA2);
}

#[test]
fn every_single_flipped_bit_is_detected() {
    let prefixes = [
        [0x28, 0xFF, 0x64, 0x1E, 0x0F, 0x9A, 0x03],
        [0x00, 0x00, 0x00, 0x00, 0x00, 0x00, 0x00],
        [0xFF, 0xFF, 0xFF, 0xFF, 0xFF, 0xFF, 0xFF],
        [0x10, 0x50, 0xA9, 0x0A, 0x02, 0x08, 0x00],
    ];
    for prefix in prefixes {
        let intact = DeviceAddress::sealed(prefix);
        assert!(intact.is_valid());
        for byte in 0..8 {
            for bit in 0..8 {
                let mut bytes = intact.bytes;
                bytes[byte] ^= 1 << bit;
                assert!(!DeviceAddress::new(bytes).is_valid(), "byte {byte} bit {bit}");
            }
        }
    }
}

#[test]
fn blank_address_passes_the_checksum() {
    assert!(DeviceAddress::new([0; 8]).is_valid());
}
