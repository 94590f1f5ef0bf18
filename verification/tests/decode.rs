use meter_poll::decode::{
    decode_registers, encode_registers, registers_from_be_bytes, registers_to_be_bytes,
    u32_from_be_bytes, u32_to_be_bytes,
};

#[test]
fn decodes_pi_like_value() {
    let bits = decode_registers(&[0x4048, 0xF5C3]).unwrap();
    assert_eq!(bits, 0x4048_F5C3);
    assert_eq!(registers_to_be_bytes(&[0x4048, 0xF5C3]), vec![0x40, 0x48, 0xF5, 0xC3]);
    let value = f32::from_bits(bits);
    assert!((value - 3.14).abs() < 1e-6, "{}", value);
    assert_eq!(format!("{:.6}", value), "3.140000");
}

#[test]
fn decodes_twelve_and_a_half() {
    let bits = decode_registers(&[0x4148, 0x0000]).unwrap();
    assert_eq!(f32::from_bits(bits), 12.5);
}

#[test]
fn first_register_is_the_upper_half() {
    assert_eq!(decode_registers(&[0x0001, 0x0000]), Some(0x0001_0000));
    assert_eq!(decode_registers(&[0x0000, 0x0001]), Some(0x0000_0001));
    assert_eq!(decode_registers(&[0xFFFF, 0xFFFF]), Some(0xFFFF_FFFF));
    assert_eq!(decode_registers(&[0x0000, 0x0000]), Some(0));
    assert_eq!(decode_registers(&[0x1234, 0x5678]), Some(0x1234_5678));
}

#[test]
fn short_payload_does_not_decode() {
    assert_eq!(decode_registers(&[]), None);
    assert_eq!(decode_registers(&[0x4048]), None);
}

#[test]
fn long_payload_does_not_decode() {
    assert_eq!(decode_registers(&[0x4048, 0xF5C3, 0xABCD]), None);
    assert_eq!(decode_registers(&[0x4048, 0xF5C3, 0, 0]), None);
    assert_eq!(decode_registers(&[0x4048, 0xF5C3, 0, 0, 0xFFFF]), None);
}

#[test]
fn only_two_registers_decode() {
    for len in 0..8usize {
        let words = vec![0x4048u16; len];
        assert_eq!(decode_registers(&words).is_some(), len == 2, "{} registers", len);
    }
}

#[test]
fn encode_splits_the_pattern_in_halves() {
    assert_eq!(encode_registers(0x4048_F5C3), vec![0x4048, 0xF5C3]);
    assert_eq!(encode_registers(0), vec![0, 0]);
    assert_eq!(encode_registers(0xFFFF_FFFF), vec![0xFFFF, 0xFFFF]);
    assert_eq!(encode_registers(0x0001_8000), vec![0x0001, 0x8000]);
    assert_eq!(encode_registers(12.5f32.to_bits()), vec![0x4148, 0x0000]);
}

#[test]
fn float_round_trip_is_bit_exact() {
    let values = [
        0.0f32,
        -0.0,
        1.0,
        -1.0,
        3.14,
        12.5,
        230.1,
        49.98,
        f32::MIN,
        f32::MAX,
        f32::MIN_POSITIVE,
        f32::EPSILON,
        f32::INFINITY,
        f32::NEG_INFINITY,
        f32::NAN,
        f32::from_bits(0x0000_0001),
        f32::from_bits(0x7FC0_1234),
        f32::from_bits(0xFFFF_FFFF),
    ];
    for value in values {
        let bytes = value.to_be_bytes();
        let words = registers_from_be_bytes(&bytes);
        assert_eq!(words.len(), 2);
        assert_eq!(words, encode_registers(value.to_bits()));
        let bits = decode_registers(&words).unwrap();
        assert_eq!(bits, value.to_bits());
        assert_eq!(f32::from_bits(bits).to_bits(), value.to_bits());
    }
}

#[test]
fn pattern_round_trip_over_a_sweep() {
    let mut bits: u32 = 0;
    for _ in 0..10_000 {
        assert_eq!(decode_registers(&encode_registers(bits)), Some(bits));
        bits = bits.wrapping_mul(1_664_525).wrapping_add(1_013_904_223);
    }
}

#[test]
fn registers_round_trip_over_a_sweep() {
    let mut seed: u32 = 7;
    for _ in 0..10_000 {
        seed = seed.wrapping_mul(1_664_525).wrapping_add(1_013_904_223);
        let words = vec![(seed >> 16) as u16, (seed & 0xFFFF) as u16];
        let bits = decode_registers(&words).unwrap();
        assert_eq!(encode_registers(bits), words);
    }
}

#[test]
fn registers_to_bytes_puts_the_high_byte_first() {
    assert_eq!(registers_to_be_bytes(&[]), Vec::<u8>::new());
    assert_eq!(registers_to_be_bytes(&[0x0102]), vec![0x01, 0x02]);
    assert_eq!(registers_to_be_bytes(&[0x0102, 0xA0B0, 0x00FF]), vec![0x01, 0x02, 0xA0, 0xB0, 0x00, 0xFF]);
}

#[test]
fn registers_to_bytes_agrees_with_std() {
    let words = [0x0000u16, 0x0001, 0x00FF, 0x0100, 0x7FFF, 0x8000, 0xFFFF, 0x4048, 0xF5C3];
    let expected: Vec<u8> = words.iter().flat_map(|w| w.to_be_bytes()).collect();
    assert_eq!(registers_to_be_bytes(&words), expected);
}

#[test]
fn bytes_to_registers_reads_pairs() {
    assert_eq!(registers_from_be_bytes(&[]), Vec::<u16>::new());
    assert_eq!(registers_from_be_bytes(&[0x40, 0x48, 0xF5, 0xC3]), vec![0x4048, 0xF5C3]);
    assert_eq!(registers_from_be_bytes(&[0x01, 0x02, 0x03]), vec![0x0102]);
    assert_eq!(registers_from_be_bytes(&[0x01]), Vec::<u16>::new());
}

#[test]
fn registers_survive_the_way_through_bytes() {
    let words = vec![0x0000u16, 0xFFFF, 0x1234, 0x8001, 0x00FF, 0xFF00];
    assert_eq!(registers_from_be_bytes(&registers_to_be_bytes(&words)), words);
}

#[test]
fn pattern_from_bytes_needs_four_bytes() {
    assert_eq!(u32_from_be_bytes(&[]), None);
    assert_eq!(u32_from_be_bytes(&[0x40, 0x48, 0xF5]), None);
    assert_eq!(u32_from_be_bytes(&[0x40, 0x48, 0xF5, 0xC3]), Some(0x4048_F5C3));
    assert_eq!(u32_from_be_bytes(&[0x40, 0x48, 0xF5, 0xC3, 0x99]), None);
    assert_eq!(u32_from_be_bytes(&[0xFF, 0x00, 0x00, 0x01]), Some(0xFF00_0001));
}

#[test]
fn pattern_to_bytes_agrees_with_std() {
    for bits in [0u32, 1, 0xFF, 0x100, 0x4048_F5C3, 0x8000_0000, 0xFFFF_FFFF, 0x0102_0304] {
        assert_eq!(u32_to_be_bytes(bits), bits.to_be_bytes().to_vec());
        assert_eq!(u32_from_be_bytes(&bits.to_be_bytes()), Some(u32::from_be_bytes(bits.to_be_bytes())));
    }
    assert_eq!(u32_to_be_bytes(0x0102_0304), vec![0x01, 0x02, 0x03, 0x04]);
}
