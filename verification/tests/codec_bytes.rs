use suricato::attributes::Data;
use suricato::codec::{read_scalar_le, write_scalar_le};

#[test]
fn scalars_encode_little_endian() {
    let mut bytes = vec![0u8; 8];
    write_scalar_le(&mut bytes, 0, 0x0102_0304, 4);
    assert_eq!(bytes, vec![0x04, 0x03, 0x02, 0x01, 0, 0, 0, 0]);

    write_scalar_le(&mut bytes, 5, 0xBEEF, 2);
    assert_eq!(bytes, vec![0x04, 0x03, 0x02, 0x01, 0, 0xEF, 0xBE, 0]);

    write_scalar_le(&mut bytes, 4, 0x7F, 1);
    assert_eq!(bytes[4], 0x7F);
}

#[test]
fn scalars_decode_what_was_encoded() {
    let mut bytes = vec![0u8; 16];
    for (at, value, size) in [(0usize, 250u32, 1usize), (2, 0xFFFF, 2), (8, 0xDEAD_BEEF, 4)] {
        write_scalar_le(&mut bytes, at, value, size);
        assert_eq!(read_scalar_le(&bytes, at, size), value);
    }
}

#[test]
fn float_bits_round_trip_through_buffers() {
    let value = 1.0f32;
    let mut bytes = vec![0u8; 4];
    write_scalar_le(&mut bytes, 0, value.to_bits(), 4);
    assert_eq!(bytes, vec![0, 0, 128, 63]);
    assert_eq!(f32::from_bits(read_scalar_le(&bytes, 0, 4)), value);
}

#[test]
fn packed_bytes_match_the_typed_values_bit_exactly() {
    // Signed values serialize as two's complement, little-endian.
    let shorts = Data::Short(vec![-2, 515]);
    assert_eq!(shorts.to_bytes(), vec![0xFE, 0xFF, 0x03, 0x02]);

    let ints = Data::Int(vec![-1]);
    assert_eq!(ints.to_bytes(), vec![0xFF, 0xFF, 0xFF, 0xFF]);

    let bytes = Data::ByteVec2(vec![[-1, 2], [3, -4]]);
    assert_eq!(bytes.to_bytes(), vec![0xFF, 2, 3, 0xFC]);

    let floats = Data::Vec2(vec![[1.0f32.to_bits(), (-1.0f32).to_bits()]]);
    assert_eq!(floats.to_bytes(), vec![0, 0, 128, 63, 0, 0, 128, 191]);
}

#[test]
fn reading_back_a_packed_component_reproduces_it() {
    let values = vec![[10u32, 20, 30], [40, 50, 60]];
    let packed = Data::UnsignedIntVec3(values.clone()).to_bytes();
    for (v, element) in values.iter().enumerate() {
        for (c, expected) in element.iter().enumerate() {
            let at = v * 12 + c * 4;
            assert_eq!(read_scalar_le(&packed, at, 4), *expected);
        }
    }
}
