use elf_info::codec::{encoding, value, value_abs, DecodeError, Value, NO_VALUE};

#[test]
fn decodes_each_unsigned_width() {
    assert_eq!(value(0x02, &[0x34, 0x12, 0xff]), Ok((2, Value::Unsigned(0x1234))));
    assert_eq!(value(0x03, &[0x78, 0x56, 0x34, 0x12]), Ok((4, Value::Unsigned(0x1234_5678))));
    assert_eq!(
        value(0x04, &[0xef, 0xcd, 0xab, 0x89, 0x67, 0x45, 0x23, 0x01, 0x00]),
        Ok((8, Value::Unsigned(0x0123_4567_89ab_cdef)))
    );
}

#[test]
fn decodes_each_signed_width() {
    assert_eq!(value(0x0a, &[0xfe, 0xff]), Ok((2, Value::Signed(-2))));
    assert_eq!(value(0x0b, &[0x00, 0x00, 0x00, 0x80]), Ok((4, Value::Signed(-2147483648))));
    assert_eq!(value(0x0b, &[0x10, 0x00, 0x00, 0x00]), Ok((4, Value::Signed(16))));
    assert_eq!(value(0x0c, &[0xff; 8]), Ok((8, Value::Signed(-1))));
    assert_eq!(
        value(0x0c, &[0, 0, 0, 0, 0, 0, 0, 0x80]),
        Ok((8, Value::Signed(i64::MIN)))
    );
}

#[test]
fn the_base_nibble_does_not_change_the_decoded_value() {
    for base in [0x00u8, 0x10, 0x30] {
        assert_eq!(value(base | 0x0b, &[0xf0, 0xff, 0xff, 0xff]), Ok((4, Value::Signed(-16))));
        assert_eq!(value(base | 0x03, &[0xf0, 0xff, 0xff, 0xff]), Ok((4, Value::Unsigned(0xffff_fff0))));
    }
}

#[test]
fn a_short_buffer_is_truncated() {
    assert_eq!(value(0x02, &[0x01]), Err(DecodeError::Truncated));
    assert_eq!(value(0x03, &[1, 2, 3]), Err(DecodeError::Truncated));
    assert_eq!(value(0x04, &[1, 2, 3, 4, 5, 6, 7]), Err(DecodeError::Truncated));
    assert_eq!(value(0x0a, &[]), Err(DecodeError::Truncated));
    assert_eq!(value(0x0b, &[1, 2, 3]), Err(DecodeError::Truncated));
    assert_eq!(value(0x0c, &[1, 2, 3, 4, 5, 6, 7]), Err(DecodeError::Truncated));
}

#[test]
fn leb128_is_unsupported() {
    assert_eq!(value(0x01, &[0x7f]), Err(DecodeError::Unsupported));
    assert_eq!(value(0x09, &[0x7f]), Err(DecodeError::Unsupported));
    assert_eq!(value(0x11, &[]), Err(DecodeError::Unsupported));
}

#[test]
fn an_unknown_width_is_refused() {
    for format in [0x00u8, 0x05, 0x06, 0x07, 0x08, 0x0d, 0x0e, 0x0f] {
        assert_eq!(value(format, &[0; 16]), Err(DecodeError::UnknownWidth));
    }
    assert_eq!(value(NO_VALUE, &[0; 16]), Err(DecodeError::UnknownWidth));
}

#[test]
fn resolves_against_each_base() {
    assert_eq!(value_abs(0x03, Value::Unsigned(0x40), 0x1000, 0x2000), Ok(0x40));
    assert_eq!(value_abs(0x13, Value::Unsigned(0x40), 0x1000, 0x2000), Ok(0x1040));
    assert_eq!(value_abs(0x33, Value::Unsigned(0x40), 0x1000, 0x2000), Ok(0x2040));
    assert_eq!(value_abs(0x1b, Value::Signed(-0x40), 0x1000, 0x2000), Ok(0xfc0));
    assert_eq!(value_abs(0x3b, Value::Signed(-0x40), 0x1000, 0x2000), Ok(0x1fc0));
    assert_eq!(value_abs(0x0b, Value::Signed(7), 0x1000, 0x2000), Ok(7));
}

#[test]
fn an_unknown_base_is_refused() {
    for base in [0x20u8, 0x40, 0x50, 0x80, 0xf0] {
        assert_eq!(
            value_abs(base | 0x03, Value::Unsigned(1), 0x1000, 0x2000),
            Err(DecodeError::UnknownBase)
        );
    }
}

#[test]
fn an_address_outside_64_bits_overflows() {
    assert_eq!(value_abs(0x13, Value::Unsigned(1), u64::MAX, 0), Err(DecodeError::Overflow));
    assert_eq!(value_abs(0x13, Value::Signed(1), u64::MAX, 0), Err(DecodeError::Overflow));
    assert_eq!(value_abs(0x0b, Value::Signed(-1), 5, 5), Err(DecodeError::Overflow));
    assert_eq!(value_abs(0x3b, Value::Signed(i64::MIN), 0, 0x7fff_ffff_ffff_ffff), Err(DecodeError::Overflow));
    assert_eq!(value_abs(0x3b, Value::Signed(i64::MIN), 0, 0x8000_0000_0000_0000), Ok(0));
    assert_eq!(value_abs(0x13, Value::Signed(1), 0x7fff_ffff_ffff_ffff, 0), Ok(0x8000_0000_0000_0000));
    assert_eq!(value_abs(0x13, Value::Unsigned(0), u64::MAX, 0), Ok(u64::MAX));
}

fn store(format: u8, number: i128) -> Vec<u8> {
    let width = match format & 0x07 {
        2 => 2,
        3 => 4,
        _ => 8,
    };
    let bits = (number as u128).to_le_bytes();
    bits[..width].to_vec()
}

#[test]
fn decode_then_resolve_gives_back_what_was_stored() {
    let pc = 0x40_1000u64;
    let start = 0x40_0000u64;
    let unsigned: [(u8, u64); 6] = [
        (0x02, 0),
        (0x02, 0xffff),
        (0x03, 0xdead_beef),
        (0x03, 0x7fff_ffff),
        (0x04, 0x0123_4567_89ab_cdef),
        (0x04, 0x7fff_ffff_ffbf_efff),
    ];
    let signed: [(u8, i64); 8] = [
        (0x0a, -1),
        (0x0a, i16::MAX as i64),
        (0x0a, i16::MIN as i64),
        (0x0b, -4096),
        (0x0b, i32::MAX as i64),
        (0x0b, i32::MIN as i64),
        (0x0c, -0x40_0000),
        (0x0c, 0x1234_5678_9abc),
    ];
    for (high, base) in [(0x00u8, 0u64), (0x10, pc), (0x30, start)] {
        for (format, n) in unsigned {
            let enc = high | format;
            let mut bytes = store(format, n as i128);
            let width = bytes.len();
            bytes.extend_from_slice(&[0xaa, 0xbb]);
            let (taken, v) = value(enc, &bytes).unwrap();
            assert_eq!(taken, width);
            assert_eq!(v, Value::Unsigned(n));
            assert_eq!(value_abs(enc, v, pc, start), Ok(base + n));
        }
        for (format, n) in signed {
            let enc = high | format;
            let bytes = store(format, n as i128);
            let (taken, v) = value(enc, &bytes).unwrap();
            assert_eq!(taken, bytes.len());
            assert_eq!(v, Value::Signed(n));
            let sum = base as i128 + n as i128;
            if sum < 0 {
                assert_eq!(value_abs(enc, v, pc, start), Err(DecodeError::Overflow));
            } else {
                assert_eq!(value_abs(enc, v, pc, start), Ok(sum as u64));
            }
        }
    }
}

#[test]
fn describes_a_descriptor() {
    assert_eq!(encoding(0x1b), "0x1b (i32, relative to program counter)\n");
    assert_eq!(encoding(0x03), "0x03 (u32, as is)\n");
    assert_eq!(encoding(0x3b), "0x3b (i32, relative to .eh_frame_hdr start)\n");
    assert_eq!(encoding(0xff), "0xff (no value)\n");
    assert_eq!(encoding(0x01), "0x01 (unsigned LEB128, as is)\n");
    assert_eq!(encoding(0x09), "0x09 (signed LEB128, as is)\n");
    assert_eq!(encoding(0x02), "0x02 (u16, as is)\n");
    assert_eq!(encoding(0x04), "0x04 (u64, as is)\n");
    assert_eq!(encoding(0x0a), "0x0a (i16, as is)\n");
    assert_eq!(encoding(0x0c), "0x0c (i64, as is)\n");
    assert_eq!(encoding(0x25), "0x25 (???, ???)\n");
}
