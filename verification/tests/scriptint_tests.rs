use script_codec::{
    read_scriptint, read_scriptint_size, scriptint_parse, scriptint_vec, write_scriptint,
    ExecError, ScriptIntError,
};

#[test]
fn roundtrip_four_byte_range() {
    let cases: [i64; 12] = [
        0,
        1,
        -1,
        127,
        -128,
        255,
        -255,
        0x1234,
        -0x1234,
        0x7FFF_FFFF,
        -0x7FFF_FFFF,
        1000000,
    ];
    for &n in cases.iter() {
        let mut buf = [0u8; 8];
        let len = write_scriptint(&mut buf, n);
        assert_eq!(read_scriptint(&buf[..len], 4, true), Ok(n), "value {}", n);
    }
}

#[test]
fn minimality_rejection() {
    assert_eq!(
        read_scriptint_size(&[0x00], 4, true),
        Err(ScriptIntError::NonMinimalPush)
    );
    assert_eq!(read_scriptint(&[0x00], 4, true), Err(ExecError::MinimalData));
    assert_eq!(read_scriptint(&[], 4, true), Ok(0));
}

#[test]
fn negative_zero_rejected() {
    assert_eq!(
        read_scriptint_size(&[0x80], 4, true),
        Err(ScriptIntError::NonMinimalPush)
    );
}

#[test]
fn trailing_sign_byte_allowed_when_required() {
    // 0xff00 little-endian is +255: the zero byte only carries the sign bit.
    assert_eq!(read_scriptint_size(&[0xFF, 0x00], 4, true), Ok(255));
    assert_eq!(read_scriptint_size(&[0xFF, 0x80], 4, true), Ok(-255));
    // A trailing zero after a byte without its top bit set is non-minimal.
    assert_eq!(
        read_scriptint_size(&[0x7F, 0x00], 4, true),
        Err(ScriptIntError::NonMinimalPush)
    );
}

#[test]
fn sign_bit_boundary_encodings() {
    assert_eq!(scriptint_vec(255), vec![0xFF, 0x00]);
    assert_eq!(scriptint_vec(-255), vec![0xFF, 0x80]);
    assert_eq!(scriptint_vec(127), vec![0x7F]);
    assert_eq!(scriptint_vec(-128), vec![0x80, 0x80]);
}

#[test]
fn zero_encodes_to_nothing() {
    assert_eq!(scriptint_vec(0), Vec::<u8>::new());
    let mut buf = [0xAAu8; 8];
    assert_eq!(write_scriptint(&mut buf, 0), 0);
    assert_eq!(buf, [0xAAu8; 8]);
}

#[test]
fn numeric_overflow_on_long_input() {
    assert_eq!(
        read_scriptint_size(&[1, 2, 3, 4, 5], 4, true),
        Err(ScriptIntError::NumericOverflow)
    );
    assert_eq!(
        read_scriptint(&[1, 2, 3, 4, 5], 4, false),
        Err(ExecError::ScriptIntNumericOverflow)
    );
}

#[test]
fn non_minimal_accepted_when_not_required() {
    assert_eq!(read_scriptint_size(&[0x00], 4, false), Ok(0));
    assert_eq!(read_scriptint_size(&[0x7F, 0x00], 4, false), Ok(127));
}

#[test]
fn parse_exact_values() {
    assert_eq!(scriptint_parse(&[0x7F]), 127);
    assert_eq!(scriptint_parse(&[0x80, 0x80]), -128);
    assert_eq!(scriptint_parse(&[0x01, 0x02]), 0x0201);
    assert_eq!(scriptint_parse(&[0x01, 0x82]), -0x0201);
}

#[test]
fn wide_sizes_decode() {
    // Eight bytes with the sign bit set in the top byte.
    assert_eq!(
        read_scriptint_size(&[0xFF; 8], 8, false),
        Ok(-0x7FFF_FFFF_FFFF_FFFF)
    );
    assert_eq!(
        read_scriptint_size(&[0xFF, 0xFF, 0xFF, 0xFF, 0xFF, 0xFF, 0xFF, 0x7F], 8, true),
        Ok(0x7FFF_FFFF_FFFF_FFFF)
    );
}

#[test]
fn error_messages() {
    assert_eq!(ScriptIntError::NonMinimalPush.message(), "non-minimal datapush");
    assert_eq!(
        ScriptIntError::NumericOverflow.message(),
        "numeric overflow (number on stack larger than 4 bytes)"
    );
}
