use script_codec::{
    from_num, iter_words, opcode_from_name, parse_asm, parse_asm_checked, AsmParseErrorKind,
    LockTime, ParseAsmError,
};

fn assemble(input: &str) -> Result<Vec<u8>, ParseAsmError> {
    parse_asm(input).map(|s| s.as_bytes().to_vec())
}

#[test]
fn op_0_assembles_to_empty_push() {
    assert_eq!(assemble("OP_0"), Ok(vec![0x00]));
}

#[test]
fn pushbytes_with_hex_operand() {
    assert_eq!(assemble("OP_PUSHBYTES_1 ff"), Ok(vec![0x01, 0xff]));
}

#[test]
fn non_minimal_push_request_rejected() {
    assert_eq!(
        assemble("OP_PUSHDATA1 00"),
        Err(ParseAsmError {
            position: (0, 0),
            kind: AsmParseErrorKind::NonMinimalBytePush,
        })
    );
}

#[test]
fn unknown_instruction() {
    assert_eq!(
        assemble("deadbeefgg"),
        Err(ParseAsmError {
            position: (0, 0),
            kind: AsmParseErrorKind::UnknownInstruction,
        })
    );
}

#[test]
fn angle_brackets_strip_to_same_number() {
    assert_eq!(assemble("<5>"), assemble("5"));
    assert_eq!(assemble("5"), Ok(vec![0x55]));
}

#[test]
fn plain_opcodes() {
    assert_eq!(assemble("OP_DUP OP_HASH160"), Ok(vec![0x76, 0xa9]));
    assert_eq!(assemble("OP_CHECKSIG"), Ok(vec![0xac]));
}

#[test]
fn raw_hex_push_with_and_without_prefix() {
    assert_eq!(assemble("deadbeef"), Ok(vec![0x04, 0xde, 0xad, 0xbe, 0xef]));
    assert_eq!(assemble("0xdeadbeef"), Ok(vec![0x04, 0xde, 0xad, 0xbe, 0xef]));
    assert_eq!(assemble("<0xdeadbeef>"), Ok(vec![0x04, 0xde, 0xad, 0xbe, 0xef]));
}

#[test]
fn integer_pushes() {
    assert_eq!(assemble("-1"), Ok(vec![0x4f]));
    assert_eq!(assemble("0"), Ok(vec![0x00]));
    assert_eq!(assemble("16"), Ok(vec![0x60]));
    assert_eq!(assemble("17"), Ok(vec![0x01, 0x11]));
    assert_eq!(assemble("255"), Ok(vec![0x02, 0xff, 0x00]));
    assert_eq!(assemble("-255"), Ok(vec![0x02, 0xff, 0x80]));
}

#[test]
fn push_opcode_without_operand_is_eof() {
    assert_eq!(
        assemble("OP_PUSHBYTES_2"),
        Err(ParseAsmError {
            position: (0, 0),
            kind: AsmParseErrorKind::UnexpectedEOF,
        })
    );
}

#[test]
fn invalid_hex_reported_at_operand() {
    assert_eq!(
        assemble("OP_PUSHBYTES_1 zz"),
        Err(ParseAsmError {
            position: (0, 1),
            kind: AsmParseErrorKind::InvalidHex,
        })
    );
}

#[test]
fn operand_length_must_match_push_mnemonic() {
    assert_eq!(
        assemble("OP_PUSHBYTES_2 ff"),
        Err(ParseAsmError {
            position: (0, 0),
            kind: AsmParseErrorKind::NonMinimalBytePush,
        })
    );
    assert_eq!(assemble("OP_PUSHBYTES_2 ffee"), Ok(vec![0x02, 0xff, 0xee]));
}

#[test]
fn comments_and_positions() {
    assert_eq!(assemble("OP_DUP # OP_HASH160"), Ok(vec![0x76]));
    assert_eq!(assemble("OP_DUP // OP_HASH160"), Ok(vec![0x76]));
    assert_eq!(assemble("# nothing\n// nothing\n"), Ok(vec![]));
    assert_eq!(
        assemble("OP_DUP\nOP_DUP bad?"),
        Err(ParseAsmError {
            position: (1, 1),
            kind: AsmParseErrorKind::UnknownInstruction,
        })
    );
}

#[test]
fn error_aborts_whole_translation() {
    assert_eq!(
        assemble("OP_DUP zz OP_DUP"),
        Err(ParseAsmError {
            position: (0, 1),
            kind: AsmParseErrorKind::UnknownInstruction,
        })
    );
}

#[test]
fn empty_bracket_word_pushes_empty() {
    assert_eq!(assemble("<>"), Ok(vec![0x00]));
}

#[test]
fn pushdata_mnemonics_accept_matching_lengths() {
    let payload = "ab".repeat(76);
    let mut expected = vec![0x4c, 76];
    expected.extend(std::iter::repeat(0xab).take(76));
    assert_eq!(assemble(&format!("OP_PUSHDATA1 {}", payload)), Ok(expected));
}

#[test]
fn words_carry_line_and_word_positions() {
    let ws = iter_words("a bb\n\n c # x\n// y\nz");
    let got: Vec<(usize, usize, String)> = ws
        .iter()
        .map(|w| (w.line, w.word, w.text.iter().collect::<String>()))
        .collect();
    assert_eq!(
        got,
        vec![
            (0, 0, "a".to_string()),
            (0, 1, "bb".to_string()),
            (2, 0, "c".to_string()),
            (4, 0, "z".to_string()),
        ]
    );
}

#[test]
fn opcode_table_lookups() {
    let chars = |s: &str| s.chars().collect::<Vec<char>>();
    assert_eq!(opcode_from_name(&chars("OP_DUP")), Some(0x76));
    assert_eq!(opcode_from_name(&chars("OP_PUSHBYTES_0")), Some(0x00));
    assert_eq!(opcode_from_name(&chars("OP_PUSHDATA4")), Some(0x4e));
    assert_eq!(opcode_from_name(&chars("OP_INVALIDOPCODE")), Some(0xff));
    assert_eq!(opcode_from_name(&chars("OP_0")), None);
    assert_eq!(opcode_from_name(&chars("nonsense")), None);
}

#[test]
fn checked_entry_screens_unencodable_integer() {
    assert!(parse_asm_checked("-9223372036854775808").is_none());
    assert!(parse_asm_checked("<-9223372036854775808>").is_none());
    let r = parse_asm_checked("-9223372036854775807 OP_DUP").unwrap();
    let bytes = r.unwrap().as_bytes().to_vec();
    assert_eq!(bytes[0], 0x08);
    assert_eq!(bytes.len(), 10);
}

#[test]
fn locktime_disable_flag_yields_nothing() {
    assert_eq!(from_num(0x8000_0005), None);
    assert_eq!(from_num(-1), None);
    assert_eq!(from_num(0x1_0000_0000), None);
}

#[test]
fn locktime_type_flag_selects_time() {
    assert_eq!(from_num(0x0040_0005), Some(LockTime::Time(5)));
    assert_eq!(from_num(5), Some(LockTime::Height(5)));
    assert_eq!(from_num(0), Some(LockTime::Height(0)));
    assert_eq!(from_num(0x0040_0000), Some(LockTime::Time(0)));
}

#[test]
fn pushdata2_header_is_little_endian() {
    let payload = "cd".repeat(256);
    let mut expected = vec![0x4d, 0x00, 0x01];
    expected.extend(std::iter::repeat(0xcd).take(256));
    assert_eq!(assemble(&format!("OP_PUSHDATA2 {}", payload)), Ok(expected.clone()));
    // A raw hex word of the same payload pushes it with the same header.
    assert_eq!(assemble(&payload), Ok(expected));
}

#[test]
fn bare_hex_prefix_pushes_empty() {
    assert_eq!(assemble("0x"), Ok(vec![0x00]));
}

#[test]
fn plus_sign_and_leading_zeros_parse_as_numbers() {
    assert_eq!(assemble("+5"), assemble("5"));
    assert_eq!(assemble("007"), Ok(vec![0x57]));
}

#[test]
fn tabs_and_carriage_returns_separate_words() {
    assert_eq!(assemble("OP_DUP\tOP_DUP\r\nOP_DUP"), Ok(vec![0x76, 0x76, 0x76]));
}

#[test]
fn renamed_timelock_opcodes_resolve() {
    assert_eq!(assemble("OP_CLTV"), Ok(vec![0xb1]));
    assert_eq!(assemble("OP_CSV"), Ok(vec![0xb2]));
}

#[test]
fn locktime_ignores_bits_between_payload_and_flags() {
    assert_eq!(from_num(0x0001_0005), Some(LockTime::Height(5)));
    assert_eq!(from_num(0x0040_FFFF), Some(LockTime::Time(0xFFFF)));
}
