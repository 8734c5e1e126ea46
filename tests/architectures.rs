use decode_harness::harness::{check_decoded, Failure};
use decode_harness::{aarch64, pic, sparcv9, superh4, v850, x86, z80};

#[test]
fn aarch64_tokens_are_little_endian() {
    let i = aarch64::Instruction { addr: 0, token: 0xD503201F, result: "nop".to_string() };
    assert_eq!(i.tokens(), [0x1F, 0x20, 0x03, 0xD5]);
}

#[test]
fn aarch64_record_advances_four() {
    let i = aarch64::Instruction { addr: 0x4000, token: 0xD503201F, result: "nop".to_string() };
    let good = |t: &[u8], a: u64| {
        assert_eq!(t, &[0x1F, 0x20, 0x03, 0xD5]);
        Some((a + 4, "nop".to_string()))
    };
    assert!(aarch64::test_instruction(&i, &good).is_ok());
    let short = |_: &[u8], a: u64| Some((a + 2, "nop".to_string()));
    assert!(matches!(aarch64::test_instruction(&i, &short), Err(Failure::Mismatch { .. })));
}

#[test]
fn aarch64_address_overflow_is_a_mismatch() {
    let i = aarch64::Instruction { addr: u64::MAX, token: 0, result: "udf".to_string() };
    let wraps = |_: &[u8], a: u64| Some((a.wrapping_add(4), "udf".to_string()));
    assert!(matches!(aarch64::test_instruction(&i, &wraps), Err(Failure::Mismatch { .. })));
}

#[test]
fn sparc_tokens_are_big_endian() {
    let i = sparcv9::Instruction { addr: 0, token: 0x01000000, result: "nop".to_string() };
    assert_eq!(i.to_tokens(), [0x01, 0x00, 0x00, 0x00]);
    let ok = |_: &[u8], a: u32| Some((a + 4, "nop".to_string()));
    assert!(sparcv9::test_instruction(&i, &ok).is_ok());
}

#[test]
fn superh_tokens_follow_byte_order() {
    let i = superh4::Instruction { addr: 0x100, token: 0x6123, result: "mov r2,r1".to_string() };
    assert_eq!(i.to_tokens(true), [0x61, 0x23]);
    assert_eq!(i.to_tokens(false), [0x23, 0x61]);
    let ok = |t: &[u8], a: u32| {
        assert_eq!(t, &[0x23, 0x61]);
        Some((a + 2, "mov r2,r1".to_string()))
    };
    assert!(superh4::test_instruction(&i, false, &ok).is_ok());
}

#[test]
fn superh_undecodable_reports_tokens() {
    let i = superh4::Instruction { addr: 0, token: 0xFFFD, result: "x".to_string() };
    let none = |_: &[u8], _: u32| None;
    match superh4::test_instruction(&i, true, &none) {
        Err(Failure::Undecodable { tokens, expected }) => {
            assert_eq!(tokens, vec![0xFF, 0xFD]);
            assert_eq!(expected, "x");
        }
        other => panic!("unexpected {:?}", other),
    }
}

#[test]
fn pic_advances_one_word() {
    let i = pic::Instruction { addr: 0x10, token: 0x0A05, result: "goto 0x5".to_string() };
    assert_eq!(i.to_tokens(false), [0x05, 0x0A]);
    let ok = |_: &[u8], a: u16| Some((a + 1, "goto 0x5".to_string()));
    assert!(pic::test_instruction(&i, false, &ok).is_ok());
    let by_bytes = |_: &[u8], a: u16| Some((a + 2, "goto 0x5".to_string()));
    assert!(matches!(pic::test_instruction(&i, false, &by_bytes), Err(Failure::Mismatch { .. })));
}

#[test]
fn v850_tokens() {
    assert_eq!(v850::Token::Two(0x1234).to_tokens(), vec![0x34, 0x12]);
    assert_eq!(v850::Token::Four(0x12345678).to_tokens(), vec![0x78, 0x56, 0x34, 0x12]);
}

#[test]
fn v850_from_serialized_row() {
    let row = v850::InstructionSerialized {
        addr: 8,
        token_value: 0x1234,
        token_type: v850::TokenType::Two,
        result: "mov r4, r2".to_string(),
    };
    let i = v850::Instruction::from_serialized(row.clone());
    assert_eq!(i.addr, 8);
    assert_eq!(i.token, v850::Token::Two(0x1234));
    assert_eq!(i.result, "mov r4, r2");
    assert!(!v850::TokenType::Two.fits(0x12345));
    assert!(v850::TokenType::Two.fits(0xFFFF));
    assert!(v850::TokenType::Four.fits(0x12345));
    let four = v850::InstructionSerialized { token_value: 0x12345, token_type: v850::TokenType::Four, ..row };
    assert_eq!(v850::Instruction::from_serialized(four).token, v850::Token::Four(0x12345));
}

#[test]
fn v850_record_advances_by_token_width() {
    let i = v850::Instruction { addr: 0x10, token: v850::Token::Four(0x12345678), result: "jr".to_string() };
    let ok = |_: &[u8], a: u32| Some((a + 4, "jr".to_string()));
    assert!(v850::test_instruction(&i, &ok).is_ok());
    let two = |_: &[u8], a: u32| Some((a + 2, "jr".to_string()));
    assert!(v850::test_instruction(&i, &two).is_err());
}

#[test]
fn z80_tokens() {
    assert_eq!(z80::Token::One(0x76).to_tokens(), vec![0x76]);
    assert_eq!(z80::Token::Two(0xED44).to_tokens(), vec![0xED, 0x44]);
    assert_eq!(z80::Token::Three(0x00C30010).to_tokens(), vec![0xC3, 0x00, 0x10]);
    assert_eq!(z80::Token::Three(0xFFC30010).to_tokens(), vec![0xC3, 0x00, 0x10]);
}

#[test]
fn z80_from_serialized_row() {
    let row = z80::InstructionSerialized {
        addr: 0x100,
        token_value: 0x1ff,
        token_type: z80::TokenType::One,
        result: "halt".to_string(),
    };
    assert!(!row.token_type.fits(row.token_value));
    assert!(z80::TokenType::One.fits(0xFF));
    assert!(!z80::TokenType::Two.fits(0x1_0000));
    assert!(z80::TokenType::Two.fits(0xFFFF));
    assert!(z80::TokenType::Three.fits(u32::MAX));
    let one = z80::InstructionSerialized { token_value: 0x76, ..row.clone() };
    assert_eq!(z80::Instruction::from_serialized(one).token, z80::Token::One(0x76));
    let three = z80::InstructionSerialized { token_value: 0xC30010, token_type: z80::TokenType::Three, ..row };
    assert_eq!(z80::Instruction::from_serialized(three).token, z80::Token::Three(0xC30010));
}

#[test]
fn z80_record_advances_by_token_width() {
    let i = z80::Instruction { addr: 0x100, token: z80::Token::Three(0xC30010), result: "jp 0x1000".to_string() };
    let ok = |t: &[u8], a: u16| {
        assert_eq!(t, &[0xC3, 0x00, 0x10]);
        Some((a + 3, "jp 0x1000".to_string()))
    };
    assert!(z80::test_instruction(&i, &ok).is_ok());
}

#[test]
fn x86_hex_tokens() {
    assert_eq!(x86::parse_hex(b"4889e5"), Some(vec![0x48, 0x89, 0xe5]));
    assert_eq!(x86::parse_hex(b"C3"), Some(vec![0xc3]));
    assert_eq!(x86::parse_hex(b"abc"), Some(vec![0xab, 0x0c]));
    assert_eq!(x86::parse_hex(b""), Some(vec![]));
    assert_eq!(x86::parse_hex(b"4g"), None);
    assert_eq!(x86::parse_hex(b"48 89"), None);
}

#[test]
fn x86_from_serialized_row() {
    let row = x86::InstructionSerialized { addr: 0x401000, token: "31c0".to_string(), result: "xor eax,eax".to_string() };
    let i = x86::Instruction::from_serialized(row.clone());
    assert_eq!(i.addr, 0x401000);
    assert_eq!(i.token, vec![0x31, 0xc0]);
    assert_eq!(i.result, "xor eax,eax");
    assert!(x86::parse_hex(b"zz").is_none());
}

#[test]
fn x86_record_advances_by_token_length() {
    let i = x86::Instruction { addr: 0x1000, token: vec![0x48, 0x89, 0xe5], result: "mov rbp,rsp".to_string() };
    let ok = |t: &[u8], a: u64| Some((a + t.len() as u64, "mov rbp,rsp".to_string()));
    assert!(x86::test_instruction(&i, &ok).is_ok());
    let bad = |_: &[u8], a: u64| Some((a + 1, "mov rbp,rsp".to_string()));
    assert!(x86::test_instruction(&i, &bad).is_err());
}

#[test]
fn check_decoded_verdicts() {
    let expected = "nop".to_string();
    assert!(check_decoded(&[0x90], 10, 1, &expected, Some((11, "nop".to_string()))).is_ok());
    assert!(matches!(
        check_decoded(&[0x90], 10, 1, &expected, None),
        Err(Failure::Undecodable { .. })
    ));
    assert!(matches!(
        check_decoded(&[0x90], 10, 1, &expected, Some((11, "nop ".to_string()))),
        Err(Failure::Mismatch { .. })
    ));
    assert!(matches!(
        check_decoded(&[0x90], u64::MAX, 1, &expected, Some((0, "nop".to_string()))),
        Err(Failure::Mismatch { .. })
    ));
}

#[test]
fn v850_tokens_read_back() {
    let t = v850::Token::Four(0xDEADBEEF).to_tokens();
    assert_eq!(u32::from_le_bytes([t[0], t[1], t[2], t[3]]), 0xDEADBEEF);
    let t = v850::Token::Two(0xBEEF).to_tokens();
    assert_eq!(u16::from_le_bytes([t[0], t[1]]), 0xBEEF);
}

#[test]
fn z80_tokens_read_back() {
    let t = z80::Token::Three(0x123456).to_tokens();
    assert_eq!(u32::from_be_bytes([0, t[0], t[1], t[2]]), 0x123456);
    let t = z80::Token::Two(0xED44).to_tokens();
    assert_eq!(u16::from_be_bytes([t[0], t[1]]), 0xED44);
}
