use ferrum::bytecode::chunk::{Chunk, CodeRef, Value};
use ferrum::bytecode::opcode::{NumeralType, OpCode, OpCodeError};
use ferrum::bytecode::text::{space_padded, zero_padded};

#[test]
fn numeral_type_sizes() {
    let expected = [
        (NumeralType::I8, 1),
        (NumeralType::I16, 2),
        (NumeralType::I32, 4),
        (NumeralType::I64, 8),
        (NumeralType::I128, 16),
        (NumeralType::U8, 1),
        (NumeralType::U16, 2),
        (NumeralType::U32, 4),
        (NumeralType::U64, 8),
        (NumeralType::U128, 16),
        (NumeralType::F32, 4),
        (NumeralType::F64, 8),
    ];
    for (ty, size) in expected {
        assert_eq!(ty.size(), size);
    }
}

#[test]
fn numeral_type_ids_round_trip() {
    let all = [
        NumeralType::I8,
        NumeralType::I16,
        NumeralType::I32,
        NumeralType::I64,
        NumeralType::I128,
        NumeralType::U8,
        NumeralType::U16,
        NumeralType::U32,
        NumeralType::U64,
        NumeralType::U128,
        NumeralType::F32,
        NumeralType::F64,
    ];
    for (i, ty) in all.iter().enumerate() {
        let id: u8 = (*ty).into();
        assert_eq!(id as usize, i);
        assert_eq!(NumeralType::try_from(id), Ok(*ty));
        assert_eq!(format!("{:?}", ty), ty.name());
    }
    assert_eq!(NumeralType::try_from(12), Err(OpCodeError::IllegalNumeralType(12)));
    assert_eq!(NumeralType::try_from(255), Err(OpCodeError::IllegalNumeralType(255)));
}

#[test]
fn opcode_error_messages() {
    assert_eq!(OpCodeError::IllegalOpcode(9).message(), "There is no opcode with id 9");
    assert_eq!(
        OpCodeError::IllegalNumeralType(200).message(),
        "There is no numeral type with id 200"
    );
}

#[test]
fn opcode_encoding() {
    let cases: Vec<(OpCode, Vec<u8>)> = vec![
        (OpCode::Ret, vec![0]),
        (OpCode::Const(7, 8), vec![1, 7, 8]),
        (OpCode::Neg(NumeralType::F64), vec![2, 11]),
        (OpCode::Add(NumeralType::I8), vec![3, 0]),
        (OpCode::Sub(NumeralType::U8), vec![4, 5]),
        (OpCode::Mul(NumeralType::F32), vec![5, 10]),
        (OpCode::Div(NumeralType::U128), vec![6, 9]),
    ];
    for (op, bytes) in cases {
        let mut out = vec![0xaa];
        op.write(&mut out);
        assert_eq!(&out[1..], &bytes[..]);
        assert_eq!(out[0], 0xaa);
        assert_eq!(op.size(), bytes.len());
        assert_eq!(OpCode::decode(&bytes, 0), Ok(op));
    }
}

#[test]
fn opcode_decoding_errors() {
    assert_eq!(OpCode::decode(&[7], 0), Err(OpCodeError::IllegalOpcode(7)));
    assert_eq!(OpCode::decode(&[0, 255], 1), Err(OpCodeError::IllegalOpcode(255)));
    assert_eq!(OpCode::decode(&[3, 12], 0), Err(OpCodeError::IllegalNumeralType(12)));
    assert_eq!(OpCode::decode(&[9, 9, 3, 1], 2), Ok(OpCode::Add(NumeralType::I16)));
}

#[test]
fn padded_numbers() {
    assert_eq!(zero_padded(0, 4), "0000");
    assert_eq!(zero_padded(7, 4), "0007");
    assert_eq!(zero_padded(123, 3), "123");
    assert_eq!(zero_padded(65535, 4), "65535");
    assert_eq!(zero_padded(10, 0), "10");
    assert_eq!(space_padded(8, 16), "               8");
    assert_eq!(space_padded(255, 16), "             255");
    assert_eq!(space_padded(usize::MAX, 3), usize::MAX.to_string());
}

#[test]
fn opcode_listing_lines() {
    let lines = [(0u16, 0u16), (0, 6), (0, 6), (1, 0), (12345, 7)];
    assert_eq!(
        OpCode::Ret.disassemble(0, &lines),
        (String::from("0000  0000-000  RET\n"), 1)
    );
    assert_eq!(
        OpCode::Neg(NumeralType::F64).disassemble(1, &lines),
        (String::from("0001     |-006  NEG   F64\n"), 3)
    );
    assert_eq!(
        OpCode::Const(0, 8).disassemble(3, &lines),
        (
            String::from("0003  0001-000  CONST                0               8\n"),
            6
        )
    );
    assert_eq!(
        OpCode::Mul(NumeralType::I128).disassemble(4, &lines),
        (String::from("0004  12345-007  MUL   I128\n"), 6)
    );
    assert_eq!(
        OpCode::Add(NumeralType::U8).disassemble(2, &lines).0,
        "0002     |-006  ADD   U8\n"
    );
    assert_eq!(
        OpCode::Sub(NumeralType::U8).disassemble(2, &lines).0,
        "0002     |-006  SUB   U8\n"
    );
    assert_eq!(
        OpCode::Div(NumeralType::U8).disassemble(2, &lines).0,
        "0002     |-006  DIV   U8\n"
    );
}

#[test]
fn chunk_write_records_code_and_lines() {
    let mut chunk = Chunk::new(String::from("main"));
    assert_eq!(chunk.name(), "main");
    assert_eq!(chunk.write(OpCode::Const(0, 8), 0, 0), CodeRef { pos: 0, size: 3 });
    assert_eq!(chunk.write(OpCode::Neg(NumeralType::F64), 0, 6), CodeRef { pos: 3, size: 2 });
    assert_eq!(chunk.write(OpCode::Ret, 2, 0), CodeRef { pos: 5, size: 1 });
    assert_eq!(chunk.code(), &[1, 0, 8, 2, 11, 0]);
    assert_eq!(chunk.lines(), &[(0, 0), (0, 0), (0, 0), (0, 6), (0, 6), (2, 0)]);
    assert!(chunk.vals().is_empty());
}

#[test]
fn chunk_write_value_appends_little_endian() {
    let mut chunk = Chunk::new(String::from("main"));
    assert_eq!(chunk.write_value(0x0102u16), 0);
    assert_eq!(chunk.write_value(0xffu8), 2);
    assert_eq!(chunk.write_value(-2i32), 3);
    assert_eq!(chunk.vals(), &[0x02, 0x01, 0xff, 0xfe, 0xff, 0xff, 0xff]);
    assert!(chunk.code().is_empty());
}

#[test]
fn chunk_clear_keeps_the_lines() {
    let mut chunk = Chunk::new(String::from("main"));
    chunk.write(OpCode::Ret, 3, 4);
    chunk.write_value(1u8);
    chunk.clear();
    assert!(chunk.code().is_empty());
    assert!(chunk.vals().is_empty());
    assert_eq!(chunk.lines(), &[(3, 4)]);
    assert_eq!(chunk.name(), "main");
}

#[test]
fn chunk_listing() {
    let mut chunk = Chunk::new(String::from("main"));
    chunk.write(OpCode::Const(0, 8), 0, 0);
    chunk.write(OpCode::Neg(NumeralType::F64), 0, 6);
    chunk.write(OpCode::Ret, 2, 0);
    let all = "0000  0000-000  CONST                0               8\n\
               0003     |-006  NEG   F64\n\
               0005  0002-000  RET\n";
    assert_eq!(chunk.disassemble(0, 10).unwrap(), all);
    assert_eq!(chunk.disassemble(0, 3).unwrap(), all);
    assert_eq!(
        chunk.disassemble(0, 1).unwrap(),
        "0000  0000-000  CONST                0               8\n"
    );
    assert_eq!(chunk.disassemble(5, 1).unwrap(), "0005  0002-000  RET\n");
    assert_eq!(chunk.disassemble(0, 0).unwrap(), "");
    assert_eq!(chunk.disassemble(6, 10).unwrap(), "");
    assert_eq!(chunk.disassemble(2, 10), Err(OpCodeError::IllegalOpcode(8)));
    assert!(chunk.holds_instruction(0));
    assert!(chunk.holds_instruction(5));
    assert!(!chunk.holds_instruction(6));
}

#[test]
fn chunk_listing_stops_at_a_cut_instruction() {
    let mut chunk = Chunk::new(String::from("main"));
    chunk.write(OpCode::Ret, 0, 0);
    chunk.write(OpCode::Ret, 0, 0);
    chunk.write(OpCode::Const(1, 2), 0, 0);
    assert_eq!(chunk.code(), &[0, 0, 1, 1, 2]);
    assert!(chunk.holds_instruction(1));
    assert!(chunk.holds_instruction(2));
    assert!(!chunk.holds_instruction(3));
    assert!(!chunk.holds_instruction(4));
    assert!(!chunk.holds_instruction(5));
    assert_eq!(chunk.disassemble(3, 10).unwrap(), "");
    assert_eq!(chunk.disassemble(4, 10).unwrap(), "");
    assert_eq!(
        chunk.disassemble(1, 10).unwrap(),
        "0001     |-000  RET\n0002     |-000  CONST                1               2\n"
    );
}

#[test]
fn values_round_trip() {
    assert_eq!(0x12u8.to_bits(), [0x12]);
    assert_eq!((-1i8).to_bits(), [0xff]);
    assert_eq!(0x1234u16.to_bits(), [0x34, 0x12]);
    assert_eq!((-2i16).to_bits(), [0xfe, 0xff]);
    assert_eq!(0x12345678u32.to_bits(), [0x78, 0x56, 0x34, 0x12]);
    assert_eq!((-2i32).to_bits(), [0xfe, 0xff, 0xff, 0xff]);
    assert_eq!(1u64.to_bits(), [1, 0, 0, 0, 0, 0, 0, 0]);
    assert_eq!((-1i64).to_bits(), [0xff; 8]);
    assert_eq!(1u128.to_bits()[0], 1);
    assert_eq!((-1i128).to_bits(), [0xff; 16]);
    assert_eq!(u8::from_bits([0x12]), 0x12);
    assert_eq!(i8::from_bits([0x80]), -128);
    assert_eq!(u16::from_bits([0x34, 0x12]), 0x1234);
    assert_eq!(i16::from_bits([0xfe, 0xff]), -2);
    assert_eq!(u32::from_bits([0x78, 0x56, 0x34, 0x12]), 0x12345678);
    assert_eq!(i32::from_bits([0xfe, 0xff, 0xff, 0xff]), -2);
    assert_eq!(u64::from_bits(0xdead_beef_u64.to_bits()), 0xdead_beef);
    assert_eq!(i64::from_bits(i64::MIN.to_bits()), i64::MIN);
    assert_eq!(u128::from_bits(u128::MAX.to_bits()), u128::MAX);
    assert_eq!(i128::from_bits(i128::MIN.to_bits()), i128::MIN);
}
