use ferrum::bytecode::chunk::Chunk;
use ferrum::bytecode::opcode::{NumeralType, OpCode, OpCodeError};
use ferrum::vm::{Effect, FloatOp, Stack, VMError, VM};

#[test]
fn stack_push_and_pop() {
    let mut stack: Stack<16> = Stack::new();
    assert!(stack.is_empty());
    assert_eq!(stack.len(), 0);
    assert_eq!(stack.cap(), 16);
    stack.push(&[1, 2, 3]);
    assert_eq!(stack.len(), 3);
    assert!(!stack.is_empty());
    stack.push_value(0x0605u16);
    assert_eq!(stack.len(), 5);
    assert_eq!(stack.get(0), Some(1));
    assert_eq!(stack.get(3), Some(5));
    assert_eq!(stack.get(4), Some(6));
    assert_eq!(stack.get(5), Some(0));
    assert_eq!(stack.get(16), None);
    let mut top = vec![0u8; 2];
    stack.pop_to(&mut top);
    assert_eq!(top, vec![5, 6]);
    assert_eq!(stack.len(), 3);
    stack.pop(1);
    assert_eq!(stack.len(), 2);
    let word: u16 = stack.pop_value();
    assert_eq!(word, 0x0201);
    assert!(stack.is_empty());
    assert_eq!(stack.get(4), Some(6));
}

#[test]
fn stack_dump_shows_the_bytes_in_use() {
    let mut stack: Stack<8> = Stack::new();
    assert_eq!(stack.dump(), "[  ]");
    stack.push(&[0x0a]);
    assert_eq!(stack.dump(), "[ 0a ]");
    stack.push(&[0xff, 0x10, 0x9c]);
    assert_eq!(stack.dump(), "[ 0a, ff, 10, 9c ]");
    stack.pop(2);
    assert_eq!(stack.dump(), "[ 0a, ff ]");
}

#[test]
fn machine_describes_itself() {
    let mut vm = VM::new(program());
    assert_eq!(
        vm.describe().unwrap(),
        "0000  0000-000  CONST                0               8\n      [  ]"
    );
    vm.step().unwrap();
    assert_eq!(
        vm.describe().unwrap(),
        "0003     |-006  NEG   F64\n      [ 33, 33, 33, 33, 33, 33, f3, 3f ]"
    );
}

#[test]
fn stack_can_be_filled() {
    let mut stack: Stack<4> = Stack::new();
    stack.push_value(0xaabbccddu32);
    assert_eq!(stack.len(), 4);
    let back: u32 = stack.pop_value();
    assert_eq!(back, 0xaabbccdd);
    stack.push_value(-5i8);
    let back: i8 = stack.pop_value();
    assert_eq!(back, -5);
}

fn program() -> Chunk {
    let mut chunk = Chunk::new(String::from("main"));
    chunk.write(OpCode::Const(0, 8), 0, 0);
    chunk.write_value(0x3ff3_3333_3333_3333u64);
    chunk.write(OpCode::Neg(NumeralType::F64), 0, 6);
    chunk.write(OpCode::Const(8, 8), 1, 0);
    chunk.write_value(0x4000_0000_0000_0000u64);
    chunk.write(OpCode::Mul(NumeralType::F64), 2, 16);
    chunk.write(OpCode::Ret, 2, 0);
    chunk
}

#[test]
fn machine_runs_a_program_with_the_host_doing_the_floats() {
    let mut vm = VM::new(program());
    assert!(vm.is_active);
    assert_eq!(vm.exit_code, 0);
    assert_eq!(vm.ip(), 0);
    assert_eq!(vm.peak(), Some(1));
    assert_eq!(vm.step().unwrap(), Effect::Done);
    assert_eq!(vm.ip(), 3);
    assert_eq!(vm.stack().len(), 8);
    assert_eq!(vm.step().unwrap(), Effect::Negate(0x3ff3_3333_3333_3333));
    assert_eq!(vm.stack().len(), 0);
    assert!(vm.push_bits(0xbff3_3333_3333_3333));
    assert_eq!(vm.step().unwrap(), Effect::Done);
    assert_eq!(vm.stack().len(), 16);
    assert_eq!(
        vm.step().unwrap(),
        Effect::Binary(FloatOp::Mul, 0xbff3_3333_3333_3333, 0x4000_0000_0000_0000)
    );
    assert!(vm.push_bits(0xc003_3333_3333_3333));
    assert!(vm.is_active);
    assert_eq!(vm.step().unwrap(), Effect::Halt(0xc003_3333_3333_3333));
    assert!(!vm.is_active);
    assert_eq!(vm.exit_code, 0x33);
    assert_eq!(vm.peak(), None);
    assert!(matches!(vm.step(), Err(VMError::UnexpectedEoF)));
    assert_eq!(vm.chunk().code().len(), 11);
}

#[test]
fn fetch_decodes_and_advances() {
    let mut vm = VM::new(program());
    assert_eq!(vm.fetch().unwrap(), OpCode::Const(0, 8));
    assert_eq!(vm.ip(), 3);
    assert_eq!(vm.fetch().unwrap(), OpCode::Neg(NumeralType::F64));
    assert_eq!(vm.ip(), 5);
}

#[test]
fn machine_negates_bytes() {
    let mut chunk = Chunk::new(String::from("main"));
    chunk.write(OpCode::Const(0, 1), 0, 0);
    chunk.write_value(5i8);
    chunk.write(OpCode::Neg(NumeralType::I8), 0, 0);
    chunk.write(OpCode::Neg(NumeralType::I8), 0, 0);
    let mut vm = VM::new(chunk);
    vm.step().unwrap();
    assert_eq!(vm.step().unwrap(), Effect::Done);
    assert_eq!(vm.stack().get(0), Some(0xfb));
    assert_eq!(vm.step().unwrap(), Effect::Done);
    assert_eq!(vm.stack().get(0), Some(5));
    assert_eq!(vm.stack().len(), 1);
}

#[test]
fn machine_faults() {
    let mut chunk = Chunk::new(String::from("main"));
    chunk.write(OpCode::Neg(NumeralType::I8), 0, 0);
    chunk.write(OpCode::Const(0, 1), 0, 0);
    chunk.write(OpCode::Neg(NumeralType::I8), 0, 0);
    chunk.write(OpCode::Add(NumeralType::F64), 0, 0);
    chunk.write(OpCode::Neg(NumeralType::F64), 0, 0);
    chunk.write(OpCode::Ret, 0, 0);
    chunk.write(OpCode::Const(1, 1), 0, 0);
    chunk.write(OpCode::Add(NumeralType::I32), 0, 0);
    chunk.write_value(-128i8);
    let mut vm = VM::new(chunk);
    assert!(matches!(vm.step(), Err(VMError::RuntimeError(text)) if text == "stack underflow"));
    assert_eq!(vm.step().unwrap(), Effect::Done);
    assert!(matches!(vm.step(), Err(VMError::RuntimeError(text)) if text == "overflow"));
    assert_eq!(vm.stack().len(), 1);
    assert!(matches!(vm.step(), Err(VMError::RuntimeError(text)) if text == "stack underflow"));
    assert!(matches!(vm.step(), Err(VMError::RuntimeError(text)) if text == "stack underflow"));
    assert!(matches!(vm.step(), Err(VMError::RuntimeError(text)) if text == "stack underflow"));
    assert!(vm.is_active);
    assert!(
        matches!(vm.step(), Err(VMError::RuntimeError(text)) if text == "constant out of range")
    );
    assert_eq!(vm.step().unwrap(), Effect::Done);
    assert_eq!(vm.stack().len(), 1);
}

#[test]
fn machine_stack_overflow() {
    let mut chunk = Chunk::new(String::from("main"));
    for _ in 0..33 {
        chunk.write(OpCode::Const(0, 8), 0, 0);
    }
    chunk.write(OpCode::Ret, 0, 0);
    chunk.write_value(1u64);
    let mut vm = VM::new(chunk);
    for _ in 0..32 {
        assert_eq!(vm.step().unwrap(), Effect::Done);
    }
    assert_eq!(vm.stack().len(), 256);
    assert!(!vm.push_bits(0));
    assert!(matches!(vm.step(), Err(VMError::RuntimeError(text)) if text == "stack overflow"));
    assert_eq!(vm.step().unwrap(), Effect::Done);
    assert!(vm.is_active);
}

#[test]
fn machine_rejects_unknown_bytes() {
    let mut chunk = Chunk::new(String::from("main"));
    chunk.write(OpCode::Const(9, 9), 0, 0);
    let mut vm = VM::new(chunk);
    assert_eq!(vm.fetch().unwrap(), OpCode::Const(9, 9));
    let mut chunk = Chunk::new(String::from("main"));
    chunk.write(OpCode::Const(0, 9), 0, 0);
    chunk.write(OpCode::Const(0, 9), 0, 0);
    let mut bytes = Vec::new();
    OpCode::Add(NumeralType::I8).write(&mut bytes);
    assert_eq!(bytes, vec![3, 0]);
    let mut vm = VM::new(chunk);
    vm.fetch().unwrap();
    vm.fetch().unwrap();
    assert!(matches!(vm.fetch(), Err(VMError::UnexpectedEoF)));
    let e = VMError::UnknownOpCode(OpCodeError::IllegalOpcode(9));
    assert!(matches!(e.clone(), VMError::UnknownOpCode(OpCodeError::IllegalOpcode(9))));
}
