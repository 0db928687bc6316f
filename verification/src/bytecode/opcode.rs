use vstd::prelude::*;
use vstd::std_specs::convert::{FromSpecImpl, TryFromSpecImpl};
use vstd::string::StringExecFns;
use crate::bytecode::chunk::CodePos;
use crate::bytecode::text::{append_decimal, decimal, padded, space_padded, zero_padded};

verus! {

/// Why a byte sequence is no instruction.
#[derive(Clone, Copy, Debug, PartialEq, Eq, Structural)]
pub enum OpCodeError {
    IllegalOpcode(u8),
    IllegalNumeralType(u8),
}

impl OpCodeError {
    /// What the message says.
    pub open spec fn spec_message(self) -> Seq<char> {
        match self {
            OpCodeError::IllegalOpcode(id) => "There is no opcode with id "@ + decimal(id as nat),
            OpCodeError::IllegalNumeralType(id) => "There is no numeral type with id "@ + decimal(
                id as nat,
            ),
        }
    }

    /// The error in words.
    pub fn message(&self) -> (r: String)
        ensures
            r@ == self.spec_message(),
    {
        match self {
            OpCodeError::IllegalOpcode(id) => {
                let mut r = String::from_str("There is no opcode with id ");
                append_decimal(&mut r, *id as usize);
                r
            },
            OpCodeError::IllegalNumeralType(id) => {
                let mut r = String::from_str("There is no numeral type with id ");
                append_decimal(&mut r, *id as usize);
                r
            },
        }
    }
}

/// The number types that the machine computes with.
#[derive(Clone, Copy, Debug, PartialEq, Eq, Structural)]
pub enum NumeralType {
    I8,
    I16,
    I32,
    I64,
    I128,
    U8,
    U16,
    U32,
    U64,
    U128,
    F32,
    F64,
}

impl NumeralType {
    /// The width of the type in bytes.
    pub open spec fn spec_size(self) -> usize {
        match self {
            NumeralType::I8 => 1,
            NumeralType::I16 => 2,
            NumeralType::I32 => 4,
            NumeralType::I64 => 8,
            NumeralType::I128 => 16,
            NumeralType::U8 => 1,
            NumeralType::U16 => 2,
            NumeralType::U32 => 4,
            NumeralType::U64 => 8,
            NumeralType::U128 => 16,
            NumeralType::F32 => 4,
            NumeralType::F64 => 8,
        }
    }

    /// The byte that stands for the type in an instruction.
    pub open spec fn id(self) -> u8 {
        match self {
            NumeralType::I8 => 0,
            NumeralType::I16 => 1,
            NumeralType::I32 => 2,
            NumeralType::I64 => 3,
            NumeralType::I128 => 4,
            NumeralType::U8 => 5,
            NumeralType::U16 => 6,
            NumeralType::U32 => 7,
            NumeralType::U64 => 8,
            NumeralType::U128 => 9,
            NumeralType::F32 => 10,
            NumeralType::F64 => 11,
        }
    }

    /// The type that the byte stands for, if it stands for one.
    pub open spec fn of_id(id: u8) -> Result<NumeralType, OpCodeError> {
        if id == 0 {
            Ok(NumeralType::I8)
        } else if id == 1 {
            Ok(NumeralType::I16)
        } else if id == 2 {
            Ok(NumeralType::I32)
        } else if id == 3 {
            Ok(NumeralType::I64)
        } else if id == 4 {
            Ok(NumeralType::I128)
        } else if id == 5 {
            Ok(NumeralType::U8)
        } else if id == 6 {
            Ok(NumeralType::U16)
        } else if id == 7 {
            Ok(NumeralType::U32)
        } else if id == 8 {
            Ok(NumeralType::U64)
        } else if id == 9 {
            Ok(NumeralType::U128)
        } else if id == 10 {
            Ok(NumeralType::F32)
        } else if id == 11 {
            Ok(NumeralType::F64)
        } else {
            Err(OpCodeError::IllegalNumeralType(id))
        }
    }

    /// The name of the type as listings show it.
    pub open spec fn spec_name(self) -> Seq<char> {
        match self {
            NumeralType::I8 => "I8"@,
            NumeralType::I16 => "I16"@,
            NumeralType::I32 => "I32"@,
            NumeralType::I64 => "I64"@,
            NumeralType::I128 => "I128"@,
            NumeralType::U8 => "U8"@,
            NumeralType::U16 => "U16"@,
            NumeralType::U32 => "U32"@,
            NumeralType::U64 => "U64"@,
            NumeralType::U128 => "U128"@,
            NumeralType::F32 => "F32"@,
            NumeralType::F64 => "F64"@,
        }
    }

    /// The byte of a type stands for that type, and a byte that stands for
    /// a type is the byte of that type.
    pub proof fn lemma_id_round_trip(self, id: u8)
        ensures
            Self::of_id(self.id()) == Ok::<NumeralType, OpCodeError>(self),
            Self::of_id(id) matches Ok(ty) ==> ty.id() == id,
            Self::of_id(id) is Ok <==> id < 12,
    {
    }

    /// The width of the type in bytes.
    pub fn size(&self) -> (r: usize)
        ensures
            r == self.spec_size(),
    {
        match self {
            NumeralType::I8 => 1,
            NumeralType::I16 => 2,
            NumeralType::I32 => 4,
            NumeralType::I64 => 8,
            NumeralType::I128 => 16,
            NumeralType::U8 => 1,
            NumeralType::U16 => 2,
            NumeralType::U32 => 4,
            NumeralType::U64 => 8,
            NumeralType::U128 => 16,
            NumeralType::F32 => 4,
            NumeralType::F64 => 8,
        }
    }

    /// The name of the type as listings show it.
    pub fn name(&self) -> (r: &'static str)
        ensures
            r@ == self.spec_name(),
    {
        match self {
            NumeralType::I8 => "I8",
            NumeralType::I16 => "I16",
            NumeralType::I32 => "I32",
            NumeralType::I64 => "I64",
            NumeralType::I128 => "I128",
            NumeralType::U8 => "U8",
            NumeralType::U16 => "U16",
            NumeralType::U32 => "U32",
            NumeralType::U64 => "U64",
            NumeralType::U128 => "U128",
            NumeralType::F32 => "F32",
            NumeralType::F64 => "F64",
        }
    }
}

impl TryFrom<u8> for NumeralType {
    type Error = OpCodeError;

    fn try_from(value: u8) -> (r: Result<Self, OpCodeError>) {
        match value {
            0 => Ok(NumeralType::I8),
            1 => Ok(NumeralType::I16),
            2 => Ok(NumeralType::I32),
            3 => Ok(NumeralType::I64),
            4 => Ok(NumeralType::I128),
            5 => Ok(NumeralType::U8),
            6 => Ok(NumeralType::U16),
            7 => Ok(NumeralType::U32),
            8 => Ok(NumeralType::U64),
            9 => Ok(NumeralType::U128),
            10 => Ok(NumeralType::F32),
            11 => Ok(NumeralType::F64),
            v => Err(OpCodeError::IllegalNumeralType(v)),
        }
    }
}

impl TryFromSpecImpl<u8> for NumeralType {
    open spec fn obeys_try_from_spec() -> bool {
        true
    }

    open spec fn try_from_spec(value: u8) -> Result<Self, OpCodeError> {
        NumeralType::of_id(value)
    }
}

impl From<NumeralType> for u8 {
    fn from(ty: NumeralType) -> (r: u8) {
        match ty {
            NumeralType::I8 => 0,
            NumeralType::I16 => 1,
            NumeralType::I32 => 2,
            NumeralType::I64 => 3,
            NumeralType::I128 => 4,
            NumeralType::U8 => 5,
            NumeralType::U16 => 6,
            NumeralType::U32 => 7,
            NumeralType::U64 => 8,
            NumeralType::U128 => 9,
            NumeralType::F32 => 10,
            NumeralType::F64 => 11,
        }
    }
}

impl FromSpecImpl<NumeralType> for u8 {
    open spec fn obeys_from_spec() -> bool {
        true
    }

    open spec fn from_spec(ty: NumeralType) -> u8 {
        ty.id()
    }
}

/// The instructions of the machine.
#[derive(Clone, Copy, Debug, PartialEq, Eq, Structural)]
pub enum OpCode {
    /// Leaves the current stack frame.
    Ret,
    /// Pushes a constant: where it starts among the chunk's constants, and
    /// how many bytes it has.
    Const(u8, u8),
    /// Negates the top of the stack.
    Neg(NumeralType),
    Add(NumeralType),
    Sub(NumeralType),
    Mul(NumeralType),
    Div(NumeralType),
}

/// Whether the instruction that starts at `offset` is there in full: its
/// first byte, and the operand bytes that this first byte asks for.
pub open spec fn holds_instruction(code: Seq<u8>, offset: int) -> bool {
    &&& 0 <= offset < code.len()
    &&& code[offset] == 1 ==> offset + 2 < code.len()
    &&& 2 <= code[offset] <= 6 ==> offset + 1 < code.len()
}

/// The instruction that starts at `offset`.
pub open spec fn decoded(code: Seq<u8>, offset: int) -> Result<OpCode, OpCodeError> {
    let first = code[offset];
    if first == 0 {
        Ok(OpCode::Ret)
    } else if first == 1 {
        Ok(OpCode::Const(code[offset + 1], code[offset + 2]))
    } else if first > 6 {
        Err(OpCodeError::IllegalOpcode(first))
    } else {
        match NumeralType::of_id(code[offset + 1]) {
            Err(e) => Err(e),
            Ok(ty) => if first == 2 {
                Ok(OpCode::Neg(ty))
            } else if first == 3 {
                Ok(OpCode::Add(ty))
            } else if first == 4 {
                Ok(OpCode::Sub(ty))
            } else if first == 5 {
                Ok(OpCode::Mul(ty))
            } else {
                Ok(OpCode::Div(ty))
            },
        }
    }
}

/// How the listing shows the line of the instruction at `offset`: the
/// line number, four digits wide, or a bar if the byte before came from
/// the same line.
pub open spec fn line_column(offset: int, lines: Seq<CodePos>) -> Seq<char> {
    if offset > 0 && lines[offset].0 == lines[offset - 1].0 {
        "   |"@
    } else {
        padded(decimal(lines[offset].0 as nat), 4, '0')
    }
}

/// What the listing shows in front of every instruction: its offset, its
/// line, and its column.
pub open spec fn listing_prefix(offset: int, lines: Seq<CodePos>) -> Seq<char> {
    padded(decimal(offset as nat), 4, '0') + "  "@ + line_column(offset, lines) + "-"@ + padded(
        decimal(lines[offset].1 as nat),
        3,
        '0',
    ) + "  "@
}

/// What the listing shows in front of the instruction at `offset`.
fn listing_prefix_text(offset: usize, lines: &[CodePos]) -> (r: String)
    requires
        offset < lines@.len(),
    ensures
        r@ == listing_prefix(offset as int, lines@),
{
    let mut text = zero_padded(offset, 4);
    text.append("  ");
    if offset > 0 && lines[offset].0 == lines[offset - 1].0 {
        text.append("   |");
    } else {
        let line = zero_padded(lines[offset].0 as usize, 4);
        text.append(line.as_str());
    }
    text.append("-");
    let column = zero_padded(lines[offset].1 as usize, 3);
    text.append(column.as_str());
    text.append("  ");
    text
}

impl OpCode {
    /// The bytes that stand for the instruction.
    pub open spec fn encoding(self) -> Seq<u8> {
        match self {
            OpCode::Ret => seq![0u8],
            OpCode::Const(index, size) => seq![1u8, index, size],
            OpCode::Neg(ty) => seq![2u8, ty.id()],
            OpCode::Add(ty) => seq![3u8, ty.id()],
            OpCode::Sub(ty) => seq![4u8, ty.id()],
            OpCode::Mul(ty) => seq![5u8, ty.id()],
            OpCode::Div(ty) => seq![6u8, ty.id()],
        }
    }

    /// What the listing shows of the instruction itself.
    pub open spec fn mnemonic(self) -> Seq<char> {
        match self {
            OpCode::Ret => "RET\n"@,
            OpCode::Const(index, size) => "CONST "@ + padded(decimal(index as nat), 16, ' ')
                + padded(decimal(size as nat), 16, ' ') + "\n"@,
            OpCode::Neg(ty) => "NEG   "@ + ty.spec_name() + "\n"@,
            OpCode::Add(ty) => "ADD   "@ + ty.spec_name() + "\n"@,
            OpCode::Sub(ty) => "SUB   "@ + ty.spec_name() + "\n"@,
            OpCode::Mul(ty) => "MUL   "@ + ty.spec_name() + "\n"@,
            OpCode::Div(ty) => "DIV   "@ + ty.spec_name() + "\n"@,
        }
    }

    /// Written out and read again, an instruction is the same instruction,
    /// and its size is the number of bytes written.
    pub proof fn lemma_encoding_round_trip(self)
        ensures
            holds_instruction(self.encoding(), 0),
            decoded(self.encoding(), 0) == Ok::<OpCode, OpCodeError>(self),
            self.encoding().len() == self.spec_size(),
    {
        match self {
            OpCode::Ret => {},
            OpCode::Const(_, _) => {},
            OpCode::Neg(ty) => ty.lemma_id_round_trip(0),
            OpCode::Add(ty) => ty.lemma_id_round_trip(0),
            OpCode::Sub(ty) => ty.lemma_id_round_trip(0),
            OpCode::Mul(ty) => ty.lemma_id_round_trip(0),
            OpCode::Div(ty) => ty.lemma_id_round_trip(0),
        }
    }

    /// How many bytes stand for the instruction.
    pub open spec fn spec_size(self) -> usize {
        match self {
            OpCode::Ret => 1,
            OpCode::Const(_, _) => 3,
            _ => 2,
        }
    }

    /// The instruction that starts at `offset` of `code`.
    pub fn decode(code: &[u8], offset: usize) -> (r: Result<OpCode, OpCodeError>)
        requires
            holds_instruction(code@, offset as int),
        ensures
            r == decoded(code@, offset as int),
    {
        let first = code[offset];
        if first == 0 {
            Ok(OpCode::Ret)
        } else if first == 1 {
            Ok(OpCode::Const(code[offset + 1], code[offset + 2]))
        } else if first > 6 {
            Err(OpCodeError::IllegalOpcode(first))
        } else {
            let ty = match NumeralType::try_from(code[offset + 1]) {
                Ok(ty) => ty,
                Err(e) => {
                    return Err(e);
                },
            };
            if first == 2 {
                Ok(OpCode::Neg(ty))
            } else if first == 3 {
                Ok(OpCode::Add(ty))
            } else if first == 4 {
                Ok(OpCode::Sub(ty))
            } else if first == 5 {
                Ok(OpCode::Mul(ty))
            } else {
                Ok(OpCode::Div(ty))
            }
        }
    }

    /// What the listing shows of the instruction itself.
    fn mnemonic_text(&self) -> (r: String)
        ensures
            r@ == self.mnemonic(),
    {
        match self {
            OpCode::Ret => String::from_str("RET\n"),
            OpCode::Const(index, size) => {
                let mut text = String::from_str("CONST ");
                let index = space_padded(*index as usize, 16);
                text.append(index.as_str());
                let size = space_padded(*size as usize, 16);
                text.append(size.as_str());
                text.append("\n");
                text
            },
            OpCode::Neg(ty) => {
                let mut text = String::from_str("NEG   ");
                text.append(ty.name());
                text.append("\n");
                text
            },
            OpCode::Add(ty) => {
                let mut text = String::from_str("ADD   ");
                text.append(ty.name());
                text.append("\n");
                text
            },
            OpCode::Sub(ty) => {
                let mut text = String::from_str("SUB   ");
                text.append(ty.name());
                text.append("\n");
                text
            },
            OpCode::Mul(ty) => {
                let mut text = String::from_str("MUL   ");
                text.append(ty.name());
                text.append("\n");
                text
            },
            OpCode::Div(ty) => {
                let mut text = String::from_str("DIV   ");
                text.append(ty.name());
                text.append("\n");
                text
            },
        }
    }

    /// The line of a listing for this instruction at `offset`, and the
    /// offset of the instruction after it.
    pub fn disassemble(&self, offset: usize, lines: &[CodePos]) -> (r: (String, usize))
        requires
            offset < lines@.len(),
            offset + self.spec_size() <= usize::MAX,
        ensures
            r.0@ == listing_prefix(offset as int, lines@) + self.mnemonic(),
            r.1 == offset + self.spec_size(),
    {
        let mut text = listing_prefix_text(offset, lines);
        let mnemonic = self.mnemonic_text();
        text.append(mnemonic.as_str());
        (text, offset + self.size())
    }

    /// Appends the bytes that stand for the instruction to `out`.
    pub fn write(self, out: &mut Vec<u8>)
        ensures
            final(out)@ == old(out)@ + self.encoding(),
    {
        match self {
            OpCode::Ret => {
                out.push(0);
            },
            OpCode::Const(index, size) => {
                out.push(1);
                out.push(index);
                out.push(size);
            },
            OpCode::Neg(ty) => {
                out.push(2);
                out.push(ty.into());
            },
            OpCode::Add(ty) => {
                out.push(3);
                out.push(ty.into());
            },
            OpCode::Sub(ty) => {
                out.push(4);
                out.push(ty.into());
            },
            OpCode::Mul(ty) => {
                out.push(5);
                out.push(ty.into());
            },
            OpCode::Div(ty) => {
                out.push(6);
                out.push(ty.into());
            },
        }
        assert(out@ =~= old(out)@ + self.encoding());
    }

    /// How many bytes stand for the instruction in program memory.
    pub fn size(&self) -> (r: usize)
        ensures
            r == self.spec_size(),
            r == self.encoding().len(),
    {
        match self {
            OpCode::Ret => 1,
            OpCode::Const(_, _) => 3,
            OpCode::Neg(_) => 2,
            OpCode::Add(_) => 2,
            OpCode::Sub(_) => 2,
            OpCode::Mul(_) => 2,
            OpCode::Div(_) => 2,
        }
    }
}

} // verus!
