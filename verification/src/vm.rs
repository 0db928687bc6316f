use vstd::prelude::*;
use vstd::array::array_fill_for_copy_types;
use vstd::bytes::{lemma_auto_spec_u64_to_from_le_bytes, spec_u64_from_le_bytes};
use vstd::slice::slice_subrange;
use vstd::string::StringExecFns;
use crate::bytecode::chunk::{listing, Chunk, ChunkView, Value};
use crate::bytecode::opcode::{decoded, holds_instruction, NumeralType, OpCode, OpCodeError};
use crate::bytecode::text::{append_hex_list, hex_list};

verus! {

/// Why the machine stopped.
#[derive(Debug)]
pub enum VMError {
    CompileError((u16, u16), String),
    RuntimeError(String),
    UnexpectedEoF,
    JITError((u16, u16)),
    UnknownOpCode(OpCodeError),
}

impl Clone for VMError {
    fn clone(&self) -> (r: Self)
        ensures
            r == *self,
    {
        match self {
            VMError::CompileError(pos, text) => VMError::CompileError(*pos, text.clone()),
            VMError::RuntimeError(text) => VMError::RuntimeError(text.clone()),
            VMError::UnexpectedEoF => VMError::UnexpectedEoF,
            VMError::JITError(pos) => VMError::JITError(*pos),
            VMError::UnknownOpCode(e) => VMError::UnknownOpCode(*e),
        }
    }
}

/// A `VMError` with its texts as sequences of characters.
pub enum Fault {
    CompileError((u16, u16), Seq<char>),
    RuntimeError(Seq<char>),
    UnexpectedEoF,
    JITError((u16, u16)),
    UnknownOpCode(OpCodeError),
}

impl View for VMError {
    type V = Fault;

    open spec fn view(&self) -> Fault {
        match self {
            VMError::CompileError(pos, text) => Fault::CompileError(*pos, text@),
            VMError::RuntimeError(text) => Fault::RuntimeError(text@),
            VMError::UnexpectedEoF => Fault::UnexpectedEoF,
            VMError::JITError(pos) => Fault::JITError(*pos),
            VMError::UnknownOpCode(e) => Fault::UnknownOpCode(*e),
        }
    }
}

/// What a stack holds: all its bytes, and how many of them are in use.
pub struct StackView {
    pub bytes: Seq<u8>,
    pub sp: nat,
}

impl StackView {
    /// The bytes that are in use, the oldest first.
    pub open spec fn live(self) -> Seq<u8> {
        self.bytes.take(self.sp as int)
    }

    /// The `n` bytes that were pushed last.
    pub open spec fn top(self, n: nat) -> Seq<u8> {
        self.bytes.subrange(self.sp - n, self.sp as int)
    }

    /// The stack after `src` was pushed.
    pub open spec fn pushed(self, src: Seq<u8>) -> StackView {
        StackView {
            bytes: self.bytes.take(self.sp as int) + src + self.bytes.skip((self.sp + src.len()) as int),
            sp: self.sp + src.len(),
        }
    }

    /// The stack after `n` bytes were popped. The bytes stay where they
    /// are; they are no longer in use.
    pub open spec fn popped(self, n: nat) -> StackView {
        StackView { bytes: self.bytes, sp: (self.sp - n) as nat }
    }
}

/// A stack of bytes with room for `SIZE` of them.
pub struct Stack<const SIZE: usize> {
    stack: Vec<u8>,
    sp: usize,
}

impl<const SIZE: usize> View for Stack<SIZE> {
    type V = StackView;

    closed spec fn view(&self) -> StackView {
        StackView { bytes: self.stack@, sp: self.sp as nat }
    }
}

impl<const SIZE: usize> Stack<SIZE> {
    /// The stack has `SIZE` bytes, and no more are in use than it has.
    pub open spec fn wf(&self) -> bool {
        &&& self@.bytes.len() == SIZE
        &&& self@.sp <= SIZE
    }

    /// An empty stack of zeros.
    pub fn new() -> (r: Self)
        ensures
            r.wf(),
            r@.sp == 0,
            forall|i: int| 0 <= i < SIZE ==> r@.bytes[i] == 0,
    {
        let mut stack: Vec<u8> = Vec::new();
        let mut i: usize = 0;
        while i < SIZE
            invariant
                i <= SIZE,
                stack@.len() == i,
                forall|k: int| 0 <= k < i ==> stack@[k] == 0,
            decreases SIZE - i,
        {
            stack.push(0);
            i += 1;
        }
        Stack { stack, sp: 0 }
    }

    pub fn is_empty(&self) -> (r: bool)
        ensures
            r == (self@.sp == 0),
    {
        self.sp == 0
    }

    /// Pushes the bytes that stand for the value.
    pub fn push_value<const N: usize, Val: Value<N>>(&mut self, val: Val)
        requires
            old(self).wf(),
            old(self)@.sp + N <= SIZE,
        ensures
            final(self).wf(),
            final(self)@ == old(self)@.pushed(val.spec_bits()),
    {
        let bits = val.to_bits();
        self.push(bits.as_slice());
    }

    /// Pushes the bytes.
    pub fn push(&mut self, src: &[u8])
        requires
            old(self).wf(),
            old(self)@.sp + src@.len() <= SIZE,
        ensures
            final(self).wf(),
            final(self)@ == old(self)@.pushed(src@),
    {
        let mut k: usize = 0;
        while k < src.len()
            invariant
                k <= src@.len(),
                self.sp == old(self).sp,
                self.sp + src@.len() <= SIZE,
                self.stack@.len() == SIZE,
                old(self).stack@.len() == SIZE,
                forall|j: int| 0 <= j < self.sp ==> self.stack@[j] == old(self).stack@[j],
                forall|j: int| 0 <= j < k ==> self.stack@[self.sp + j] == src@[j],
                forall|j: int| self.sp + k <= j < SIZE ==> self.stack@[j] == old(self).stack@[j],
            decreases src@.len() - k,
        {
            self.stack[self.sp + k] = src[k];
            k += 1;
        }
        self.sp += src.len();
        assert(self@.bytes =~= old(self)@.pushed(src@).bytes);
    }

    /// Pops as many bytes as `dst` has room for, and says which.
    pub fn pop_to(&mut self, dst: &mut [u8])
        requires
            old(self).wf(),
            old(dst)@.len() <= old(self)@.sp,
        ensures
            final(self).wf(),
            final(self)@ == old(self)@.popped(old(dst)@.len()),
            final(dst)@ == old(self)@.top(old(dst)@.len()),
    {
        let n = dst.len();
        let start = self.sp - n;
        let mut k: usize = 0;
        while k < n
            invariant
                k <= n,
                n == dst@.len(),
                start + n == self.sp,
                self.sp <= SIZE,
                self.stack@.len() == SIZE,
                forall|j: int| 0 <= j < k ==> dst@[j] == self.stack@[start + j],
            decreases n - k,
        {
            dst[k] = self.stack[start + k];
            k += 1;
        }
        self.sp -= n;
        assert(dst@ =~= old(self)@.top(n as nat));
    }

    /// Pops the bytes that stand for a value, and gives the value.
    pub fn pop_value<const N: usize, Val: Value<N>>(&mut self) -> (r: Val)
        requires
            old(self).wf(),
            N <= old(self)@.sp,
        ensures
            final(self).wf(),
            final(self)@ == old(self)@.popped(N as nat),
            r.spec_bits() == old(self)@.top(N as nat),
    {
        let mut bits: [u8; N] = array_fill_for_copy_types(0u8);
        self.pop_to(&mut bits);
        Val::from_bits(bits)
    }

    /// Pops `size` bytes.
    pub fn pop(&mut self, size: usize)
        requires
            old(self).wf(),
            size <= old(self)@.sp,
        ensures
            final(self).wf(),
            final(self)@ == old(self)@.popped(size as nat),
    {
        self.sp -= size;
    }

    /// How many bytes are in use.
    pub fn len(&self) -> (r: usize)
        ensures
            r == self@.sp,
    {
        self.sp
    }

    /// How many bytes the stack has room for.
    pub fn cap(&self) -> (r: usize)
        ensures
            r == SIZE,
    {
        SIZE
    }

    /// The bytes in use, oldest first, as pairs of hexadecimal digits
    /// between square brackets.
    pub fn dump(&self) -> (r: String)
        requires
            self.wf(),
        ensures
            r@ == "[ "@ + hex_list(self@.live()) + " ]"@,
    {
        let mut text = String::from_str("[ ");
        append_hex_list(&mut text, self.stack.as_slice(), self.sp);
        text.append(" ]");
        text
    }

    /// The byte at `index`, in use or not.
    pub fn get(&self, index: usize) -> (r: Option<u8>)
        ensures
            r == if index < self@.bytes.len() {
                Some(self@.bytes[index as int])
            } else {
                None
            },
    {
        if index < self.stack.len() {
            Some(self.stack[index])
        } else {
            None
        }
    }
}

/// The floating-point operations that the machine leaves to its host.
#[derive(Clone, Copy, Debug, PartialEq, Eq, Structural)]
pub enum FloatOp {
    Add,
    Sub,
    Mul,
    Div,
}

/// What is left to do after a step of the machine.
#[derive(Clone, Copy, Debug, PartialEq, Eq, Structural)]
pub enum Effect {
    /// Nothing.
    Done,
    /// The operand was popped. The host negates the 64-bit float with
    /// these bits and pushes the bits of the result.
    Negate(u64),
    /// The operands were popped. The host computes with the 64-bit floats
    /// that have these bits, the first operand first, and pushes the bits
    /// of the result.
    Binary(FloatOp, u64, u64),
    /// The machine has stopped. These are the bits of the 64-bit float
    /// that was on top of the stack.
    Halt(u64),
}

/// The size of the machine's stack in bytes.
pub const STACK_SIZE: usize = 256;

/// What a machine holds.
pub struct VMView {
    pub stack: StackView,
    pub ip: usize,
    pub fp: usize,
    pub exit_code: i32,
    pub is_active: bool,
    pub chunk: ChunkView,
    pub use_jit: bool,
}

/// A step of the machine: how it ended, and the machine after it.
pub struct Step {
    pub result: Result<Effect, Fault>,
    pub vm: VMView,
}

impl VMView {
    /// The machine stopped by a fault at run time.
    pub open spec fn faulted(self, text: Seq<char>) -> Step {
        Step { result: Err(Fault::RuntimeError(text)), vm: self }
    }

    /// The machine after `n` bytes were popped.
    pub open spec fn popped(self, n: nat) -> VMView {
        VMView { stack: self.stack.popped(n), ..self }
    }

    /// What fetching the next instruction gives: `UnexpectedEoF` if no
    /// instruction is there in full at the instruction pointer,
    /// `UnknownOpCode` if the bytes there are no instruction, else the
    /// instruction, with the instruction pointer behind it.
    pub open spec fn fetched(self) -> (Result<OpCode, Fault>, VMView) {
        if !holds_instruction(self.chunk.code, self.ip as int) {
            (Err(Fault::UnexpectedEoF), self)
        } else {
            match decoded(self.chunk.code, self.ip as int) {
                Err(e) => (Err(Fault::UnknownOpCode(e)), self),
                Ok(op) => (Ok(op), VMView { ip: (self.ip + op.spec_size()) as usize, ..self }),
            }
        }
    }

    /// What the instruction does to the machine that has fetched it.
    ///
    /// `Const` pushes bytes of the chunk's constants. `Ret` stops a
    /// machine whose stack holds eight bytes or less: it pops a 64-bit
    /// float, and the exit code is the first byte of the stack. `Neg` of
    /// `I8` negates the byte on top. The operations on `F64` pop their
    /// operands and leave the arithmetic to the host. Every other
    /// instruction does nothing. A stack that holds too little or has too
    /// little room, a constant that is not there, and a negation that
    /// overflows are faults; then the stack stays as it is.
    pub open spec fn executed(self, op: OpCode) -> Step {
        match op {
            OpCode::Const(index, size) => if index + size > self.chunk.vals.len() {
                self.faulted("constant out of range"@)
            } else if self.stack.sp + size > STACK_SIZE {
                self.faulted("stack overflow"@)
            } else {
                Step {
                    result: Ok(Effect::Done),
                    vm: VMView {
                        stack: self.stack.pushed(
                            self.chunk.vals.subrange(index as int, index + size),
                        ),
                        ..self
                    },
                }
            },
            OpCode::Ret => if self.stack.sp > 8 {
                Step { result: Ok(Effect::Done), vm: self }
            } else if self.stack.sp < 8 {
                self.faulted("stack underflow"@)
            } else {
                Step {
                    result: Ok(Effect::Halt(spec_u64_from_le_bytes(self.stack.top(8)))),
                    vm: VMView {
                        exit_code: self.stack.bytes[0] as i32,
                        is_active: false,
                        ..self.popped(8)
                    },
                }
            },
            OpCode::Neg(NumeralType::I8) => if self.stack.sp < 1 {
                self.faulted("stack underflow"@)
            } else if self.stack.top(1)[0] == 128 {
                self.faulted("overflow"@)
            } else {
                Step {
                    result: Ok(Effect::Done),
                    vm: VMView {
                        stack: self.stack.popped(1).pushed(
                            seq![(-(self.stack.top(1)[0] as i8)) as u8],
                        ),
                        ..self
                    },
                }
            },
            OpCode::Neg(NumeralType::F64) => if self.stack.sp < 8 {
                self.faulted("stack underflow"@)
            } else {
                Step {
                    result: Ok(Effect::Negate(spec_u64_from_le_bytes(self.stack.top(8)))),
                    vm: self.popped(8),
                }
            },
            OpCode::Add(NumeralType::F64) => self.binary(FloatOp::Add),
            OpCode::Sub(NumeralType::F64) => self.binary(FloatOp::Sub),
            OpCode::Mul(NumeralType::F64) => self.binary(FloatOp::Mul),
            OpCode::Div(NumeralType::F64) => self.binary(FloatOp::Div),
            _ => Step { result: Ok(Effect::Done), vm: self },
        }
    }

    /// What an operation on two 64-bit floats does: the second operand is
    /// on top of the stack, the first below it.
    pub open spec fn binary(self, op: FloatOp) -> Step {
        if self.stack.sp < 16 {
            self.faulted("stack underflow"@)
        } else {
            Step {
                result: Ok(
                    Effect::Binary(
                        op,
                        spec_u64_from_le_bytes(self.stack.popped(8).top(8)),
                        spec_u64_from_le_bytes(self.stack.top(8)),
                    ),
                ),
                vm: self.popped(16),
            }
        }
    }

    /// What one step of the machine does: it fetches an instruction and
    /// executes it.
    pub open spec fn stepped(self) -> Step {
        match self.fetched() {
            (Err(fault), vm) => Step { result: Err(fault), vm },
            (Ok(op), vm) => vm.executed(op),
        }
    }
}

/// The machine that runs a chunk.
pub struct VM {
    stack: Stack<256>,
    /// The instruction pointer.
    ip: usize,
    /// The frame pointer.
    fp: usize,
    pub exit_code: i32,
    pub is_active: bool,
    /// The program.
    chunk: Chunk,
    use_jit: bool,
}

impl View for VM {
    type V = VMView;

    closed spec fn view(&self) -> VMView {
        VMView {
            stack: self.stack@,
            ip: self.ip,
            fp: self.fp,
            exit_code: self.exit_code,
            is_active: self.is_active,
            chunk: self.chunk@,
            use_jit: self.use_jit,
        }
    }
}

impl VM {
    /// The stack has its 256 bytes.
    pub closed spec fn wf(&self) -> bool {
        self.stack.wf()
    }

    /// What `wf` says, over the view.
    pub proof fn lemma_wf(&self)
        ensures
            self.wf() <==> self@.stack.bytes.len() == STACK_SIZE && self@.stack.sp <= STACK_SIZE,
    {
    }

    /// A machine that is about to run `chunk` from its start.
    pub fn new(chunk: Chunk) -> (r: Self)
        ensures
            r.wf(),
            r@.chunk == chunk@,
            r@.ip == 0,
            r@.fp == 0,
            r@.exit_code == 0,
            r@.is_active,
            !r@.use_jit,
            r@.stack.sp == 0,
    {
        VM {
            stack: Stack::new(),
            ip: 0,
            fp: 0,
            exit_code: 0,
            is_active: true,
            chunk,
            use_jit: false,
        }
    }

    /// The next instruction; the instruction pointer moves behind it.
    pub fn fetch(&mut self) -> (r: Result<OpCode, VMError>)
        requires
            old(self).wf(),
        ensures
            final(self).wf(),
            final(self)@ == old(self)@.fetched().1,
            match old(self)@.fetched().0 {
                Ok(op) => r matches Ok(out) && out == op,
                Err(fault) => r matches Err(e) && e@ == fault,
            },
    {
        if !self.chunk.holds_instruction(self.ip) {
            return Err(VMError::UnexpectedEoF);
        }
        let len = self.chunk.code().len();
        match OpCode::decode(self.chunk.code(), self.ip) {
            Ok(out) => {
                self.ip += out.size();
                Ok(out)
            },
            Err(e) => Err(VMError::UnknownOpCode(e)),
        }
    }

    /// The byte at the instruction pointer, if there is one. The
    /// instruction pointer stays.
    pub fn peak(&self) -> (r: Option<u8>)
        ensures
            r == if self@.ip < self@.chunk.code.len() {
                Some(self@.chunk.code[self@.ip as int])
            } else {
                None
            },
    {
        if self.ip < self.chunk.code().len() {
            Some(self.chunk.code()[self.ip])
        } else {
            None
        }
    }

    /// Pops the operands of an operation on two 64-bit floats.
    fn pop_operands(&mut self, op: FloatOp) -> (r: Result<Effect, VMError>)
        requires
            old(self).wf(),
        ensures
            final(self).wf(),
            final(self)@ == old(self)@.binary(op).vm,
            match old(self)@.binary(op).result {
                Ok(effect) => r matches Ok(out) && out == effect,
                Err(fault) => r matches Err(e) && e@ == fault,
            },
    {
        if self.stack.len() < 16 {
            return Err(VMError::RuntimeError(String::from_str("stack underflow")));
        }
        proof {
            lemma_auto_spec_u64_to_from_le_bytes();
        }
        let b: u64 = self.stack.pop_value();
        let a: u64 = self.stack.pop_value();
        assert(self@.stack == old(self)@.stack.popped(16));
        Ok(Effect::Binary(op, a, b))
    }

    /// One step of the machine: fetches an instruction and executes it.
    /// Floating-point arithmetic is left to the caller, who finds the
    /// operands in the result and pushes the outcome with `push_bits`.
    pub fn step(&mut self) -> (r: Result<Effect, VMError>)
        requires
            old(self).wf(),
        ensures
            final(self).wf(),
            final(self)@ == old(self)@.stepped().vm,
            match old(self)@.stepped().result {
                Ok(effect) => r matches Ok(out) && out == effect,
                Err(fault) => r matches Err(e) && e@ == fault,
            },
    {
        let op = match self.fetch() {
            Ok(op) => op,
            Err(e) => {
                return Err(e);
            },
        };
        proof {
            lemma_auto_spec_u64_to_from_le_bytes();
        }
        match op {
            OpCode::Const(index, size) => {
                let start = index as usize;
                let end = index as usize + size as usize;
                if end > self.chunk.vals().len() {
                    return Err(VMError::RuntimeError(String::from_str("constant out of range")));
                }
                if self.stack.len() + size as usize > STACK_SIZE {
                    return Err(VMError::RuntimeError(String::from_str("stack overflow")));
                }
                let bytes = slice_subrange(self.chunk.vals(), start, end);
                self.stack.push(bytes);
                Ok(Effect::Done)
            },
            OpCode::Ret => {
                if self.stack.len() > 8 {
                    return Ok(Effect::Done);
                }
                if self.stack.len() < 8 {
                    return Err(VMError::RuntimeError(String::from_str("stack underflow")));
                }
                let bits: u64 = self.stack.pop_value();
                let first = match self.stack.get(0) {
                    Some(byte) => byte,
                    None => 0,
                };
                self.exit_code = first as i32;
                self.is_active = false;
                Ok(Effect::Halt(bits))
            },
            OpCode::Neg(NumeralType::I8) => {
                if self.stack.len() < 1 {
                    return Err(VMError::RuntimeError(String::from_str("stack underflow")));
                }
                let top = match self.stack.get(self.stack.len() - 1) {
                    Some(byte) => byte,
                    None => 0,
                };
                if top == 128 {
                    return Err(VMError::RuntimeError(String::from_str("overflow")));
                }
                let val: i8 = self.stack.pop_value();
                assert(val.spec_bits()[0] == top);
                assert(val != -128 && top as i8 == val) by (bit_vector)
                    requires
                        val as u8 == top,
                        top != 128u8,
                ;
                self.stack.push_value(-val);
                Ok(Effect::Done)
            },
            OpCode::Neg(NumeralType::F64) => {
                if self.stack.len() < 8 {
                    return Err(VMError::RuntimeError(String::from_str("stack underflow")));
                }
                let bits: u64 = self.stack.pop_value();
                Ok(Effect::Negate(bits))
            },
            OpCode::Add(NumeralType::F64) => self.pop_operands(FloatOp::Add),
            OpCode::Sub(NumeralType::F64) => self.pop_operands(FloatOp::Sub),
            OpCode::Mul(NumeralType::F64) => self.pop_operands(FloatOp::Mul),
            OpCode::Div(NumeralType::F64) => self.pop_operands(FloatOp::Div),
            _ => Ok(Effect::Done),
        }
    }

    /// Pushes the bits of a 64-bit float: the outcome of arithmetic that
    /// `step` left to the caller. `false`, and no change, if the stack has
    /// no room.
    pub fn push_bits(&mut self, bits: u64) -> (r: bool)
        requires
            old(self).wf(),
        ensures
            final(self).wf(),
            r == (old(self)@.stack.sp + 8 <= STACK_SIZE),
            r ==> final(self)@ == (VMView {
                stack: old(self)@.stack.pushed(bits.spec_bits()),
                ..old(self)@
            }),
            !r ==> final(self)@ == old(self)@,
    {
        if self.stack.len() > STACK_SIZE - 8 {
            return false;
        }
        self.stack.push_value(bits);
        true
    }

    /// The instruction that the machine is about to run, as a listing
    /// shows it, and the stack.
    pub fn describe(&self) -> (r: Result<String, OpCodeError>)
        requires
            self.wf(),
        ensures
            match listing(self@.chunk.code, self@.chunk.lines, self@.ip as int, 1) {
                Ok(text) => r matches Ok(s) && s@ == text + "      "@ + "[ "@ + hex_list(
                    self@.stack.live(),
                ) + " ]"@,
                Err(e) => r == Err::<String, OpCodeError>(e),
            },
    {
        let mut text = match self.chunk.disassemble(self.ip, 1) {
            Ok(text) => text,
            Err(e) => {
                return Err(e);
            },
        };
        text.append("      ");
        let stack = self.stack.dump();
        text.append(stack.as_str());
        assert(text@ =~= listing(self@.chunk.code, self@.chunk.lines, self@.ip as int, 1)->Ok_0
            + "      "@ + "[ "@ + hex_list(self@.stack.live()) + " ]"@);
        Ok(text)
    }

    /// The machine's stack.
    pub fn stack(&self) -> (r: &Stack<256>)
        ensures
            r@ == self@.stack,
    {
        &self.stack
    }

    /// The offset of the next instruction.
    pub fn ip(&self) -> (r: usize)
        ensures
            r == self@.ip,
    {
        self.ip
    }

    /// The program.
    pub fn chunk(&self) -> (r: &Chunk)
        ensures
            r@ == self@.chunk,
    {
        &self.chunk
    }
}

} // verus!
