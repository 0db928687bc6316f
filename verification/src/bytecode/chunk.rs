use vstd::prelude::*;
use vstd::string::StringExecFns;
use crate::bytecode::opcode::{
    decoded,
    holds_instruction,
    listing_prefix,
    OpCode,
    OpCodeError,
};

verus! {

/// A value that can be kept as `N` bytes.
pub trait Value<const N: usize>: Sized {
    /// The bytes that stand for the value.
    spec fn spec_bits(self) -> Seq<u8>;

    /// The bytes that stand for the value.
    fn to_bits(self) -> (r: [u8; N])
        ensures
            r@ == self.spec_bits(),
    ;

    /// The value that the bytes stand for.
    fn from_bits(bits: [u8; N]) -> (r: Self)
        ensures
            r.spec_bits() == bits@,
    ;
}

/// Line and column of the source that an instruction byte came from.
pub type CodePos = (u16, u16);

/// Where an instruction stands in a chunk, and how many bytes it takes.
#[derive(Clone, Copy, Debug, PartialEq, Eq, Structural)]
pub struct CodeRef {
    pub pos: usize,
    pub size: usize,
}

/// A unit of bytecode: instructions, the constants they use, and where in
/// the source each instruction byte came from.
pub struct Chunk {
    name: String,
    /// The instructions.
    code: Vec<u8>,
    /// The constants.
    vals: Vec<u8>,
    /// For each byte that was written to `code`, its place in the source.
    lines: Vec<CodePos>,
}

/// What a chunk holds.
pub struct ChunkView {
    pub name: Seq<char>,
    pub code: Seq<u8>,
    pub vals: Seq<u8>,
    pub lines: Seq<CodePos>,
}

impl View for Chunk {
    type V = ChunkView;

    closed spec fn view(&self) -> ChunkView {
        ChunkView { name: self.name@, code: self.code@, vals: self.vals@, lines: self.lines@ }
    }
}

/// The listing of up to `count` instructions from `offset` on: it ends
/// with the code, with the first instruction that is not there in full or
/// whose place in the source is not known, and with the count; a byte
/// sequence that is no instruction ends it with the error.
pub open spec fn listing(code: Seq<u8>, lines: Seq<CodePos>, offset: int, count: nat) -> Result<
    Seq<char>,
    OpCodeError,
>
    decreases count,
{
    if count == 0 || !holds_instruction(code, offset) || offset >= lines.len() {
        Ok(Seq::empty())
    } else {
        match decoded(code, offset) {
            Err(e) => Err(e),
            Ok(op) => match listing(code, lines, offset + op.spec_size(), (count - 1) as nat) {
                Err(e) => Err(e),
                Ok(rest) => Ok(listing_prefix(offset, lines) + op.mnemonic() + rest),
            },
        }
    }
}

impl Chunk {
    /// An empty chunk called `name`.
    pub fn new(name: String) -> (r: Self)
        ensures
            r@ == (ChunkView {
                name: name@,
                code: Seq::empty(),
                vals: Seq::empty(),
                lines: Seq::empty(),
            }),
    {
        Chunk {
            name,
            code: Vec::with_capacity(512),
            vals: Vec::with_capacity(512),
            lines: Vec::with_capacity(512),
        }
    }

    /// Appends an instruction that came from the given line and column,
    /// and says where it stands.
    pub fn write(&mut self, b: OpCode, line: u16, char: u16) -> (r: CodeRef)
        ensures
            r.pos == old(self)@.code.len(),
            r.size == b.spec_size(),
            final(self)@ == (ChunkView {
                code: old(self)@.code + b.encoding(),
                lines: old(self)@.lines + Seq::new(b.encoding().len(), |i: int| (line, char)),
                ..old(self)@
            }),
    {
        let i = self.code.len();
        let mut bytes: Vec<u8> = Vec::new();
        b.write(&mut bytes);
        assert(bytes@ =~= b.encoding());
        let mut k: usize = 0;
        while k < bytes.len()
            invariant
                k <= bytes.len(),
                bytes@ == b.encoding(),
                self.name == old(self).name,
                self.vals == old(self).vals,
                self.code@ == old(self).code@ + bytes@.take(k as int),
                self.lines@ == old(self).lines@ + Seq::new(k as nat, |i: int| (line, char)),
            decreases bytes.len() - k,
        {
            self.code.push(bytes[k]);
            self.lines.push((line, char));
            k += 1;
            assert(self.code@ =~= old(self).code@ + bytes@.take(k as int));
            assert(self.lines@ =~= old(self).lines@ + Seq::new(k as nat, |i: int| (line, char)));
        }
        assert(bytes@.take(k as int) =~= bytes@);
        let size = self.code.len() - i;
        CodeRef { pos: i, size }
    }

    /// Removes the instructions and the constants.
    pub fn clear(&mut self)
        ensures
            final(self)@ == (ChunkView { code: Seq::empty(), vals: Seq::empty(), ..old(self)@ }),
    {
        self.code.clear();
        self.vals.clear();
    }

    /// Appends a constant and says where it starts.
    pub fn write_value<const N: usize, Val: Value<N>>(&mut self, val: Val) -> (r: usize)
        ensures
            r == old(self)@.vals.len(),
            final(self)@ == (ChunkView { vals: old(self)@.vals + val.spec_bits(), ..old(self)@ }),
    {
        let i = self.vals.len();
        let bits = val.to_bits();
        let mut k: usize = 0;
        while k < N
            invariant
                k <= N,
                bits@ == val.spec_bits(),
                bits@.len() == N,
                self.name == old(self).name,
                self.code == old(self).code,
                self.lines == old(self).lines,
                self.vals@ == old(self).vals@ + bits@.take(k as int),
            decreases N - k,
        {
            self.vals.push(bits[k]);
            k += 1;
            assert(self.vals@ =~= old(self).vals@ + bits@.take(k as int));
        }
        assert(bits@.take(k as int) =~= bits@);
        i
    }

    /// Whether the instruction that starts at `offset` is there in full.
    pub fn holds_instruction(&self, offset: usize) -> (r: bool)
        ensures
            r == holds_instruction(self@.code, offset as int),
    {
        if offset >= self.code.len() {
            return false;
        }
        let first = self.code[offset];
        if first == 1 {
            self.code.len() - offset > 2
        } else if 2 <= first && first <= 6 {
            self.code.len() - offset > 1
        } else {
            true
        }
    }

    /// The listing of up to `count` instructions from offset `i` on, one
    /// line for each.
    pub fn disassemble(&self, i: usize, count: usize) -> (r: Result<String, OpCodeError>)
        ensures
            match listing(self@.code, self@.lines, i as int, count as nat) {
                Ok(text) => r matches Ok(s) && s@ == text,
                Err(e) => r == Err::<String, OpCodeError>(e),
            },
    {
        let mut text = String::from_str("");
        proof {
            reveal_strlit("");
        }
        let mut at = i;
        let mut c: usize = 0;
        let ghost whole = listing(self@.code, self@.lines, i as int, count as nat);
        while c < count && self.holds_instruction(at) && at < self.lines.len()
            invariant
                c <= count,
                whole == listing(self@.code, self@.lines, i as int, count as nat),
                whole == match listing(self@.code, self@.lines, at as int, (count - c) as nat) {
                    Ok(rest) => Ok::<Seq<char>, OpCodeError>(text@ + rest),
                    Err(e) => Err(e),
                },
            decreases count - c,
        {
            let ghost remaining = (count - c) as nat;
            assert(listing(self@.code, self@.lines, at as int, remaining) == match decoded(
                self@.code,
                at as int,
            ) {
                Err(e) => Err::<Seq<char>, OpCodeError>(e),
                Ok(op) => match listing(
                    self@.code,
                    self@.lines,
                    at + op.spec_size(),
                    (remaining - 1) as nat,
                ) {
                    Err(e) => Err(e),
                    Ok(rest) => Ok(listing_prefix(at as int, self@.lines) + op.mnemonic() + rest),
                },
            });
            let len = self.code.len();
            let op = match OpCode::decode(self.code.as_slice(), at) {
                Ok(op) => op,
                Err(e) => {
                    return Err(e);
                },
            };
            assert(at + op.spec_size() <= len);
            let ghost before = text@;
            let ghost rest = listing(
                self@.code,
                self@.lines,
                at + op.spec_size(),
                (count - c - 1) as nat,
            );
            let (line, next) = op.disassemble(at, self.lines.as_slice());
            text.append(line.as_str());
            proof {
                if let Ok(tail) = rest {
                    assert(before + (listing_prefix(at as int, self@.lines) + op.mnemonic() + tail)
                        =~= text@ + tail);
                }
            }
            at = next;
            c += 1;
        }
        assert(text@ + Seq::<char>::empty() =~= text@);
        Ok(text)
    }

    /// The instructions.
    pub fn code(&self) -> (r: &[u8])
        ensures
            r@ == self@.code,
    {
        self.code.as_slice()
    }

    /// The constants.
    pub fn vals(&self) -> (r: &[u8])
        ensures
            r@ == self@.vals,
    {
        self.vals.as_slice()
    }

    /// For each byte that was written, its place in the source.
    pub fn lines(&self) -> (r: &[CodePos])
        ensures
            r@ == self@.lines,
    {
        self.lines.as_slice()
    }

    /// The name of the chunk.
    pub fn name(&self) -> (r: &str)
        ensures
            r@ == self@.name,
    {
        self.name.as_str()
    }
}

} // verus!
