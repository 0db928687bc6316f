use vstd::prelude::*;
use crate::bytecode::chunk::{Chunk, ChunkView};
use crate::lang::error::{verdict, CompileError, CompileResult, Failure};
use crate::lang::types::same_text;
use crate::lang::variable::{BorrowOp, DataLoc, DataSource, FerrumVariable, VarLoc};

verus! {

/// A request to the running program about data on the heap, which the
/// compiler cannot follow across scopes.
#[derive(Debug)]
pub enum HeapRequest {
    /// Count one more shared reference to the variable's data.
    IncRc(VarLoc),
    /// Count one shared reference less.
    DecRc(VarLoc),
    /// Take the exclusive lock on the variable's data.
    GrabMut(VarLoc),
    /// Give the exclusive lock back.
    DropMut(VarLoc),
}

/// Where the compiler holds a variable: in a scope, by the scope's depth
/// and the position in it, or among the globals, by position.
pub enum Slot {
    Scoped(int, int),
    Global(int),
}

/// What one lexical scope holds: its declarations, oldest first, and the
/// next free offset in its frame.
#[verifier::ext_equal]
pub struct ScopeModel {
    pub vars: Seq<FerrumVariable>,
    pub sp: usize,
}

/// What the compiler holds: the chunk it writes to, the open scopes,
/// outermost first, the global declarations, oldest first, and the heap
/// requests made so far.
#[verifier::ext_equal]
pub struct CompilerModel {
    pub chunk: ChunkView,
    pub scopes: Seq<ScopeModel>,
    pub globals: Seq<FerrumVariable>,
    pub requests: Seq<HeapRequest>,
}

/// The compiler after a scope was closed.
pub struct Closing {
    pub result: Result<(), Failure>,
    pub compiler: CompilerModel,
}

/// The position of the most recent declaration of `name` among `vars`.
pub open spec fn latest(vars: Seq<FerrumVariable>, name: Seq<char>) -> Option<int>
    decreases vars.len(),
{
    if vars.len() == 0 {
        None
    } else if vars.last().name@ == name {
        Some(vars.len() - 1)
    } else {
        latest(vars.drop_last(), name)
    }
}

/// `latest` finds a declaration of that name, and none of that name
/// follows it; it finds none only if there is none.
pub proof fn lemma_latest(vars: Seq<FerrumVariable>, name: Seq<char>)
    ensures
        match latest(vars, name) {
            Some(j) => {
                &&& 0 <= j < vars.len()
                &&& vars[j].name@ == name
                &&& forall|k: int| j < k < vars.len() ==> vars[k].name@ != name
            },
            None => forall|k: int| 0 <= k < vars.len() ==> vars[k].name@ != name,
        },
    decreases vars.len(),
{
    if vars.len() > 0 && vars.last().name@ != name {
        let rest = vars.drop_last();
        lemma_latest(rest, name);
        assert forall|k: int| 0 <= k < rest.len() implies rest[k] == vars[k] by {}
    }
}

impl CompilerModel {
    /// The innermost of the first `upto` scopes that declares `name`, and
    /// the position of its most recent declaration there.
    pub open spec fn locate_scoped(self, name: Seq<char>, upto: int) -> Option<(int, int)>
        decreases upto,
    {
        if upto <= 0 || upto > self.scopes.len() {
            None
        } else {
            match latest(self.scopes[upto - 1].vars, name) {
                Some(j) => Some((upto - 1, j)),
                None => self.locate_scoped(name, upto - 1),
            }
        }
    }

    /// The variable that `name` means at depth `lvl`: the most recent
    /// declaration in the innermost scope below that depth that has one,
    /// else the most recent global declaration. A depth beyond the open
    /// scopes is that of a scope that was closed: nothing is found from
    /// there.
    pub open spec fn locate(self, name: Seq<char>, lvl: usize) -> Option<Slot> {
        if lvl > self.scopes.len() {
            None
        } else {
            match self.locate_scoped(name, lvl as int) {
                Some((i, j)) => Some(Slot::Scoped(i, j)),
                None => match latest(self.globals, name) {
                    Some(j) => Some(Slot::Global(j)),
                    None => None,
                },
            }
        }
    }

    /// Whether the slot is one of a variable that the compiler holds.
    pub open spec fn has(self, slot: Slot) -> bool {
        match slot {
            Slot::Scoped(i, j) => 0 <= i < self.scopes.len() && 0 <= j < self.scopes[i].vars.len(),
            Slot::Global(j) => 0 <= j < self.globals.len(),
        }
    }

    /// The variable in the slot.
    pub open spec fn at(self, slot: Slot) -> FerrumVariable {
        match slot {
            Slot::Scoped(i, j) => self.scopes[i].vars[j],
            Slot::Global(j) => self.globals[j],
        }
    }

    /// The same with `var` in the slot.
    pub open spec fn put(self, slot: Slot, var: FerrumVariable) -> CompilerModel {
        match slot {
            Slot::Scoped(i, j) => CompilerModel {
                scopes: self.scopes.update(
                    i,
                    ScopeModel { vars: self.scopes[i].vars.update(j, var), ..self.scopes[i] },
                ),
                ..self
            },
            Slot::Global(j) => CompilerModel { globals: self.globals.update(j, var), ..self },
        }
    }

    /// The same after the variable under `loc` took the borrow step; the
    /// failure if no such variable is known or the step is refused.
    pub open spec fn release(self, loc: VarLoc, op: BorrowOp) -> Result<CompilerModel, Failure> {
        match self.locate(loc.name@, loc.stack_frame) {
            None => Err(Failure::UnknownVariable(loc)),
            Some(slot) => match self.at(slot).borrow_state.after(op) {
                Ok(next) => Ok(
                    self.put(slot, FerrumVariable { borrow_state: next, ..self.at(slot) }),
                ),
                Err(failure) => Err(failure),
            },
        }
    }

    /// How many variables the innermost scope holds; 0 with no scope open.
    pub open spec fn innermost_count(self) -> nat {
        if self.scopes.len() == 0 {
            0
        } else {
            self.scopes.last().vars.len()
        }
    }

    /// The same without the innermost scope.
    pub open spec fn without_innermost(self) -> CompilerModel {
        CompilerModel { scopes: self.scopes.drop_last(), ..self }
    }

    /// The same without the most recent variable of the innermost scope.
    pub open spec fn without_latest(self) -> CompilerModel {
        CompilerModel {
            scopes: self.scopes.update(
                self.scopes.len() - 1,
                ScopeModel { vars: self.scopes.last().vars.drop_last(), ..self.scopes.last() },
            ),
            ..self
        }
    }

    /// Whether `other` holds as many scopes, and as many variables in each
    /// of them.
    pub open spec fn shaped_like(self, other: CompilerModel) -> bool {
        &&& self.scopes.len() == other.scopes.len()
        &&& forall|i: int|
            0 <= i < self.scopes.len() ==> (#[trigger] self.scopes[i]).vars.len()
                == other.scopes[i].vars.len()
    }

    /// What closing the innermost scope does. Its variables go out of
    /// scope, the most recent first, while the scope is still the
    /// innermost of the chain: each is taken out of the scope and gives up
    /// its data, so a reference to a variable of the same scope still
    /// finds it. The scope leaves the chain when none is left, or when one
    /// refuses. With no scope open nothing happens.
    pub open spec fn closing(self) -> Closing
        decreases self.innermost_count(),
        via Self::closing_decreases
    {
        if self.scopes.len() == 0 {
            Closing { result: Ok(()), compiler: self }
        } else if self.scopes.last().vars.len() == 0 {
            Closing { result: Ok(()), compiler: self.without_innermost() }
        } else {
            let given_up = self.scopes.last().vars.last().invalidation(self.without_latest());
            if given_up.result is Err {
                Closing {
                    result: given_up.result,
                    compiler: given_up.compiler.without_innermost(),
                }
            } else {
                given_up.compiler.closing()
            }
        }
    }

    #[via_fn]
    proof fn closing_decreases(self) {
        if self.scopes.len() > 0 && self.scopes.last().vars.len() > 0 {
            self.without_latest().lemma_giving_up_keeps_shape(self.scopes.last().vars.last());
        }
    }

    /// A borrow step on a variable leaves every scope with as many
    /// variables as it had.
    pub proof fn lemma_release_keeps_shape(self, loc: VarLoc, op: BorrowOp)
        ensures
            self.release(loc, op) matches Ok(after) ==> after.shaped_like(self),
    {
        self.lemma_locate(loc.name@, loc.stack_frame);
    }

    /// When a variable gives up its data, every scope keeps as many
    /// variables as it had.
    pub proof fn lemma_giving_up_keeps_shape(self, var: FerrumVariable)
        ensures
            var.invalidation(self).compiler.shaped_like(self),
    {
        match var.loc {
            Some(DataSource::Reference(_, loc, _)) => {
                self.lemma_release_keeps_shape(loc, BorrowOp::DecShared);
            },
            Some(DataSource::MutReference(_, loc, _)) => {
                self.lemma_release_keeps_shape(loc, BorrowOp::FreeMut);
            },
            _ => {},
        }
    }

    /// A borrow within one scope is given back when the scope closes. If
    /// the two most recent variables of the innermost scope are a variable
    /// declared at that depth, which owns data on the stack and was not
    /// borrowed before, and then the one variable that has borrowed it,
    /// each as the borrow left it, then closing the scope goes as if
    /// neither had been declared.
    pub proof fn lemma_closing_gives_back_within_scope(
        self,
        lender: FerrumVariable,
        borrower: FerrumVariable,
        compiler: CompilerModel,
    )
        requires
            borrower.borrowing(lender, compiler).result is Ok,
            lender.borrow_state is Free,
            lender.spec_holds_data(),
            lender.spec_is_on_stack(),
            self.scopes.len() > 0,
            lender.stack_lvl == self.scopes.len(),
            self.scopes.last().vars.len() >= 2,
            self.scopes.last().vars.last() == borrower.borrowing(lender, compiler).var,
            self.scopes.last().vars.drop_last().last() == borrower.borrowing(
                lender,
                compiler,
            ).other,
        ensures
            self.closing() == self.without_latest().without_latest().closing(),
    {
        reveal_with_fuel(CompilerModel::closing, 3);
        let made = borrower.borrowing(lender, compiler);
        let rest = self.without_latest();
        let vars = rest.scopes.last().vars;
        let slot = Slot::Scoped(self.scopes.len() - 1, vars.len() - 1);
        assert(vars.last() == made.other);
        assert(rest.locate_scoped(lender.name@, self.scopes.len() as int) == Some(
            (self.scopes.len() - 1, vars.len() - 1),
        ));
        borrower.lemma_borrow_then_release(lender, compiler, rest, slot);
        let given_back = rest.put(slot, lender);
        assert(given_back.scopes.last().vars.last() == lender);
        assert(given_back.scopes.last().vars.drop_last() =~= vars.drop_last());
        assert(given_back.without_latest().scopes =~= rest.without_latest().scopes);
        assert(given_back.without_latest() =~= rest.without_latest());
        assert(lender.invalidation(given_back.without_latest()).compiler
            == given_back.without_latest());
    }

    /// The same with one more heap request.
    pub open spec fn requested(self, request: HeapRequest) -> CompilerModel {
        CompilerModel { requests: self.requests.push(request), ..self }
    }

    /// What a lookup finds is a variable that the compiler holds, under the
    /// name that was asked for.
    pub proof fn lemma_locate(self, name: Seq<char>, lvl: usize)
        ensures
            self.locate(name, lvl) matches Some(slot) ==> self.has(slot) && self.at(slot).name@
                == name,
    {
        self.lemma_locate_scoped(name, lvl as int);
        lemma_latest(self.globals, name);
    }

    /// Putting a variable back where it was found changes nothing.
    pub proof fn lemma_put_back(self, name: Seq<char>, lvl: usize)
        ensures
            self.locate(name, lvl) matches Some(slot) ==> self.put(slot, self.at(slot)) == self,
    {
        self.lemma_locate(name, lvl);
        match self.locate(name, lvl) {
            Some(Slot::Scoped(i, j)) => {
                assert(self.scopes[i].vars.update(j, self.scopes[i].vars[j]) =~= self.scopes[i].vars);
                assert(self.put(Slot::Scoped(i, j), self.at(Slot::Scoped(i, j))) =~= self);
            },
            Some(Slot::Global(j)) => {
                assert(self.put(Slot::Global(j), self.at(Slot::Global(j))) =~= self);
            },
            None => {},
        }
    }

    /// What a lookup in the scopes finds is in one of the scopes searched,
    /// and no scope further in declares the name.
    pub proof fn lemma_locate_scoped(self, name: Seq<char>, upto: int)
        ensures
            match self.locate_scoped(name, upto) {
                Some((i, j)) => {
                    &&& 0 <= i < upto <= self.scopes.len()
                    &&& latest(self.scopes[i].vars, name) == Some(j)
                    &&& 0 <= j < self.scopes[i].vars.len()
                    &&& self.scopes[i].vars[j].name@ == name
                    &&& forall|k: int| i < k < upto ==> latest(self.scopes[k].vars, name) is None
                },
                None => 0 < upto <= self.scopes.len() ==> forall|k: int|
                    0 <= k < upto ==> latest(self.scopes[k].vars, name) is None,
            },
        decreases upto,
    {
        if 0 < upto <= self.scopes.len() {
            lemma_latest(self.scopes[upto - 1].vars, name);
            if latest(self.scopes[upto - 1].vars, name) is None {
                self.lemma_locate_scoped(name, upto - 1);
            }
        }
    }
}

/// One lexical scope: its declarations, and the next free offset in its
/// frame. A name may be declared again; the most recent declaration is the
/// one that lookups see.
pub struct StackScope {
    vars: Vec<FerrumVariable>,
    sp: usize,
}

impl View for StackScope {
    type V = ScopeModel;

    closed spec fn view(&self) -> ScopeModel {
        ScopeModel { vars: self.vars@, sp: self.sp }
    }
}

impl StackScope {
    /// An empty scope.
    pub fn new() -> (r: Self)
        ensures
            r@ == (ScopeModel { vars: Seq::empty(), sp: 0 }),
    {
        StackScope { vars: Vec::new(), sp: 0 }
    }

    /// Takes `size` bytes of the scope's frame and says where they are.
    pub fn alloc_data_loc(&mut self, size: usize) -> (r: DataLoc)
        requires
            old(self)@.sp + size <= usize::MAX,
        ensures
            r == (DataLoc { is_stack: true, loc: old(self)@.sp, size }),
            final(self)@ == (ScopeModel { sp: (old(self)@.sp + size) as usize, ..old(self)@ }),
    {
        let loc = DataLoc { loc: self.sp, size, is_stack: true };
        self.sp += size;
        loc
    }

    /// Declares a variable. It hides earlier declarations of its name.
    pub fn add_var(&mut self, var: FerrumVariable)
        ensures
            final(self)@ == (ScopeModel { vars: old(self)@.vars.push(var), ..old(self)@ }),
    {
        self.vars.push(var);
    }

    /// The position of the most recent declaration of `name`.
    fn position(&self, name: &str) -> (r: Option<usize>)
        ensures
            match r {
                Some(i) => i < self@.vars.len() && latest(self@.vars, name@) == Some(i as int),
                None => latest(self@.vars, name@) is None,
            },
    {
        position_in(&self.vars, name)
    }

    /// The most recent declaration of `name`.
    pub fn get_var(&self, name: &str) -> (r: Option<&FerrumVariable>)
        ensures
            match latest(self@.vars, name@) {
                Some(j) => r matches Some(var) && *var == self@.vars[j],
                None => r is None,
            },
    {
        match self.position(name) {
            Some(j) => Some(&self.vars[j]),
            None => None,
        }
    }

    /// Takes the most recent declaration out of the scope.
    fn take_latest(&mut self) -> (r: Option<FerrumVariable>)
        ensures
            old(self)@.vars.len() == 0 ==> r is None && final(self)@ == old(self)@,
            old(self)@.vars.len() > 0 ==> r == Some(old(self)@.vars.last()) && final(self)@ == (
            ScopeModel { vars: old(self)@.vars.drop_last(), ..old(self)@ }),
    {
        let r = self.vars.pop();
        assert(old(self)@.vars.len() > 0 ==> self.vars@ =~= old(self)@.vars.drop_last());
        r
    }

    /// The most recent declaration of `name`, to change it.
    pub fn get_var_mut(&mut self, name: &str) -> (r: Option<&mut FerrumVariable>)
        ensures
            match latest(old(self)@.vars, name@) {
                Some(j) => r matches Some(var) && *var == old(self)@.vars[j] && final(self)@ == (
                ScopeModel { vars: old(self)@.vars.update(j, *final(var)), ..old(self)@ }),
                None => r is None && final(self)@ == old(self)@,
            },
    {
        match self.position(name) {
            Some(j) => Some(&mut self.vars[j]),
            None => None,
        }
    }
}

/// The position of the most recent declaration of `name` among `vars`.
fn position_in(vars: &Vec<FerrumVariable>, name: &str) -> (r: Option<usize>)
    ensures
        match r {
            Some(i) => i < vars@.len() && latest(vars@, name@) == Some(i as int),
            None => latest(vars@, name@) is None,
        },
{
    let mut i: usize = vars.len();
    assert(vars@.take(i as int) =~= vars@);
    while i > 0
        invariant
            i <= vars.len(),
            latest(vars@, name@) == latest(vars@.take(i as int), name@),
        decreases i,
    {
        assert(vars@.take(i as int).last() == vars@[i - 1]);
        if same_text(vars[i - 1].name.as_str(), name) {
            return Some(i - 1);
        }
        assert(vars@.take(i as int).drop_last() =~= vars@.take(i - 1));
        i -= 1;
    }
    None
}

/// The state of one compilation: the chunk that is written, the chain of
/// open scopes, the global declarations, and the heap requests made.
pub struct FerrumCompiler {
    chunk: Chunk,
    scopes: Vec<StackScope>,
    globals: Vec<FerrumVariable>,
    requests: Vec<HeapRequest>,
}

impl View for FerrumCompiler {
    type V = CompilerModel;

    closed spec fn view(&self) -> CompilerModel {
        CompilerModel {
            chunk: self.chunk@,
            scopes: Seq::new(self.scopes@.len(), |i: int| self.scopes@[i]@),
            globals: self.globals@,
            requests: self.requests@,
        }
    }
}

impl FerrumCompiler {
    /// A compiler that writes to `chunk`, with no scope open and nothing
    /// declared.
    pub fn new(chunk: Chunk) -> (r: Self)
        ensures
            r@ == (CompilerModel {
                chunk: chunk@,
                scopes: Seq::empty(),
                globals: Seq::empty(),
                requests: Seq::empty(),
            }),
    {
        let r = FerrumCompiler {
            chunk,
            scopes: Vec::new(),
            globals: Vec::new(),
            requests: Vec::new(),
        };
        assert(r@.scopes =~= Seq::empty());
        r
    }

    /// How many scopes are open.
    pub fn depth(&self) -> (r: usize)
        ensures
            r == self@.scopes.len(),
    {
        self.scopes.len()
    }

    /// Opens a scope inside the innermost one.
    pub fn push_scope(&mut self)
        ensures
            final(self)@ == (CompilerModel {
                scopes: old(self)@.scopes.push(ScopeModel { vars: Seq::empty(), sp: 0 }),
                ..old(self)@
            }),
    {
        self.scopes.push(StackScope::new());
        assert(self@.scopes =~= old(self)@.scopes.push(ScopeModel { vars: Seq::empty(), sp: 0 }));
    }

    /// Closes the innermost scope. Its variables go out of scope, the most
    /// recent first, while the scope is still open: each gives back the
    /// borrow that it holds, if that borrow is counted at compile time, be
    /// it of a variable of an outer scope or of this one. The first
    /// variable that refuses, because it is still borrowed itself, or
    /// because what it borrowed cannot be given back, ends the call with
    /// its error. Either way the scope has left the chain afterwards.
    pub fn pop_scope(&mut self) -> (r: CompileResult<()>)
        ensures
            verdict(r) == old(self)@.closing().result,
            final(self)@ == old(self)@.closing().compiler,
    {
        let depth = self.scopes.len();
        if depth == 0 {
            return Ok(());
        }
        loop
            invariant
                self@.scopes.len() == depth,
                depth > 0,
                self@.closing() == old(self)@.closing(),
            ensures
                self@.scopes.len() == depth,
                self@.scopes.last().vars.len() == 0,
                self@.closing() == old(self)@.closing(),
            decreases self@.scopes.last().vars.len(),
        {
            let ghost before = self@;
            let taken = self.scopes[depth - 1].take_latest();
            match taken {
                None => {
                    assert(self@ =~= before);
                    break ;
                },
                Some(mut var) => {
                    assert(self@ =~= before.without_latest());
                    proof {
                        self@.lemma_giving_up_keeps_shape(var);
                    }
                    match var.try_invalidate_data(self) {
                        Ok(_) => {},
                        Err(e) => {
                            self.scopes.pop();
                            assert(self@ =~= before.closing().compiler);
                            return Err(e);
                        },
                    }
                },
            }
        }
        self.scopes.pop();
        assert(self@ =~= old(self)@.closing().compiler);
        Ok(())
    }

    /// Declares a variable in the innermost scope; `false`, and nothing
    /// declared, if no scope is open.
    pub fn declare(&mut self, var: FerrumVariable) -> (r: bool)
        ensures
            r == (old(self)@.scopes.len() > 0),
            r ==> final(self)@ == (CompilerModel {
                scopes: old(self)@.scopes.update(
                    old(self)@.scopes.len() - 1,
                    ScopeModel {
                        vars: old(self)@.scopes.last().vars.push(var),
                        ..old(self)@.scopes.last()
                    },
                ),
                ..old(self)@
            }),
            !r ==> final(self)@ == old(self)@,
    {
        let depth = self.scopes.len();
        if depth == 0 {
            return false;
        }
        self.scopes[depth - 1].add_var(var);
        assert(self@.scopes =~= old(self)@.scopes.update(
            depth - 1,
            ScopeModel {
                vars: old(self)@.scopes.last().vars.push(var),
                ..old(self)@.scopes.last()
            },
        ));
        true
    }

    /// Declares a global variable. It hides earlier globals of its name.
    pub fn declare_global(&mut self, var: FerrumVariable)
        ensures
            final(self)@ == (CompilerModel {
                globals: old(self)@.globals.push(var),
                ..old(self)@
            }),
    {
        self.globals.push(var);
        assert(self@.scopes =~= old(self)@.scopes);
    }

    /// The most recent global declaration of `name`.
    pub fn find_global(&self, name: &str) -> (r: Option<&FerrumVariable>)
        ensures
            match latest(self@.globals, name@) {
                Some(j) => r matches Some(var) && *var == self@.globals[j],
                None => r is None,
            },
    {
        match position_in(&self.globals, name) {
            Some(j) => Some(&self.globals[j]),
            None => None,
        }
    }

    /// The most recent global declaration of `name`, to change it.
    pub fn find_global_mut(&mut self, name: &str) -> (r: Option<&mut FerrumVariable>)
        ensures
            match latest(old(self)@.globals, name@) {
                Some(j) => r matches Some(var) && *var == old(self)@.globals[j] && final(self)@
                    =~= old(self)@.put(Slot::Global(j), *final(var)),
                None => r is None && final(self)@ == old(self)@,
            },
    {
        match position_in(&self.globals, name) {
            Some(j) => {
                assert(self@.scopes =~= old(self)@.scopes);
                Some(&mut self.globals[j])
            },
            None => None,
        }
    }

    /// The innermost of the first `lvl` scopes that declares `name`.
    fn scope_of(&self, name: &str, lvl: usize) -> (r: Option<usize>)
        requires
            lvl <= self@.scopes.len(),
        ensures
            match r {
                Some(i) => i < self@.scopes.len() && latest(self@.scopes[i as int].vars, name@)
                    is Some && self@.locate_scoped(name@, lvl as int) == Some(
                    (i as int, latest(self@.scopes[i as int].vars, name@)->0),
                ),
                None => self@.locate_scoped(name@, lvl as int) is None,
            },
    {
        let mut i: usize = lvl;
        while i > 0
            invariant
                i <= self.scopes.len(),
                self@.locate_scoped(name@, lvl as int) == self@.locate_scoped(name@, i as int),
            decreases i,
        {
            assert(self@.scopes[i - 1] == self.scopes@[i - 1]@);
            match self.scopes[i - 1].position(name) {
                Some(_) => {
                    return Some(i - 1);
                },
                None => {},
            }
            i -= 1;
        }
        None
    }

    /// The variable that `name` means at depth `lvl`: the scopes below that
    /// depth are searched from the innermost outwards, then the globals.
    /// From a depth beyond the open scopes nothing is found.
    pub fn find_var(&self, name: &str, lvl: usize) -> (r: Option<&FerrumVariable>)
        ensures
            match self@.locate(name@, lvl) {
                Some(slot) => r matches Some(var) && *var == self@.at(slot),
                None => r is None,
            },
    {
        if lvl > self.scopes.len() {
            return None;
        }
        match self.scope_of(name, lvl) {
            Some(i) => {
                assert(self@.scopes[i as int] == self.scopes@[i as int]@);
                self.scopes[i].get_var(name)
            },
            None => self.find_global(name),
        }
    }

    /// The variable that `name` means at depth `lvl`, to change it.
    pub fn find_var_mut(&mut self, name: &str, lvl: usize) -> (r: Option<&mut FerrumVariable>)
        ensures
            match old(self)@.locate(name@, lvl) {
                Some(slot) => r matches Some(var) && *var == old(self)@.at(slot) && final(self)@
                    =~= old(self)@.put(slot, *final(var)),
                None => r is None && final(self)@ == old(self)@,
            },
    {
        if lvl > self.scopes.len() {
            return None;
        }
        match self.scope_of(name, lvl) {
            Some(i) => {
                assert(self@.scopes[i as int] == self.scopes@[i as int]@);
                self.scopes[i].get_var_mut(name)
            },
            None => self.find_global_mut(name),
        }
    }

    /// Gives back one shared borrow of the variable under `loc`.
    /// `UnknownVariable` if there is no such variable, `IllegalBorrowState`
    /// if it has no shared borrow; then nothing changes.
    pub fn deref_var(&mut self, loc: &VarLoc) -> (r: CompileResult<()>)
        ensures
            match old(self)@.release(*loc, BorrowOp::DecShared) {
                Ok(after) => r is Ok && final(self)@ == after,
                Err(failure) => verdict(r) == Err::<(), Failure>(failure) && final(self)@ == old(
                    self,
                )@,
            },
    {
        let r = match self.find_var_mut(loc.name.as_str(), loc.stack_frame) {
            Some(var) => var.borrow_state.dec_shared(),
            None => Err(CompileError::UnknownVariable(loc.clone())),
        };
        proof {
            old(self)@.lemma_locate(loc.name@, loc.stack_frame);
            match old(self)@.release(*loc, BorrowOp::DecShared) {
                Ok(after) => {
                    assert(self@ =~= after);
                },
                Err(_) => {
                    old(self)@.lemma_put_back(loc.name@, loc.stack_frame);
                },
            }
        }
        r
    }

    /// Gives back the exclusive borrow of the variable under `loc`.
    /// `UnknownVariable` if there is no such variable, `IllegalBorrowState`
    /// if it is not borrowed exclusively; then nothing changes.
    pub fn deref_mut_var(&mut self, loc: &VarLoc) -> (r: CompileResult<()>)
        ensures
            match old(self)@.release(*loc, BorrowOp::FreeMut) {
                Ok(after) => r is Ok && final(self)@ == after,
                Err(failure) => verdict(r) == Err::<(), Failure>(failure) && final(self)@ == old(
                    self,
                )@,
            },
    {
        let r = match self.find_var_mut(loc.name.as_str(), loc.stack_frame) {
            Some(var) => var.borrow_state.free_mut(),
            None => Err(CompileError::UnknownVariable(loc.clone())),
        };
        proof {
            old(self)@.lemma_locate(loc.name@, loc.stack_frame);
            match old(self)@.release(*loc, BorrowOp::FreeMut) {
                Ok(after) => {
                    assert(self@ =~= after);
                },
                Err(_) => {
                    old(self)@.lemma_put_back(loc.name@, loc.stack_frame);
                },
            }
        }
        r
    }

    /// Asks the running program to count one more shared reference to the
    /// heap data of `var`.
    pub fn inc_heap_rc(&mut self, var: &FerrumVariable)
        ensures
            final(self)@ == old(self)@.requested(HeapRequest::IncRc(var.spec_create_ref())),
    {
        self.requests.push(HeapRequest::IncRc(var.create_ref()));
        assert(self@.scopes =~= old(self)@.scopes);
    }

    /// Asks the running program to count one shared reference to the heap
    /// data of `var` less.
    pub fn dec_heap_rc(&mut self, var: &FerrumVariable)
        ensures
            final(self)@ == old(self)@.requested(HeapRequest::DecRc(var.spec_create_ref())),
    {
        self.requests.push(HeapRequest::DecRc(var.create_ref()));
        assert(self@.scopes =~= old(self)@.scopes);
    }

    /// Asks the running program to take the exclusive lock on the heap data
    /// of `var`.
    pub fn grab_heap_mut(&mut self, var: &FerrumVariable)
        ensures
            final(self)@ == old(self)@.requested(HeapRequest::GrabMut(var.spec_create_ref())),
    {
        self.requests.push(HeapRequest::GrabMut(var.create_ref()));
        assert(self@.scopes =~= old(self)@.scopes);
    }

    /// Asks the running program to give back the exclusive lock on the heap
    /// data of `var`.
    pub fn drop_heap_mut(&mut self, var: &FerrumVariable)
        ensures
            final(self)@ == old(self)@.requested(HeapRequest::DropMut(var.spec_create_ref())),
    {
        self.requests.push(HeapRequest::DropMut(var.create_ref()));
        assert(self@.scopes =~= old(self)@.scopes);
    }

    /// The heap requests made so far, oldest first.
    pub fn requests(&self) -> (r: &Vec<HeapRequest>)
        ensures
            r@ == self@.requests,
    {
        &self.requests
    }

    /// The chunk that the compiler writes to.
    pub fn chunk(&self) -> (r: &Chunk)
        ensures
            r@ == self@.chunk,
    {
        &self.chunk
    }
}

} // verus!
