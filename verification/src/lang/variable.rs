use vstd::prelude::*;
use vstd::string::StringExecFns;
use crate::lang::compiler::{CompilerModel, FerrumCompiler, HeapRequest, Slot};
use crate::lang::error::{verdict, CompileError, CompileResult, Failure};
use crate::lang::lifetime::LifeTime;
use crate::lang::types::{FerrumGenericsTable, FerrumType, GenericTemplate};

verus! {

/// Where a variable's value lives at the moment.
#[derive(Debug)]
pub enum DataSource {
    /// The variable owns the storage.
    Location(DataLoc),
    /// A shared borrow of the variable found under the `VarLoc`; the flag
    /// says that the borrow was given back.
    Reference(DataLoc, VarLoc, bool),
    /// An exclusive borrow of the variable found under the `VarLoc`; the
    /// flag says that the borrow was given back.
    MutReference(DataLoc, VarLoc, bool),
}

/// A data source after it gave back what it had borrowed.
pub struct Release {
    pub result: Result<(), Failure>,
    pub source: DataSource,
    pub compiler: CompilerModel,
}

impl DataSource {
    /// The source pointed at `new_loc`, if it is a reference of the asked
    /// kind; else the failure that names the kind.
    pub open spec fn rebound(self, new_loc: VarLoc, exclusive: bool) -> Result<
        DataSource,
        Failure,
    > {
        match self {
            DataSource::Reference(data, _, _) if !exclusive => Ok(
                DataSource::Reference(data, new_loc, false),
            ),
            DataSource::MutReference(data, _, _) if exclusive => Ok(
                DataSource::MutReference(data, new_loc, false),
            ),
            _ => Err(
                Failure::IllegalDataSource(
                    if exclusive {
                        "mutable reference"@
                    } else {
                        "shared reference"@
                    },
                ),
            ),
        }
    }

    /// What giving back the borrow does: a reference is marked as given
    /// back, and the variable it names loses one shared borrow, or its
    /// exclusive one. The mark is set also where the compiler refuses.
    pub open spec fn released(self, compiler: CompilerModel) -> Release {
        match self {
            DataSource::Location(_) => Release { result: Ok(()), source: self, compiler },
            DataSource::Reference(data, loc, _) => {
                let source = DataSource::Reference(data, loc, true);
                match compiler.release(loc, BorrowOp::DecShared) {
                    Ok(after) => Release { result: Ok(()), source, compiler: after },
                    Err(failure) => Release { result: Err(failure), source, compiler },
                }
            },
            DataSource::MutReference(data, loc, _) => {
                let source = DataSource::MutReference(data, loc, true);
                match compiler.release(loc, BorrowOp::FreeMut) {
                    Ok(after) => Release { result: Ok(()), source, compiler: after },
                    Err(failure) => Release { result: Err(failure), source, compiler },
                }
            },
        }
    }

    /// Whether the source is owned storage on the heap.
    pub open spec fn spec_is_heap_data(self) -> bool {
        self matches DataSource::Location(data) && !data.is_stack
    }

    /// The variable that a reference names.
    pub open spec fn referent(self) -> Option<VarLoc> {
        match self {
            DataSource::Location(_) => None,
            DataSource::Reference(_, loc, _) => Some(loc),
            DataSource::MutReference(_, loc, _) => Some(loc),
        }
    }

    /// Whether the source is a reference to a variable whose data is on
    /// the heap; the failure if the compiler does not know that variable.
    pub open spec fn heap_ref(self, compiler: CompilerModel) -> Result<bool, Failure> {
        match self.referent() {
            None => Ok(false),
            Some(loc) => match compiler.locate(loc.name@, loc.stack_frame) {
                Some(slot) => Ok(compiler.at(slot).spec_is_on_heap()),
                None => Err(Failure::UnknownVariable(loc)),
            },
        }
    }

    /// Points a shared reference at another variable.
    pub fn new_ref(&mut self, new_loc: VarLoc) -> (r: CompileResult<()>)
        ensures
            match old(self).rebound(new_loc, false) {
                Ok(source) => r is Ok && *final(self) == source,
                Err(failure) => verdict(r) == Err::<(), Failure>(failure) && *final(self) == *old(
                    self,
                ),
            },
    {
        match self {
            DataSource::Reference(_, loc, invalidated) => {
                *loc = new_loc;
                *invalidated = false;
                Ok(())
            },
            _ => Err(CompileError::IllegalDataSource(String::from_str("shared reference"))),
        }
    }

    /// Points an exclusive reference at another variable.
    pub fn new_mut_ref(&mut self, new_loc: VarLoc) -> (r: CompileResult<()>)
        ensures
            match old(self).rebound(new_loc, true) {
                Ok(source) => r is Ok && *final(self) == source,
                Err(failure) => verdict(r) == Err::<(), Failure>(failure) && *final(self) == *old(
                    self,
                ),
            },
    {
        match self {
            DataSource::MutReference(_, loc, invalidated) => {
                *loc = new_loc;
                *invalidated = false;
                Ok(())
            },
            _ => Err(CompileError::IllegalDataSource(String::from_str("mutable reference"))),
        }
    }

    /// Gives back what the source had borrowed.
    pub fn remove_dependencies(&mut self, compiler: &mut FerrumCompiler) -> (r: CompileResult<()>)
        ensures
            verdict(r) == old(self).released(old(compiler)@).result,
            *final(self) == old(self).released(old(compiler)@).source,
            final(compiler)@ == old(self).released(old(compiler)@).compiler,
    {
        match self {
            DataSource::Location(_) => Ok(()),
            DataSource::Reference(_, loc, invalidated) => {
                *invalidated = true;
                compiler.deref_var(loc)
            },
            DataSource::MutReference(_, loc, invalidated) => {
                *invalidated = true;
                compiler.deref_mut_var(loc)
            },
        }
    }

    /// Whether the source is owned storage on the heap.
    pub fn is_heap_data(&self) -> (r: bool)
        ensures
            r == self.spec_is_heap_data(),
    {
        match self {
            DataSource::Location(data) => !data.is_stack,
            _ => false,
        }
    }

    /// Whether the source is a reference to a variable whose data is on
    /// the heap. `UnknownVariable` if the compiler does not know the
    /// variable that the reference names.
    pub fn is_heap_ref(&self, compiler: &mut FerrumCompiler) -> (r: CompileResult<bool>)
        ensures
            final(compiler)@ == old(compiler)@,
            match self.heap_ref(old(compiler)@) {
                Ok(b) => r == Ok::<bool, CompileError>(b),
                Err(failure) => r matches Err(e) && e@ == failure,
            },
    {
        let loc = match self {
            DataSource::Reference(_, loc, _) => loc,
            DataSource::MutReference(_, loc, _) => loc,
            _ => return Ok(false),
        };
        match compiler.find_var(loc.name.as_str(), loc.stack_frame) {
            Some(var) => Ok(var.is_on_heap()),
            None => Err(CompileError::UnknownVariable(loc.clone())),
        }
    }

    /// Whether the source is no reference to a variable whose data is on
    /// the heap.
    pub fn is_local_ref(&self, compiler: &mut FerrumCompiler) -> (r: CompileResult<bool>)
        ensures
            final(compiler)@ == old(compiler)@,
            match self.heap_ref(old(compiler)@) {
                Ok(b) => r == Ok::<bool, CompileError>(!b),
                Err(failure) => r matches Err(e) && e@ == failure,
            },
    {
        match self.is_heap_ref(compiler) {
            Ok(b) => Ok(!b),
            Err(e) => Err(e),
        }
    }
}

/// How a variable is borrowed at the moment.
#[derive(Debug, Clone, Copy, PartialEq, Eq, Structural)]
pub enum BorrowState {
    /// Not borrowed.
    Free,
    /// Borrowed exclusively.
    Mut,
    /// Borrowed by this many shared references.
    Shared(usize),
}

/// A step of the borrow bookkeeping.
pub enum BorrowOp {
    IncShared,
    DecShared,
    BorrowMut,
    FreeMut,
}

impl BorrowState {
    /// A shared count is never 0: a variable without borrows is `Free`.
    pub open spec fn wf(self) -> bool {
        self matches BorrowState::Shared(n) ==> n >= 1
    }

    /// The state after the step, or the failure that refuses it.
    pub open spec fn after(self, op: BorrowOp) -> Result<BorrowState, Failure> {
        match op {
            BorrowOp::IncShared => match self {
                BorrowState::Free => Ok(BorrowState::Shared(1)),
                BorrowState::Mut => Err(Failure::IllegalSharedBorrow),
                BorrowState::Shared(n) => Ok(BorrowState::Shared((n + 1) as usize)),
            },
            BorrowOp::DecShared => match self {
                BorrowState::Shared(n) => if n == 0 {
                    Err(Failure::IllegalBorrowState)
                } else if n == 1 {
                    Ok(BorrowState::Free)
                } else {
                    Ok(BorrowState::Shared((n - 1) as usize))
                },
                _ => Err(Failure::IllegalBorrowState),
            },
            BorrowOp::BorrowMut => match self {
                BorrowState::Free => Ok(BorrowState::Mut),
                _ => Err(Failure::IllegalMutBorrow),
            },
            BorrowOp::FreeMut => match self {
                BorrowState::Mut => Ok(BorrowState::Free),
                _ => Err(Failure::IllegalBorrowState),
            },
        }
    }

    /// The state after the steps, taken in order, or the failure of the
    /// first step that is refused.
    pub open spec fn after_all(self, ops: Seq<BorrowOp>) -> Result<BorrowState, Failure>
        decreases ops.len(),
    {
        if ops.len() == 0 {
            Ok(self)
        } else {
            match self.after(ops[0]) {
                Ok(next) => next.after_all(ops.drop_first()),
                Err(failure) => Err(failure),
            }
        }
    }

    /// How many shared borrows the state counts.
    pub open spec fn shared_count(self) -> nat {
        match self {
            BorrowState::Shared(n) => n as nat,
            _ => 0,
        }
    }

    /// The state of a variable with `n` shared borrows and no exclusive
    /// one.
    pub open spec fn counted(n: nat) -> BorrowState {
        if n == 0 {
            BorrowState::Free
        } else {
            BorrowState::Shared(n as usize)
        }
    }

    /// The same step, `n` times.
    pub open spec fn repeated(op: BorrowOp, n: nat) -> Seq<BorrowOp> {
        Seq::new(n, |i: int| op)
    }

    /// A step that is accepted leads from a well-formed state to a
    /// well-formed state, and no state is borrowed exclusively and shared
    /// at once.
    pub proof fn lemma_step_keeps_wf(self, op: BorrowOp)
        requires
            self.wf(),
            self.shared_count() < usize::MAX,
        ensures
            !(self.spec_is_borrowed_mut() && self.spec_is_borrowed_shared()),
            self.after(op) matches Ok(next) ==> {
                &&& next.wf()
                &&& !(next.spec_is_borrowed_mut() && next.spec_is_borrowed_shared())
                &&& next.spec_is_borrowed_mut() ==> next.shared_count() == 0
                &&& next.shared_count() <= self.shared_count() + 1
            },
    {
    }

    /// Whatever steps are taken from a well-formed state, as long as each
    /// is accepted the state stays well formed: an exclusive borrow and a
    /// shared borrow are never held together. The count of shared borrows
    /// must have room for the steps.
    pub proof fn lemma_steps_keep_wf(self, ops: Seq<BorrowOp>)
        requires
            self.wf(),
            self.shared_count() + ops.len() <= usize::MAX,
        ensures
            self.after_all(ops) matches Ok(end) ==> {
                &&& end.wf()
                &&& !(end.spec_is_borrowed_mut() && end.spec_is_borrowed_shared())
                &&& end.spec_is_borrowed_mut() ==> end.shared_count() == 0
                &&& end.shared_count() <= self.shared_count() + ops.len()
            },
        decreases ops.len(),
    {
        if ops.len() > 0 {
            self.lemma_step_keeps_wf(ops[0]);
            if let Ok(next) = self.after(ops[0]) {
                next.lemma_steps_keep_wf(ops.drop_first());
            }
        }
    }

    /// Taking the steps of `first` and then those of `second` is taking
    /// the steps of both, one after the other.
    pub proof fn lemma_steps_in_turn(self, first: Seq<BorrowOp>, second: Seq<BorrowOp>)
        ensures
            self.after_all(first + second) == match self.after_all(first) {
                Ok(middle) => middle.after_all(second),
                Err(failure) => Err(failure),
            },
        decreases first.len(),
    {
        if first.len() == 0 {
            assert(first + second =~= second);
        } else {
            assert((first + second)[0] == first[0]);
            assert((first + second).drop_first() =~= first.drop_first() + second);
            if let Ok(next) = self.after(first[0]) {
                next.lemma_steps_in_turn(first.drop_first(), second);
            }
        }
    }

    /// `n` more shared borrows on top of `k` make `k + n`.
    pub proof fn lemma_inc_shared_repeated(k: nat, n: nat)
        requires
            k + n <= usize::MAX,
        ensures
            Self::counted(k).after_all(Self::repeated(BorrowOp::IncShared, n)) == Ok::<
                BorrowState,
                Failure,
            >(Self::counted(k + n)),
        decreases n,
    {
        if n > 0 {
            let ops = Self::repeated(BorrowOp::IncShared, n);
            assert(ops.drop_first() =~= Self::repeated(BorrowOp::IncShared, (n - 1) as nat));
            Self::lemma_inc_shared_repeated(k + 1, (n - 1) as nat);
        }
    }

    /// Giving back `n` of `k + n` shared borrows leaves `k`.
    pub proof fn lemma_dec_shared_repeated(k: nat, n: nat)
        requires
            k + n <= usize::MAX,
        ensures
            Self::counted(k + n).after_all(Self::repeated(BorrowOp::DecShared, n)) == Ok::<
                BorrowState,
                Failure,
            >(Self::counted(k)),
        decreases n,
    {
        if n > 0 {
            let ops = Self::repeated(BorrowOp::DecShared, n);
            assert(ops.drop_first() =~= Self::repeated(BorrowOp::DecShared, (n - 1) as nat));
            Self::lemma_dec_shared_repeated(k, (n - 1) as nat);
        }
    }

    /// Borrowing shared `n` times and giving a shared borrow back as many
    /// times leads from `Free` back to `Free`.
    pub proof fn lemma_shared_round_trip(n: nat)
        requires
            n <= usize::MAX,
        ensures
            BorrowState::Free.after_all(
                Self::repeated(BorrowOp::IncShared, n) + Self::repeated(BorrowOp::DecShared, n),
            ) == Ok::<BorrowState, Failure>(BorrowState::Free),
    {
        Self::lemma_inc_shared_repeated(0, n);
        Self::lemma_dec_shared_repeated(0, n);
        BorrowState::Free.lemma_steps_in_turn(
            Self::repeated(BorrowOp::IncShared, n),
            Self::repeated(BorrowOp::DecShared, n),
        );
    }

    pub open spec fn spec_is_borrowed(self) -> bool {
        self !is Free
    }

    pub open spec fn spec_is_borrowed_mut(self) -> bool {
        self is Mut
    }

    pub open spec fn spec_is_borrowed_shared(self) -> bool {
        self is Shared
    }

    /// Counts one more shared borrow. `IllegalSharedBorrow`, and no change,
    /// if the variable is borrowed exclusively.
    pub fn inc_shared(&mut self) -> (r: CompileResult<()>)
        requires
            *old(self) != BorrowState::Shared(usize::MAX),
        ensures
            match old(self).after(BorrowOp::IncShared) {
                Ok(next) => r is Ok && *final(self) == next,
                Err(failure) => verdict(r) == Err::<(), Failure>(failure) && *final(self) == *old(
                    self,
                ),
            },
            old(self).wf() ==> final(self).wf(),
    {
        match self {
            BorrowState::Free => {
                *self = BorrowState::Shared(1);
                Ok(())
            },
            BorrowState::Mut => Err(CompileError::IllegalSharedBorrow),
            BorrowState::Shared(counter) => {
                *counter += 1;
                Ok(())
            },
        }
    }

    /// Counts one shared borrow less; the last one leaves the variable
    /// unborrowed. `IllegalBorrowState`, and no change, if there is no
    /// shared borrow to give back.
    pub fn dec_shared(&mut self) -> (r: CompileResult<()>)
        ensures
            match old(self).after(BorrowOp::DecShared) {
                Ok(next) => r is Ok && *final(self) == next,
                Err(failure) => verdict(r) == Err::<(), Failure>(failure) && *final(self) == *old(
                    self,
                ),
            },
            old(self).wf() ==> final(self).wf(),
    {
        match self {
            BorrowState::Shared(counter) => {
                if *counter == 0 {
                    return Err(CompileError::IllegalBorrowState);
                }
                *counter -= 1;
                if *counter == 0 {
                    *self = BorrowState::Free;
                }
                Ok(())
            },
            _ => Err(CompileError::IllegalBorrowState),
        }
    }

    /// Borrows exclusively. `IllegalMutBorrow`, and no change, if the
    /// variable is borrowed in any way.
    pub fn borrow_mut(&mut self) -> (r: CompileResult<()>)
        ensures
            match old(self).after(BorrowOp::BorrowMut) {
                Ok(next) => r is Ok && *final(self) == next,
                Err(failure) => verdict(r) == Err::<(), Failure>(failure) && *final(self) == *old(
                    self,
                ),
            },
            old(self).wf() ==> final(self).wf(),
    {
        match self {
            BorrowState::Free => {
                *self = BorrowState::Mut;
                Ok(())
            },
            _ => Err(CompileError::IllegalMutBorrow),
        }
    }

    /// Gives the exclusive borrow back. `IllegalBorrowState`, and no
    /// change, if there is none.
    pub fn free_mut(&mut self) -> (r: CompileResult<()>)
        ensures
            match old(self).after(BorrowOp::FreeMut) {
                Ok(next) => r is Ok && *final(self) == next,
                Err(failure) => verdict(r) == Err::<(), Failure>(failure) && *final(self) == *old(
                    self,
                ),
            },
            old(self).wf() ==> final(self).wf(),
    {
        match self {
            BorrowState::Mut => {
                *self = BorrowState::Free;
                Ok(())
            },
            _ => Err(CompileError::IllegalBorrowState),
        }
    }

    pub fn is_borrowed(&self) -> (r: bool)
        ensures
            r == self.spec_is_borrowed(),
    {
        match self {
            BorrowState::Free => false,
            _ => true,
        }
    }

    pub fn is_borrowed_mut(&self) -> (r: bool)
        ensures
            r == self.spec_is_borrowed_mut(),
    {
        match self {
            BorrowState::Mut => true,
            _ => false,
        }
    }

    pub fn is_borrowed_shared(&self) -> (r: bool)
        ensures
            r == self.spec_is_borrowed_shared(),
    {
        match self {
            BorrowState::Shared(_) => true,
            _ => false,
        }
    }
}

/// The key under which a variable is looked up again: the depth it was
/// declared at, and its name. It names a variable; it owns nothing.
#[derive(Debug)]
pub struct VarLoc {
    pub stack_frame: usize,
    pub name: String,
}

impl Clone for VarLoc {
    fn clone(&self) -> (r: Self)
        ensures
            r == *self,
    {
        VarLoc { stack_frame: self.stack_frame, name: self.name.clone() }
    }
}

/// A place in storage: on the stack or on the heap, where, and how many
/// bytes.
#[derive(Debug, Clone, Copy, PartialEq, Eq, Structural)]
pub struct DataLoc {
    pub is_stack: bool,
    pub loc: usize,
    pub size: usize,
}

/// A variable declaration in the source: the name, the type, and whether
/// the variable may be changed.
#[derive(Debug)]
pub struct FerrumVarDeclare {
    name: String,
    ty: FerrumType,
    mutable: bool,
}

impl Clone for FerrumVarDeclare {
    fn clone(&self) -> (r: Self)
        ensures
            r == *self,
    {
        FerrumVarDeclare { name: self.name.clone(), ty: self.ty.clone(), mutable: self.mutable }
    }
}

impl FerrumVarDeclare {
    pub closed spec fn spec_name(&self) -> Seq<char> {
        self.name@
    }

    pub closed spec fn spec_type(&self) -> FerrumType {
        self.ty
    }

    pub closed spec fn spec_mutable(&self) -> bool {
        self.mutable
    }

    /// The declaration of `name` with type `ty`.
    pub fn new(name: String, ty: FerrumType, mutable: bool) -> (r: Self)
        ensures
            r.spec_name() == name@,
            r.spec_type() == ty,
            r.spec_mutable() == mutable,
    {
        FerrumVarDeclare { name, ty, mutable }
    }

    pub fn name(&self) -> (r: &str)
        ensures
            r@ == self.spec_name(),
    {
        self.name.as_str()
    }

    pub fn get_type(&self) -> (r: &FerrumType)
        ensures
            *r == self.spec_type(),
    {
        &self.ty
    }

    pub fn is_mutable(&self) -> (r: bool)
        ensures
            r == self.spec_mutable(),
    {
        self.mutable
    }
}

/// What is known of a variable where it is used: where it was declared,
/// its type, and whether it holds data and is still alive.
#[derive(Debug)]
pub struct FerrumVariableHandle {
    name: String,
    declare: DataLoc,
    ty: FerrumType,
    mutable: bool,
    has_data: bool,
    is_alive: bool,
}

/// What a handle holds.
pub struct HandleView {
    pub name: Seq<char>,
    pub declare: DataLoc,
    pub ty: FerrumType,
    pub mutable: bool,
    pub has_data: bool,
    pub is_alive: bool,
}

impl View for FerrumVariableHandle {
    type V = HandleView;

    closed spec fn view(&self) -> HandleView {
        HandleView {
            name: self.name@,
            declare: self.declare,
            ty: self.ty,
            mutable: self.mutable,
            has_data: self.has_data,
            is_alive: self.is_alive,
        }
    }
}

impl FerrumVariableHandle {
    pub fn new(
        name: String,
        ty: FerrumType,
        loc: DataLoc,
        mutable: bool,
        has_data: bool,
        is_alive: bool,
    ) -> (r: Self)
        ensures
            r@ == (HandleView { name: name@, declare: loc, ty, mutable, has_data, is_alive }),
    {
        FerrumVariableHandle { name, ty, declare: loc, mutable, has_data, is_alive }
    }
}

/// A variable as the ownership rules see it.
#[derive(Debug)]
pub struct FerrumVariable {
    pub name: String,
    pub ty: FerrumType,
    /// Where the value lives; `None` before data is assigned and after the
    /// data was moved out.
    pub loc: Option<DataSource>,
    pub mutable: bool,
    pub lifetime: LifeTime,
    pub borrow_state: BorrowState,
    /// The depth of the scope that the variable was declared in.
    pub stack_lvl: usize,
    /// Whether giving up the data gives back a borrow that is counted at
    /// compile time.
    pub do_invalidate: bool,
}

/// A variable and the compiler after the variable gave up its data.
pub struct Invalidation {
    pub result: Result<(), Failure>,
    pub var: FerrumVariable,
    pub compiler: CompilerModel,
}

/// Two variables and the compiler after an operation on both.
pub struct Exchange {
    pub result: Result<(), Failure>,
    pub var: FerrumVariable,
    pub other: FerrumVariable,
    pub compiler: CompilerModel,
}

impl FerrumVariable {
    /// The key under which the variable is looked up.
    pub open spec fn spec_create_ref(self) -> VarLoc {
        VarLoc { stack_frame: self.stack_lvl, name: self.name }
    }

    pub open spec fn spec_holds_data(self) -> bool {
        self.loc matches Some(DataSource::Location(_))
    }

    pub open spec fn spec_holds_ref(self) -> bool {
        self.loc matches Some(source) && source !is Location
    }

    pub open spec fn spec_is_on_heap(self) -> bool {
        self.loc matches Some(source) && source.spec_is_heap_data()
    }

    pub open spec fn spec_is_on_stack(self) -> bool {
        !self.spec_is_on_heap()
    }

    /// What giving up the data does. A borrowed variable refuses with
    /// `ModifiedBorrowedData`. A variable that holds a borrow counted at
    /// compile time gives it back; every other variable stays as it is.
    pub open spec fn invalidation(self, compiler: CompilerModel) -> Invalidation {
        if self.borrow_state.spec_is_borrowed() {
            Invalidation {
                result: Err(Failure::ModifiedBorrowedData(self.spec_create_ref())),
                var: self,
                compiler,
            }
        } else if self.do_invalidate && self.loc is Some {
            let release = self.loc->0.released(compiler);
            Invalidation {
                result: release.result,
                var: FerrumVariable { loc: Some(release.source), ..self },
                compiler: release.compiler,
            }
        } else {
            Invalidation { result: Ok(()), var: self, compiler }
        }
    }

    /// What a move of the data of `other` into this variable does. The
    /// types must be the same; this variable gives up its data; then it
    /// holds what `other` held, and `other` holds nothing.
    pub open spec fn takeover(self, other: FerrumVariable, compiler: CompilerModel) -> Exchange {
        if self.ty@ != other.ty@ {
            Exchange {
                result: Err(Failure::DataTypeMismatch(self.ty, other.ty)),
                var: self,
                other,
                compiler,
            }
        } else {
            let given_up = self.invalidation(compiler);
            if given_up.result is Err {
                Exchange {
                    result: given_up.result,
                    var: given_up.var,
                    other,
                    compiler: given_up.compiler,
                }
            } else {
                Exchange {
                    result: Ok(()),
                    var: FerrumVariable { loc: other.loc, ..given_up.var },
                    other: FerrumVariable { loc: None, ..other },
                    compiler: given_up.compiler,
                }
            }
        }
    }

    /// Whether this variable's type is the shared reference to the type of
    /// `other`.
    pub open spec fn is_ref_to(self, other: FerrumVariable) -> bool {
        self.ty matches FerrumType::Ref(inner) && inner@ == other.ty@
    }

    /// Whether this variable's type is the exclusive reference to the type
    /// of `other`.
    pub open spec fn is_mut_ref_to(self, other: FerrumVariable) -> bool {
        self.ty matches FerrumType::MutRef(inner) && inner@ == other.ty@
    }

    /// What borrowing `other` does, shared or exclusive as this variable's
    /// type says.
    ///
    /// The type must be the reference to the type of `other`, else
    /// `DataTypeMismatch`; an exclusive borrow needs `other` to be mutable,
    /// else `DataNotMutable`. Up to here nothing changes.
    pub open spec fn borrowing(self, other: FerrumVariable, compiler: CompilerModel) -> Exchange {
        if self.is_ref_to(other) {
            self.borrowing_as(other, compiler, false)
        } else if self.is_mut_ref_to(other) {
            if other.mutable {
                self.borrowing_as(other, compiler, true)
            } else {
                Exchange {
                    result: Err(Failure::DataNotMutable(other.spec_create_ref())),
                    var: self,
                    other,
                    compiler,
                }
            }
        } else {
            Exchange {
                result: Err(
                    Failure::DataTypeMismatch(self.ty, FerrumType::Ref(Box::new(other.ty))),
                ),
                var: self,
                other,
                compiler,
            }
        }
    }

    /// What a borrow of the given kind does once the types are known to
    /// line up.
    ///
    /// This variable gives up its data. Then `other` counts the borrow, or
    /// refuses it and stays as it was. For data on the stack the borrow is
    /// followed at compile time; for data on the heap the running program
    /// is asked to follow it. Last, this variable's reference is pointed at
    /// `other`: `VariableNotInitialized` if it has no storage,
    /// `IllegalDataSource` if its storage is no reference of that kind.
    pub open spec fn borrowing_as(
        self,
        other: FerrumVariable,
        compiler: CompilerModel,
        exclusive: bool,
    ) -> Exchange {
        let given_up = self.invalidation(compiler);
        let step = if exclusive {
            BorrowOp::BorrowMut
        } else {
            BorrowOp::IncShared
        };
        if given_up.result is Err {
            Exchange { result: given_up.result, var: given_up.var, other, compiler: given_up.compiler }
        } else {
            match other.borrow_state.after(step) {
                Err(failure) => Exchange {
                    result: Err(failure),
                    var: given_up.var,
                    other,
                    compiler: given_up.compiler,
                },
                Ok(counted) => {
                    let lender = FerrumVariable { borrow_state: counted, ..other };
                    let on_stack = lender.spec_is_on_stack();
                    let request = if exclusive {
                        HeapRequest::GrabMut(lender.spec_create_ref())
                    } else {
                        HeapRequest::IncRc(lender.spec_create_ref())
                    };
                    let after = if on_stack {
                        given_up.compiler
                    } else {
                        given_up.compiler.requested(request)
                    };
                    let borrower = FerrumVariable { do_invalidate: on_stack, ..given_up.var };
                    match borrower.loc {
                        None => Exchange {
                            result: Err(Failure::VariableNotInitialized(borrower.spec_create_ref())),
                            var: borrower,
                            other: lender,
                            compiler: after,
                        },
                        Some(source) => match source.rebound(lender.spec_create_ref(), exclusive) {
                            Ok(pointed) => Exchange {
                                result: Ok(()),
                                var: FerrumVariable { loc: Some(pointed), ..borrower },
                                other: lender,
                                compiler: after,
                            },
                            Err(failure) => Exchange {
                                result: Err(failure),
                                var: borrower,
                                other: lender,
                                compiler: after,
                            },
                        },
                    }
                },
            }
        }
    }

    /// An exclusive borrow of a variable that is borrowed shared is
    /// refused, and the variable stays as it was, with the same count. The
    /// error is `IllegalMutBorrow` where no earlier test refuses: the
    /// variable is mutable, and the borrower can give up its own data.
    pub proof fn lemma_exclusive_borrow_of_shared_is_refused(
        self,
        other: FerrumVariable,
        compiler: CompilerModel,
    )
        requires
            self.is_mut_ref_to(other),
            other.borrow_state.shared_count() > 0,
        ensures
            self.borrowing(other, compiler).result is Err,
            self.borrowing(other, compiler).other == other,
            other.mutable && self.invalidation(compiler).result is Ok ==> self.borrowing(
                other,
                compiler,
            ).result == Err::<(), Failure>(Failure::IllegalMutBorrow),
    {
    }

    /// While a variable is borrowed exclusively, no shared borrow of it
    /// succeeds. After this variable has borrowed `other` exclusively,
    /// `other` is in the state `Mut`; a shared borrow of it by `asker`,
    /// whatever the compiler holds by then, is refused and leaves it in
    /// that state. The error is `IllegalSharedBorrow` where `asker` can
    /// give up its own data.
    pub proof fn lemma_exclusive_borrow_excludes_shared(
        self,
        other: FerrumVariable,
        compiler: CompilerModel,
        asker: FerrumVariable,
        later: CompilerModel,
    )
        requires
            self.is_mut_ref_to(other),
            self.borrowing(other, compiler).result is Ok,
            asker.is_ref_to(other),
        ensures
            self.borrowing(other, compiler).other.borrow_state is Mut,
            asker.borrowing(self.borrowing(other, compiler).other, later).result is Err,
            asker.borrowing(self.borrowing(other, compiler).other, later).other == self.borrowing(
                other,
                compiler,
            ).other,
            asker.invalidation(later).result is Ok ==> asker.borrowing(
                self.borrowing(other, compiler).other,
                later,
            ).result == Err::<(), Failure>(Failure::IllegalSharedBorrow),
    {
    }

    /// A borrow of stack data that is given back leaves the lender as it
    /// was. If this variable has borrowed `other`, shared or exclusive, and
    /// the compiler then holds `other`, as the borrow left it, under its
    /// own key, then giving up the borrow succeeds, and the compiler holds
    /// `other` with the borrow state that it had before the borrow.
    pub proof fn lemma_borrow_then_release(
        self,
        other: FerrumVariable,
        compiler: CompilerModel,
        held: CompilerModel,
        slot: Slot,
    )
        requires
            other.borrow_state.wf(),
            self.is_ref_to(other) ==> other.borrow_state.shared_count() < usize::MAX,
            self.borrowing(other, compiler).result is Ok,
            other.spec_is_on_stack(),
            held.locate(other.name@, other.stack_lvl) == Some(slot),
            held.at(slot) == self.borrowing(other, compiler).other,
        ensures
            self.borrowing(other, compiler).var.invalidation(held).result is Ok,
            self.borrowing(other, compiler).var.invalidation(held).compiler == held.put(
                slot,
                other,
            ),
    {
    }

    /// A variable that holds `loc` and is not borrowed.
    pub fn new(
        name: String,
        stack_lvl: usize,
        ty: FerrumType,
        loc: DataSource,
        mutable: bool,
        lifetime: LifeTime,
        do_invalidate: bool,
    ) -> (r: Self)
        ensures
            r == (FerrumVariable {
                name,
                ty,
                loc: Some(loc),
                mutable,
                lifetime,
                borrow_state: BorrowState::Free,
                stack_lvl,
                do_invalidate,
            }),
    {
        FerrumVariable {
            name,
            ty,
            loc: Some(loc),
            borrow_state: BorrowState::Free,
            stack_lvl,
            mutable,
            lifetime,
            do_invalidate,
        }
    }

    pub fn name(&self) -> (r: &str)
        ensures
            r@ == self.name@,
    {
        self.name.as_str()
    }

    pub fn get_type(&self) -> (r: &FerrumType)
        ensures
            *r == self.ty,
    {
        &self.ty
    }

    pub fn is_mutable(&self) -> (r: &bool)
        ensures
            *r == self.mutable,
    {
        &self.mutable
    }

    /// Whether the variable holds anything: data or a reference.
    pub fn is_valid(&self) -> (r: bool)
        ensures
            r == self.loc is Some,
    {
        self.loc.is_some()
    }

    /// Whether the variable holds a shared reference.
    pub fn is_ref(&self) -> (r: bool)
        ensures
            r == (self.loc matches Some(DataSource::Reference(_, _, _))),
    {
        match &self.loc {
            Some(DataSource::Reference(_, _, _)) => true,
            _ => false,
        }
    }

    /// Gives up the data before the variable gets other data: a borrow
    /// that this variable holds and that is counted at compile time is
    /// given back to the variable it was taken from.
    pub fn try_invalidate_data(&mut self, compiler: &mut FerrumCompiler) -> (r: CompileResult<()>)
        ensures
            verdict(r) == old(self).invalidation(old(compiler)@).result,
            *final(self) == old(self).invalidation(old(compiler)@).var,
            final(compiler)@ == old(self).invalidation(old(compiler)@).compiler,
    {
        if self.borrow_state.is_borrowed() {
            return Err(CompileError::ModifiedBorrowedData(self.create_ref()));
        }
        if !self.do_invalidate {
            return Ok(());
        }
        match &mut self.loc {
            Some(s) => s.remove_dependencies(compiler),
            None => Ok(()),
        }
    }

    /// Moves the data of `other` into this variable; `other` holds nothing
    /// afterwards. On `DataTypeMismatch` nothing has changed.
    pub fn take_ownership(&mut self, other: &mut Self, compiler: &mut FerrumCompiler) -> (r:
        CompileResult<()>)
        ensures
            verdict(r) == old(self).takeover(*old(other), old(compiler)@).result,
            *final(self) == old(self).takeover(*old(other), old(compiler)@).var,
            *final(other) == old(self).takeover(*old(other), old(compiler)@).other,
            final(compiler)@ == old(self).takeover(*old(other), old(compiler)@).compiler,
            old(self).ty@ != old(other).ty@ ==> verdict(r) == Err::<(), Failure>(
                Failure::DataTypeMismatch(old(self).ty, old(other).ty),
            ) && final(self).loc == old(self).loc && final(other).loc == old(other).loc,
    {
        if self.ty != other.ty {
            return Err(CompileError::DataTypeMismatch(self.ty.clone(), other.ty.clone()));
        }
        self.try_invalidate_data(compiler)?;
        self.loc = None;
        std::mem::swap(&mut self.loc, &mut other.loc);
        Ok(())
    }

    /// Exchanges the data of two variables of the same type. Borrows are
    /// not touched. On `DataTypeMismatch` nothing has changed.
    pub fn swap(&mut self, other: &mut Self) -> (r: CompileResult<()>)
        ensures
            old(self).ty@ == old(other).ty@ ==> r is Ok && *final(self) == (FerrumVariable {
                loc: old(other).loc,
                ..*old(self)
            }) && *final(other) == (FerrumVariable { loc: old(self).loc, ..*old(other) }),
            old(self).ty@ != old(other).ty@ ==> verdict(r) == Err::<(), Failure>(
                Failure::DataTypeMismatch(old(self).ty, old(other).ty),
            ) && *final(self) == *old(self) && *final(other) == *old(other),
    {
        if self.ty != other.ty {
            return Err(CompileError::DataTypeMismatch(self.ty.clone(), other.ty.clone()));
        }
        std::mem::swap(&mut self.loc, &mut other.loc);
        Ok(())
    }

    /// Borrows `other`: shared if this variable's type is the reference to
    /// the type of `other`, exclusive if it is the mutable reference.
    pub fn borrow(&mut self, other: &mut Self, compiler: &mut FerrumCompiler) -> (r: CompileResult<
        (),
    >)
        requires
            old(self).is_ref_to(*old(other)) ==> old(other).borrow_state != BorrowState::Shared(
                usize::MAX,
            ),
        ensures
            verdict(r) == old(self).borrowing(*old(other), old(compiler)@).result,
            *final(self) == old(self).borrowing(*old(other), old(compiler)@).var,
            *final(other) == old(self).borrowing(*old(other), old(compiler)@).other,
            final(compiler)@ == old(self).borrowing(*old(other), old(compiler)@).compiler,
            old(self).is_mut_ref_to(*old(other)) && old(other).borrow_state.shared_count() > 0 ==> {
                &&& r is Err
                &&& final(other).borrow_state == old(other).borrow_state
                &&& old(other).mutable && old(self).invalidation(old(compiler)@).result is Ok
                    ==> verdict(r) == Err::<(), Failure>(Failure::IllegalMutBorrow)
            },
            old(self).is_ref_to(*old(other)) && old(other).borrow_state is Mut ==> {
                &&& r is Err
                &&& final(other).borrow_state == old(other).borrow_state
                &&& old(self).invalidation(old(compiler)@).result is Ok ==> verdict(r) == Err::<
                    (),
                    Failure,
                >(Failure::IllegalSharedBorrow)
            },
    {
        let shared = match &self.ty {
            FerrumType::Ref(t) => **t == other.ty,
            _ => false,
        };
        let exclusive = match &self.ty {
            FerrumType::MutRef(t) => **t == other.ty,
            _ => false,
        };
        if shared {
            self.try_invalidate_data(compiler)?;
            other.borrow_state.inc_shared()?;
            self.do_invalidate = other.is_on_stack();
            if !self.do_invalidate {
                compiler.inc_heap_rc(other);
            }
            match &mut self.loc {
                Some(s) => s.new_ref(other.create_ref()),
                None => Err(CompileError::VariableNotInitialized(self.create_ref())),
            }
        } else if exclusive {
            if !*other.is_mutable() {
                return Err(CompileError::DataNotMutable(other.create_ref()));
            }
            self.try_invalidate_data(compiler)?;
            other.borrow_state.borrow_mut()?;
            self.do_invalidate = other.is_on_stack();
            if !self.do_invalidate {
                compiler.grab_heap_mut(other);
            }
            match &mut self.loc {
                Some(s) => s.new_mut_ref(other.create_ref()),
                None => Err(CompileError::VariableNotInitialized(self.create_ref())),
            }
        } else {
            Err(
                CompileError::DataTypeMismatch(
                    self.ty.clone(),
                    FerrumType::Ref(Box::new(other.ty.clone())),
                ),
            )
        }
    }

    /// Gives the variable its data. `AlreadyAssigned`, and no change, if it
    /// holds something already.
    pub fn assign_data(&mut self, source: DataSource) -> (r: CompileResult<()>)
        ensures
            old(self).loc is None ==> r is Ok && *final(self) == (FerrumVariable {
                loc: Some(source),
                ..*old(self)
            }),
            old(self).loc is Some ==> verdict(r) == Err::<(), Failure>(
                Failure::AlreadyAssigned(old(self).spec_create_ref()),
            ) && *final(self) == *old(self),
    {
        match &self.loc {
            None => {
                self.loc = Some(source);
                Ok(())
            },
            _ => Err(CompileError::AlreadyAssigned(self.create_ref())),
        }
    }

    /// The key under which the variable is looked up.
    pub fn create_ref(&self) -> (r: VarLoc)
        ensures
            r == self.spec_create_ref(),
    {
        VarLoc { stack_frame: self.stack_lvl, name: self.name.clone() }
    }

    /// Whether the variable owns its storage.
    pub fn holds_data(&self) -> (r: bool)
        ensures
            r == self.spec_holds_data(),
    {
        match &self.loc {
            Some(DataSource::Location(_)) => true,
            _ => false,
        }
    }

    /// Whether the variable holds a reference, shared or exclusive.
    pub fn holds_ref(&self) -> (r: bool)
        ensures
            r == self.spec_holds_ref(),
    {
        match &self.loc {
            Some(DataSource::Reference(_, _, _)) => true,
            Some(DataSource::MutReference(_, _, _)) => true,
            _ => false,
        }
    }

    /// Whether the variable owns storage on the heap.
    pub fn is_on_heap(&self) -> (r: bool)
        ensures
            r == self.spec_is_on_heap(),
    {
        match &self.loc {
            None => false,
            Some(d) => d.is_heap_data(),
        }
    }

    /// Whether the variable owns no storage on the heap.
    pub fn is_on_stack(&self) -> (r: bool)
        ensures
            r == self.spec_is_on_stack(),
    {
        match &self.loc {
            None => true,
            Some(d) => !d.is_heap_data(),
        }
    }
}

/// A variable declaration whose type is a generic parameter.
pub struct FerrumVarDeclareTemplate {
    name: String,
    id: usize,
    mutable: bool,
}

impl FerrumVarDeclareTemplate {
    pub closed spec fn spec_name(&self) -> Seq<char> {
        self.name@
    }

    /// The slot of the generics table that holds the variable's type.
    pub closed spec fn slot(&self) -> usize {
        self.id
    }

    pub closed spec fn spec_mutable(&self) -> bool {
        self.mutable
    }

    /// The declaration of `name` whose type is read from slot `id`.
    pub fn new(name: String, id: usize, mutable: bool) -> (r: Self)
        ensures
            r.spec_name() == name@,
            r.slot() == id,
            r.spec_mutable() == mutable,
    {
        FerrumVarDeclareTemplate { name, id, mutable }
    }
}

impl GenericTemplate for FerrumVarDeclareTemplate {
    type Final = FerrumVarDeclare;

    open spec fn resolvable(&self, table: &FerrumGenericsTable) -> bool {
        self.slot() < table.types().len()
    }

    open spec fn fits(&self, table: &FerrumGenericsTable) -> bool {
        true
    }

    open spec fn instantiates_to(&self, table: &FerrumGenericsTable, out: &FerrumVarDeclare) -> bool {
        &&& self.slot() < table.types().len()
        &&& out.spec_name() == self.spec_name()
        &&& out.spec_type() == table.types()[self.slot() as int]
        &&& out.spec_mutable() == self.spec_mutable()
    }

    fn generate_type(&self, table: &FerrumGenericsTable) -> (r: Option<FerrumVarDeclare>) {
        match table.get(self.id) {
            Some(ty) => Some(
                FerrumVarDeclare { name: self.name.clone(), ty: ty.clone(), mutable: self.mutable },
            ),
            None => None,
        }
    }
}

} // verus!
