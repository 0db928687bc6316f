use std::rc::Rc;
use vstd::prelude::*;
use vstd::std_specs::cmp::PartialEqSpecImpl;
use crate::lang::enums::FerrumEnum;
use crate::lang::fingerprint::{
    fingerprint,
    fingerprint_of,
    identities,
    lemma_table_writes_injective,
    table_writes,
    writable,
};
use crate::lang::structs::FerrumStruct;
use crate::lang::tuple::FerrumTuple;

verus! {

/// A qualified path that tells apart declarations of the same name in
/// different modules.
pub type Namespace = String;

/// Width in bytes of every reference and pointer.
pub const POINTER_SIZE: usize = 8;

/// What decides whether two types are the same type: the width of an
/// elementary type; name, namespace and generics fingerprint of a struct or
/// an enum; the identities of a tuple's members; the identity of what a
/// reference or pointer leads to.
pub enum TypeIdentity {
    Elementary(u8),
    Struct(Seq<char>, Seq<char>, u64),
    Enum(Seq<char>, Seq<char>, u64),
    Tuple(Seq<TypeIdentity>),
    Ref(Box<TypeIdentity>),
    Ptr(Box<TypeIdentity>),
    MutRef(Box<TypeIdentity>),
    MutPtr(Box<TypeIdentity>),
}

/// The types of the language.
#[derive(Debug)]
pub enum FerrumType {
    /// A number type of the given width in bytes.
    Elementary(u8),
    Struct(Rc<FerrumStruct>),
    Enum(Rc<FerrumEnum>),
    Tuple(Rc<FerrumTuple>),
    Ref(Box<FerrumType>),
    Ptr(Box<FerrumType>),
    MutRef(Box<FerrumType>),
    MutPtr(Box<FerrumType>),
}

impl View for FerrumType {
    type V = TypeIdentity;

    open spec fn view(&self) -> TypeIdentity {
        self.identity()
    }
}

/// `Rc::clone` of std: one more handle to the value that `rc` shares. The
/// new handle leads to the very same value.
#[verifier::external_body]
pub(crate) fn share<T>(rc: &Rc<T>) -> (r: Rc<T>)
    ensures
        r == *rc,
{
    Rc::clone(rc)
}

/// `==` of std on `str`: whether the two texts are the same, character
/// for character.
#[verifier::external_body]
pub(crate) fn same_text(a: &str, b: &str) -> (r: bool)
    ensures
        r == (a@ == b@),
{
    a == b
}

impl Clone for FerrumType {
    fn clone(&self) -> (r: Self)
        ensures
            r == *self,
        decreases self,
    {
        match self {
            FerrumType::Elementary(w) => FerrumType::Elementary(*w),
            FerrumType::Struct(s) => FerrumType::Struct(share(s)),
            FerrumType::Enum(e) => FerrumType::Enum(share(e)),
            FerrumType::Tuple(t) => FerrumType::Tuple(share(t)),
            FerrumType::Ref(t) => FerrumType::Ref(Box::new((**t).clone())),
            FerrumType::Ptr(t) => FerrumType::Ptr(Box::new((**t).clone())),
            FerrumType::MutRef(t) => FerrumType::MutRef(Box::new((**t).clone())),
            FerrumType::MutPtr(t) => FerrumType::MutPtr(Box::new((**t).clone())),
        }
    }
}

impl PartialEq for FerrumType {
    fn eq(&self, other: &Self) -> (r: bool)
        decreases self,
    {
        match (self, other) {
            (FerrumType::Elementary(a), FerrumType::Elementary(b)) => *a == *b,
            (FerrumType::Struct(a), FerrumType::Struct(b)) => a.same_nominal(b),
            (FerrumType::Enum(a), FerrumType::Enum(b)) => a.same_nominal(b),
            (FerrumType::Tuple(a), FerrumType::Tuple(b)) => a.same_members(b),
            (FerrumType::Ref(a), FerrumType::Ref(b)) => (**a).eq(&**b),
            (FerrumType::Ptr(a), FerrumType::Ptr(b)) => (**a).eq(&**b),
            (FerrumType::MutRef(a), FerrumType::MutRef(b)) => (**a).eq(&**b),
            (FerrumType::MutPtr(a), FerrumType::MutPtr(b)) => (**a).eq(&**b),
            _ => false,
        }
    }
}

impl PartialEqSpecImpl for FerrumType {
    open spec fn obeys_eq_spec() -> bool {
        true
    }

    open spec fn eq_spec(&self, other: &Self) -> bool {
        self@ == other@
    }
}

impl FerrumType {
    /// The identity of this type; `@` gives the same.
    pub open spec fn identity(&self) -> TypeIdentity
        decreases self,
    {
        match self {
            FerrumType::Elementary(w) => TypeIdentity::Elementary(*w),
            FerrumType::Struct(s) => TypeIdentity::Struct(
                s.spec_name(),
                s.spec_namespace(),
                s.spec_fingerprint(),
            ),
            FerrumType::Enum(e) => TypeIdentity::Enum(
                e.spec_name(),
                e.spec_namespace(),
                e.spec_fingerprint(),
            ),
            FerrumType::Tuple(t) => TypeIdentity::Tuple(t.member_identities()),
            FerrumType::Ref(t) => TypeIdentity::Ref(Box::new(t.identity())),
            FerrumType::Ptr(t) => TypeIdentity::Ptr(Box::new(t.identity())),
            FerrumType::MutRef(t) => TypeIdentity::MutRef(Box::new(t.identity())),
            FerrumType::MutPtr(t) => TypeIdentity::MutPtr(Box::new(t.identity())),
        }
    }

    /// The identity of a type can be written for a fingerprint.
    pub proof fn lemma_identity_writable(&self)
        ensures
            writable(self@),
        decreases self,
    {
        match self {
            FerrumType::Tuple(t) => {
                t.lemma_members_writable();
            },
            FerrumType::Ref(t) => {
                t.lemma_identity_writable();
            },
            FerrumType::Ptr(t) => {
                t.lemma_identity_writable();
            },
            FerrumType::MutRef(t) => {
                t.lemma_identity_writable();
            },
            FerrumType::MutPtr(t) => {
                t.lemma_identity_writable();
            },
            _ => {},
        }
    }

    /// Bytes that a value of this type takes: the width of an elementary
    /// type, the recorded size of a struct, enum or tuple, and
    /// `POINTER_SIZE` for every reference and pointer.
    pub open spec fn spec_size(&self) -> nat {
        match self {
            FerrumType::Elementary(w) => *w as nat,
            FerrumType::Struct(s) => s.spec_size() as nat,
            FerrumType::Enum(e) => e.spec_size() as nat,
            FerrumType::Tuple(t) => t.spec_size() as nat,
            _ => POINTER_SIZE as nat,
        }
    }

    /// Bytes that a value of this type takes.
    pub fn size(&self) -> (r: usize)
        ensures
            r == self.spec_size(),
    {
        match self {
            FerrumType::Elementary(w) => *w as usize,
            FerrumType::Struct(s) => s.size(),
            FerrumType::Enum(e) => e.size(),
            FerrumType::Tuple(t) => t.size(),
            _ => POINTER_SIZE,
        }
    }
}

/// A template from which a finished item is made once the generics are
/// known.
pub trait GenericTemplate {
    type Final: Sized;

    /// Whether the table has a substitution for every slot that the
    /// template reads.
    spec fn resolvable(&self, table: &FerrumGenericsTable) -> bool;

    /// Whether the sizes of what the template makes with this table can be
    /// held in a `usize`.
    spec fn fits(&self, table: &FerrumGenericsTable) -> bool;

    /// Whether `out` is what the template makes with this table.
    spec fn instantiates_to(&self, table: &FerrumGenericsTable, out: &Self::Final) -> bool;

    /// Makes the finished item for the given table. `None` exactly when
    /// the template reads a slot that the table does not have.
    fn generate_type(&self, table: &FerrumGenericsTable) -> (r: Option<Self::Final>)
        requires
            self.resolvable(table) ==> self.fits(table),
        ensures
            r.is_some() <==> self.resolvable(table),
            r matches Some(out) ==> self.instantiates_to(table, &out),
    ;
}

/// The concrete types that stand for the generic parameters of one
/// instantiation, by slot, and the fingerprint of that sequence.
#[derive(Debug, PartialEq)]
pub struct FerrumGenericsTable {
    table: Vec<FerrumType>,
    fingerprint: u64,
}

impl View for FerrumGenericsTable {
    type V = Seq<TypeIdentity>;

    open spec fn view(&self) -> Seq<TypeIdentity> {
        identities(self.types())
    }
}

impl Clone for FerrumGenericsTable {
    fn clone(&self) -> (r: Self)
        ensures
            r.types() == self.types(),
            r.spec_fingerprint() == self.spec_fingerprint(),
    {
        proof {
            use_type_invariant(self);
        }
        let mut table: Vec<FerrumType> = Vec::new();
        let mut i: usize = 0;
        while i < self.table.len()
            invariant
                i <= self.table.len(),
                table@ == self.table@.take(i as int),
            decreases self.table.len() - i,
        {
            table.push(self.table[i].clone());
            i += 1;
            assert(table@ =~= self.table@.take(i as int));
        }
        assert(table@ =~= self.table@);
        FerrumGenericsTable { table, fingerprint: self.fingerprint }
    }
}

impl FerrumGenericsTable {
    /// The substitutions, by slot.
    pub closed spec fn types(&self) -> Seq<FerrumType> {
        self.table@
    }

    /// The recorded fingerprint.
    pub closed spec fn spec_fingerprint(&self) -> u64 {
        self.fingerprint
    }

    /// The recorded fingerprint is the fingerprint of the substitutions.
    /// Every table that the library hands out is well formed.
    #[verifier::type_invariant]
    pub closed spec fn wf(&self) -> bool {
        self.fingerprint == fingerprint_of(identities(self.table@))
    }

    /// What `wf` says, over the public names.
    pub proof fn lemma_wf(&self)
        ensures
            self.wf() <==> self.spec_fingerprint() == fingerprint_of(self@),
    {
    }

    /// Two well-formed tables of the same substitutions have the same
    /// fingerprint.
    pub proof fn lemma_same_substitutions_same_fingerprint(&self, other: &FerrumGenericsTable)
        requires
            self.wf(),
            other.wf(),
            self@ == other@,
        ensures
            self.spec_fingerprint() == other.spec_fingerprint(),
    {
    }

    /// Two tables of different substitutions give the hasher different
    /// input: their fingerprints are the same only where the hasher maps
    /// different inputs to one digest.
    pub proof fn lemma_different_substitutions_different_input(
        &self,
        other: &FerrumGenericsTable,
    )
        requires
            self@ != other@,
        ensures
            table_writes(self@) != table_writes(other@),
    {
        assert(self.table@.len() == self.table.len());
        assert(other.table@.len() == other.table.len());
        assert forall|i: int| 0 <= i < self@.len() implies writable(#[trigger] self@[i]) by {
            self.types()[i].lemma_identity_writable();
        }
        assert forall|i: int| 0 <= i < other@.len() implies writable(#[trigger] other@[i]) by {
            other.types()[i].lemma_identity_writable();
        }
        if table_writes(self@) == table_writes(other@) {
            lemma_table_writes_injective(self@, other@);
        }
    }

    /// A table of the given substitutions.
    pub fn new(table: Vec<FerrumType>) -> (r: Self)
        ensures
            r.types() == table@,
            r.wf(),
            r.spec_fingerprint() == fingerprint_of(identities(table@)),
    {
        let fingerprint = fingerprint(&table);
        FerrumGenericsTable { table, fingerprint }
    }

    /// The fingerprint of this table.
    pub fn fingerprint(&self) -> (r: &u64)
        ensures
            *r == self.spec_fingerprint(),
            *r == fingerprint_of(self@),
    {
        proof {
            use_type_invariant(self);
        }
        &self.fingerprint
    }

    /// The table of this table's substitutions followed by those of
    /// `other`, for generics that nest.
    pub fn join(&self, other: &FerrumGenericsTable) -> (r: Self)
        ensures
            r.types() == self.types() + other.types(),
            r.wf(),
            r.spec_fingerprint() == fingerprint_of(identities(self.types() + other.types())),
    {
        let mut table: Vec<FerrumType> = Vec::new();
        let mut i: usize = 0;
        while i < self.table.len()
            invariant
                i <= self.table.len(),
                table@ == self.table@.take(i as int),
            decreases self.table.len() - i,
        {
            table.push(self.table[i].clone());
            i += 1;
            assert(table@ =~= self.table@.take(i as int));
        }
        assert(table@ =~= self.table@);
        let mut j: usize = 0;
        while j < other.table.len()
            invariant
                j <= other.table.len(),
                table@ == self.table@ + other.table@.take(j as int),
            decreases other.table.len() - j,
        {
            table.push(other.table[j].clone());
            j += 1;
            assert(table@ =~= self.table@ + other.table@.take(j as int));
        }
        assert(table@ =~= self.table@ + other.table@);
        let fingerprint = fingerprint(&table);
        FerrumGenericsTable { table, fingerprint }
    }

    /// How many substitutions the table has.
    pub fn len(&self) -> (r: usize)
        ensures
            r == self.types().len(),
    {
        self.table.len()
    }

    /// The substitution for slot `index`, if the table has one.
    pub fn get(&self, index: usize) -> (r: Option<&FerrumType>)
        ensures
            r.is_some() <==> index < self.types().len(),
            r matches Some(ty) ==> *ty == self.types()[index as int],
    {
        if index < self.table.len() {
            Some(&self.table[index])
        } else {
            None
        }
    }
}

/// The generic parameters that a template declares.
pub struct FerrumGenerics {
    types: Vec<FerrumGenericType>,
}

impl FerrumGenerics {
    /// The declared parameters, in order.
    pub closed spec fn params(&self) -> Seq<FerrumGenericType> {
        self.types@
    }

    /// The given parameters as a declaration.
    pub fn new(types: Vec<FerrumGenericType>) -> (r: Self)
        ensures
            r.params() == types@,
    {
        FerrumGenerics { types }
    }

    /// How many parameters are declared.
    pub fn len(&self) -> (r: usize)
        ensures
            r == self.params().len(),
    {
        self.types.len()
    }
}

/// A generic parameter: its name and the slot of a `FerrumGenericsTable`
/// that holds the type standing for it.
pub struct FerrumGenericType {
    name: String,
    id: usize,
}

impl FerrumGenericType {
    /// The parameter's name.
    pub closed spec fn spec_name(&self) -> Seq<char> {
        self.name@
    }

    /// The slot that the parameter reads.
    pub closed spec fn slot(&self) -> usize {
        self.id
    }

    /// The parameter called `name` that reads slot `id`.
    pub fn new(name: String, id: usize) -> (r: Self)
        ensures
            r.spec_name() == name@,
            r.slot() == id,
    {
        FerrumGenericType { name, id }
    }
}

impl GenericTemplate for FerrumGenericType {
    type Final = FerrumType;

    open spec fn resolvable(&self, table: &FerrumGenericsTable) -> bool {
        self.slot() < table.types().len()
    }

    open spec fn fits(&self, table: &FerrumGenericsTable) -> bool {
        true
    }

    open spec fn instantiates_to(&self, table: &FerrumGenericsTable, out: &FerrumType) -> bool {
        self.slot() < table.types().len() && *out == table.types()[self.slot() as int]
    }

    fn generate_type(&self, table: &FerrumGenericsTable) -> (r: Option<FerrumType>) {
        match table.get(self.id) {
            Some(ty) => Some(ty.clone()),
            None => None,
        }
    }
}

/// Either a finished item or a template for one.
#[verifier::reject_recursive_types(T)]
#[verifier::reject_recursive_types(TT)]
pub enum TemplateType<T: Sized, TT: GenericTemplate<Final = T>> {
    Typed(T),
    Templated(TT),
}

impl<T, TT> TemplateType<T, TT> where T: Sized + Clone, TT: GenericTemplate<Final = T> {
    /// The finished item: a clone of what is already finished, or what the
    /// template makes with the table. `None` exactly when a template reads
    /// a slot that the table does not have.
    pub fn try_generate_type(&self, table: &FerrumGenericsTable) -> (r: Option<T>)
        requires
            self matches TemplateType::Templated(tt) ==> (tt.resolvable(table) ==> tt.fits(table)),
        ensures
            match self {
                TemplateType::Typed(t) => r matches Some(out) && cloned(*t, out),
                TemplateType::Templated(tt) => {
                    &&& r.is_some() <==> tt.resolvable(table)
                    &&& r matches Some(out) ==> tt.instantiates_to(table, &out)
                },
            },
    {
        match self {
            Self::Typed(t) => Some(t.clone()),
            Self::Templated(tt) => tt.generate_type(table),
        }
    }
}

/// A type that is written out, or a generic parameter that stands for one.
pub type TypeSlot = TemplateType<FerrumType, FerrumGenericType>;

/// Whether the table has the substitution that the slot needs.
pub open spec fn slot_resolvable(slot: TypeSlot, table: &FerrumGenericsTable) -> bool {
    slot matches TemplateType::Templated(generic) ==> generic.slot() < table.types().len()
}

/// The type that the slot means with this table.
pub open spec fn slot_type(slot: TypeSlot, table: &FerrumGenericsTable) -> FerrumType {
    match slot {
        TemplateType::Typed(ty) => ty,
        TemplateType::Templated(generic) => table.types()[generic.slot() as int],
    }
}

/// Whether the table has the substitutions that all the slots need.
pub open spec fn slots_resolvable(slots: Seq<TypeSlot>, table: &FerrumGenericsTable) -> bool {
    forall|i: int| 0 <= i < slots.len() ==> slot_resolvable(#[trigger] slots[i], table)
}

/// The types that the slots mean with this table, in order.
pub open spec fn slot_types(slots: Seq<TypeSlot>, table: &FerrumGenericsTable) -> Seq<FerrumType> {
    Seq::new(slots.len(), |i: int| slot_type(slots[i], table))
}

/// The types that the slots mean with this table; `None` exactly when one
/// of them reads a slot that the table does not have.
pub fn resolve_slots(slots: &Vec<TypeSlot>, table: &FerrumGenericsTable) -> (r: Option<
    Vec<FerrumType>,
>)
    ensures
        r.is_some() <==> slots_resolvable(slots@, table),
        r matches Some(types) ==> types@ == slot_types(slots@, table),
{
    let mut types: Vec<FerrumType> = Vec::new();
    let mut i: usize = 0;
    while i < slots.len()
        invariant
            i <= slots.len(),
            types@.len() == i,
            forall|k: int| 0 <= k < i ==> slot_resolvable(#[trigger] slots@[k], table),
            forall|k: int| 0 <= k < i ==> types@[k] == slot_type(slots@[k], table),
        decreases slots.len() - i,
    {
        match slots[i].try_generate_type(table) {
            Some(ty) => {
                types.push(ty);
            },
            None => {
                assert(!slot_resolvable(slots@[i as int], table));
                return None;
            },
        }
        i += 1;
    }
    assert(types@ =~= slot_types(slots@, table));
    Some(types)
}

/// With two generics tables of the same substitutions, the same slots mean
/// the same types.
pub proof fn lemma_same_substitutions_same_types(
    slots: Seq<TypeSlot>,
    a: FerrumGenericsTable,
    b: FerrumGenericsTable,
)
    requires
        a@ == b@,
        slots_resolvable(slots, &a),
    ensures
        slots_resolvable(slots, &b),
        identities(slot_types(slots, &a)) == identities(slot_types(slots, &b)),
{
    assert(a.types().len() == identities(a.types()).len());
    assert(b.types().len() == identities(b.types()).len());
    assert forall|i: int| 0 <= i < slots.len() implies slot_type(slots[i], &a)@ == slot_type(
        slots[i],
        &b,
    )@ && slot_resolvable(slots[i], &b) by {
        assert(slot_resolvable(slots[i], &a));
        match slots[i] {
            TemplateType::Typed(_) => {},
            TemplateType::Templated(generic) => {
                let k = generic.slot() as int;
                assert(identities(a.types())[k] == a.types()[k]@);
                assert(identities(b.types())[k] == b.types()[k]@);
            },
        }
    }
    assert(identities(slot_types(slots, &a)) =~= identities(slot_types(slots, &b)));
}

} // verus!
