use std::rc::Rc;
use vstd::prelude::*;
use vstd::std_specs::cmp::PartialEqSpecImpl;
use crate::lang::fingerprint::identities;
use crate::lang::layout::{
    is_packed,
    lemma_packed_prefix,
    lemma_packed_step,
    lemma_packing_is_determined,
    packed_size,
};
use crate::lang::types::{
    FerrumGenericsTable,
    FerrumGenerics,
    FerrumType,
    GenericTemplate,
    Namespace,
    TemplateType,
};

verus! {

/// A struct type: named fields in declaration order, packed in that order.
#[derive(Debug)]
pub struct FerrumStruct {
    /// The name of the struct.
    name: String,
    /// The fields, in declaration order.
    fields: Vec<FerrumStructMember>,
    /// Tells apart the structs made from one template: the fingerprint of
    /// the generics table that this one was made with.
    generic_fingerprint: u64,
    namespace: Namespace,
    size: usize,
}

/// One field of a struct.
#[derive(Debug)]
pub struct FerrumStructMember {
    name: String,
    ty: FerrumType,
    offset: usize,
}

impl Clone for FerrumStructMember {
    fn clone(&self) -> (r: Self)
        ensures
            r == *self,
    {
        FerrumStructMember { name: self.name.clone(), ty: self.ty.clone(), offset: self.offset }
    }
}

impl FerrumStructMember {
    pub closed spec fn spec_name(&self) -> Seq<char> {
        self.name@
    }

    pub closed spec fn spec_type(&self) -> FerrumType {
        self.ty
    }

    pub closed spec fn spec_offset(&self) -> usize {
        self.offset
    }

    /// The field `name` of type `ty`, not yet laid out.
    pub fn new(name: String, ty: FerrumType) -> (r: Self)
        ensures
            r.spec_name() == name@,
            r.spec_type() == ty,
            r.spec_offset() == 0,
    {
        FerrumStructMember { name, ty, offset: 0 }
    }
}

impl PartialEq for FerrumStruct {
    fn eq(&self, other: &Self) -> (r: bool) {
        self.same_nominal(other)
    }
}

impl PartialEqSpecImpl for FerrumStruct {
    open spec fn obeys_eq_spec() -> bool {
        true
    }

    open spec fn eq_spec(&self, other: &Self) -> bool {
        &&& self.spec_name() == other.spec_name()
        &&& self.spec_namespace() == other.spec_namespace()
        &&& self.spec_fingerprint() == other.spec_fingerprint()
    }
}

impl FerrumStruct {
    pub closed spec fn spec_name(&self) -> Seq<char> {
        self.name@
    }

    pub closed spec fn spec_namespace(&self) -> Seq<char> {
        self.namespace@
    }

    pub closed spec fn spec_fingerprint(&self) -> u64 {
        self.generic_fingerprint
    }

    /// The recorded size in bytes.
    pub closed spec fn spec_size(&self) -> usize {
        self.size
    }

    /// The fields' names, in declaration order.
    pub closed spec fn field_names(&self) -> Seq<Seq<char>> {
        Seq::new(self.fields@.len(), |i: int| self.fields@[i].name@)
    }

    /// The fields' types, in declaration order.
    pub closed spec fn field_types(&self) -> Seq<FerrumType> {
        Seq::new(self.fields@.len(), |i: int| self.fields@[i].ty)
    }

    /// The fields' recorded offsets, in declaration order.
    pub closed spec fn field_offsets(&self) -> Seq<usize> {
        Seq::new(self.fields@.len(), |i: int| self.fields@[i].offset)
    }

    /// Whether offsets and size are those of tight packing in declaration
    /// order.
    pub open spec fn is_aligned(&self) -> bool {
        &&& is_packed(self.field_types(), self.field_offsets())
        &&& self.spec_size() == packed_size(self.field_types())
    }

    /// Names, types and offsets are as many as there are fields.
    pub proof fn lemma_field_counts(&self)
        ensures
            self.field_names().len() == self.field_types().len(),
            self.field_offsets().len() == self.field_types().len(),
    {
    }

    /// The struct `name` in `namespace` with the given fields, laid out.
    pub fn new(
        name: String,
        namespace: Namespace,
        fields: Vec<FerrumStructMember>,
        generic_fingerprint: u64,
    ) -> (r: Self)
        requires
            packed_size(member_types(fields@)) <= usize::MAX,
        ensures
            r.spec_name() == name@,
            r.spec_namespace() == namespace@,
            r.spec_fingerprint() == generic_fingerprint,
            r.field_names() == member_names(fields@),
            r.field_types() == member_types(fields@),
            r.is_aligned(),
    {
        let mut s = FerrumStruct { name, fields, generic_fingerprint, namespace, size: 0 };
        assert(s.field_types() =~= member_types(fields@));
        assert(s.field_names() =~= member_names(fields@));
        s.align();
        s
    }

    /// The name of the struct.
    pub fn name(&self) -> (r: &str)
        ensures
            r@ == self.spec_name(),
    {
        self.name.as_str()
    }

    /// The namespace that the struct is declared in.
    pub fn namespace(&self) -> (r: &str)
        ensures
            r@ == self.spec_namespace(),
    {
        self.namespace.as_str()
    }

    /// The fingerprint of the generics that the struct was made with.
    pub fn generic_fingerprint(&self) -> (r: u64)
        ensures
            r == self.spec_fingerprint(),
    {
        self.generic_fingerprint
    }

    /// Whether the two are the same struct type: same name, namespace and
    /// generics fingerprint.
    pub fn same_nominal(&self, other: &FerrumStruct) -> (r: bool)
        ensures
            r == (self.spec_name() == other.spec_name() && self.spec_namespace()
                == other.spec_namespace() && self.spec_fingerprint() == other.spec_fingerprint()),
    {
        self.name == other.name && self.namespace == other.namespace && self.generic_fingerprint
            == other.generic_fingerprint
    }

    /// Whether the struct was made with the given generics table.
    pub fn matches_generics(&self, generics: &FerrumGenericsTable) -> (r: bool)
        ensures
            r == (self.spec_fingerprint() == generics.spec_fingerprint()),
    {
        self.generic_fingerprint == *generics.fingerprint()
    }

    /// Lays the fields out again: each at the end of the one declared
    /// before it, the first at 0, and the size their sum. Names and types
    /// stay. On a struct that is laid out already nothing changes.
    pub fn align(&mut self)
        requires
            packed_size(old(self).field_types()) <= usize::MAX,
        ensures
            final(self).spec_name() == old(self).spec_name(),
            final(self).spec_namespace() == old(self).spec_namespace(),
            final(self).spec_fingerprint() == old(self).spec_fingerprint(),
            final(self).field_names() == old(self).field_names(),
            final(self).field_types() == old(self).field_types(),
            final(self).is_aligned(),
            old(self).is_aligned() ==> final(self).field_offsets() == old(self).field_offsets()
                && final(self).spec_size() == old(self).spec_size(),
    {
        let ghost types = self.field_types();
        let mut offset: usize = 0;
        let mut i: usize = 0;
        while i < self.fields.len()
            invariant
                i <= self.fields.len(),
                self.name == old(self).name,
                self.namespace == old(self).namespace,
                self.generic_fingerprint == old(self).generic_fingerprint,
                self.field_types() == types,
                self.field_names() == old(self).field_names(),
                packed_size(types) <= usize::MAX,
                offset == packed_size(types.take(i as int)),
                forall|k: int| 0 <= k < i ==> self.fields@[k].offset == packed_size(types.take(k)),
            decreases self.fields.len() - i,
        {
            proof {
                lemma_packed_step(types, i as int);
                lemma_packed_prefix(types, i + 1);
            }
            let size = self.fields[i].ty.size();
            self.fields[i].offset = offset;
            assert(self.field_types() =~= types);
            assert(self.field_names() =~= old(self).field_names());
            offset += size;
            i += 1;
        }
        self.size = offset;
        assert(types.take(i as int) =~= types);
        assert(self.field_types() =~= types);
        assert(self.field_names() =~= old(self).field_names());
        assert(self.field_offsets() =~= Seq::new(
            types.len(),
            |k: int| packed_size(types.take(k)) as usize,
        ));
        proof {
            if old(self).is_aligned() {
                assert(self.field_offsets() =~= old(self).field_offsets());
            }
        }
    }

    /// The size of the struct in bytes.
    pub fn size(&self) -> (r: usize)
        ensures
            r == self.spec_size(),
    {
        self.size
    }

    /// How many fields the struct has.
    pub fn len(&self) -> (r: usize)
        ensures
            r == self.field_types().len(),
    {
        self.fields.len()
    }

    /// The type of the field declared at `index`, if there is one.
    pub fn field_type(&self, index: usize) -> (r: Option<&FerrumType>)
        ensures
            r.is_some() <==> index < self.field_types().len(),
            r matches Some(ty) ==> *ty == self.field_types()[index as int],
    {
        if index < self.fields.len() {
            Some(&self.fields[index].ty)
        } else {
            None
        }
    }

    /// The offset of the field declared at `index`, if there is one.
    pub fn field_offset(&self, index: usize) -> (r: Option<usize>)
        ensures
            r.is_some() <==> index < self.field_types().len(),
            r matches Some(offset) ==> offset == self.field_offsets()[index as int],
    {
        if index < self.fields.len() {
            Some(self.fields[index].offset)
        } else {
            None
        }
    }
}

/// The names of the given fields, in order.
pub open spec fn member_names(fields: Seq<FerrumStructMember>) -> Seq<Seq<char>> {
    Seq::new(fields.len(), |i: int| fields[i].spec_name())
}

/// The types of the given fields, in order.
pub open spec fn member_types(fields: Seq<FerrumStructMember>) -> Seq<FerrumType> {
    Seq::new(fields.len(), |i: int| fields[i].spec_type())
}

/// A field of a struct template whose type is a generic parameter.
pub struct FerrumStructTemplateMember {
    name: String,
    generic_type: usize,
}

impl FerrumStructTemplateMember {
    pub closed spec fn spec_name(&self) -> Seq<char> {
        self.name@
    }

    /// The slot of the generics table that holds the field's type.
    pub closed spec fn slot(&self) -> usize {
        self.generic_type
    }

    /// The field `name` whose type is read from slot `generic_type`.
    pub fn new(name: String, generic_type: usize) -> (r: Self)
        ensures
            r.spec_name() == name@,
            r.slot() == generic_type,
    {
        FerrumStructTemplateMember { name, generic_type }
    }
}

impl GenericTemplate for FerrumStructTemplateMember {
    type Final = FerrumStructMember;

    open spec fn resolvable(&self, table: &FerrumGenericsTable) -> bool {
        self.slot() < table.types().len()
    }

    open spec fn fits(&self, table: &FerrumGenericsTable) -> bool {
        true
    }

    open spec fn instantiates_to(
        &self,
        table: &FerrumGenericsTable,
        out: &FerrumStructMember,
    ) -> bool {
        &&& self.slot() < table.types().len()
        &&& out.spec_name() == self.spec_name()
        &&& out.spec_type() == table.types()[self.slot() as int]
        &&& out.spec_offset() == 0
    }

    fn generate_type(&self, table: &FerrumGenericsTable) -> (r: Option<FerrumStructMember>) {
        match table.get(self.generic_type) {
            Some(ty) => Some(
                FerrumStructMember { name: self.name.clone(), ty: ty.clone(), offset: 0 },
            ),
            None => None,
        }
    }
}

/// A field of a struct template: written out, or generic.
pub type FieldSlot = TemplateType<FerrumStructMember, FerrumStructTemplateMember>;

/// The name of the field.
pub open spec fn field_slot_name(slot: FieldSlot) -> Seq<char> {
    match slot {
        TemplateType::Typed(field) => field.spec_name(),
        TemplateType::Templated(generic) => generic.spec_name(),
    }
}

/// Whether the table has the substitution that the field needs.
pub open spec fn field_slot_resolvable(slot: FieldSlot, table: &FerrumGenericsTable) -> bool {
    slot matches TemplateType::Templated(generic) ==> generic.slot() < table.types().len()
}

/// The type that the field has with this table.
pub open spec fn field_slot_type(slot: FieldSlot, table: &FerrumGenericsTable) -> FerrumType {
    match slot {
        TemplateType::Typed(field) => field.spec_type(),
        TemplateType::Templated(generic) => table.types()[generic.slot() as int],
    }
}

/// The names of the fields, in declaration order.
pub open spec fn field_slot_names(slots: Seq<FieldSlot>) -> Seq<Seq<char>> {
    Seq::new(slots.len(), |i: int| field_slot_name(slots[i]))
}

/// The types that the fields have with this table, in declaration order.
pub open spec fn field_slot_types(slots: Seq<FieldSlot>, table: &FerrumGenericsTable) -> Seq<
    FerrumType,
> {
    Seq::new(slots.len(), |i: int| field_slot_type(slots[i], table))
}

/// A struct whose fields may have generic parameters as their types. With
/// a generics table it makes a `FerrumStruct`.
pub struct FerrumStructTemplate {
    name: String,
    namespace: Namespace,
    generics: FerrumGenerics,
    /// The fields, in declaration order.
    fields: Vec<FieldSlot>,
}

impl FerrumStructTemplate {
    pub closed spec fn spec_name(&self) -> Seq<char> {
        self.name@
    }

    /// The name that the template was declared with.
    pub fn name(&self) -> (r: &String)
        ensures
            r@ == self.spec_name(),
    {
        &self.name
    }

    /// The namespace that the template was declared in.
    pub fn namespace(&self) -> (r: &String)
        ensures
            r@ == self.spec_namespace(),
    {
        &self.namespace
    }

    pub closed spec fn spec_namespace(&self) -> Seq<char> {
        self.namespace@
    }

    /// The generic parameters that the template declares.
    pub closed spec fn spec_generics(&self) -> FerrumGenerics {
        self.generics
    }

    /// The fields, in declaration order.
    pub closed spec fn slots(&self) -> Seq<FieldSlot> {
        self.fields@
    }

    /// The template of the struct `name` in `namespace` with the given
    /// fields.
    pub fn new(
        name: String,
        namespace: Namespace,
        generics: FerrumGenerics,
        fields: Vec<FieldSlot>,
    ) -> (r: Self)
        ensures
            r.spec_name() == name@,
            r.spec_namespace() == namespace@,
            r.spec_generics() == generics,
            r.slots() == fields@,
    {
        FerrumStructTemplate { name, namespace, generics, fields }
    }
}

impl FerrumStructTemplate {
    /// Made from one template with two generics tables of the same
    /// substitutions, two structs are the same type, carry the same
    /// generics fingerprint, so that each matches the table of the other,
    /// and have fields of the same names and types. Where the tables hold
    /// the very same types, the two also have the same offsets and size.
    pub proof fn lemma_same_substitutions_same_struct(
        self,
        a: FerrumGenericsTable,
        b: FerrumGenericsTable,
        x: Rc<FerrumStruct>,
        y: Rc<FerrumStruct>,
    )
        requires
            a.wf(),
            b.wf(),
            a@ == b@,
            self.resolvable(&a),
            self.instantiates_to(&a, &*x),
            self.instantiates_to(&b, &*y),
        ensures
            x.spec_fingerprint() == y.spec_fingerprint(),
            FerrumType::Struct(x)@ == FerrumType::Struct(y)@,
            x.spec_fingerprint() == b.spec_fingerprint(),
            y.spec_fingerprint() == a.spec_fingerprint(),
            identities(x.field_types()) == identities(y.field_types()),
            x.field_names() == y.field_names(),
            a.types() == b.types() ==> {
                &&& x.field_types() == y.field_types()
                &&& x.field_offsets() == y.field_offsets()
                &&& x.spec_size() == y.spec_size()
            },
    {
        a.lemma_wf();
        b.lemma_wf();
        if a.types() == b.types() {
            assert(x.field_types() =~= y.field_types());
            lemma_packing_is_determined(x.field_types(), x.field_offsets(), y.field_offsets());
        }
        assert(a.types().len() == identities(a.types()).len());
        assert(b.types().len() == identities(b.types()).len());
        assert forall|i: int| 0 <= i < self.slots().len() implies field_slot_type(
            self.slots()[i],
            &a,
        )@ == field_slot_type(self.slots()[i], &b)@ by {
            assert(field_slot_resolvable(self.slots()[i], &a));
            match self.slots()[i] {
                TemplateType::Typed(_) => {},
                TemplateType::Templated(generic) => {
                    let k = generic.slot() as int;
                    assert(identities(a.types())[k] == a.types()[k]@);
                    assert(identities(b.types())[k] == b.types()[k]@);
                },
            }
        }
        assert(identities(x.field_types()) =~= identities(y.field_types()));
    }
}

impl GenericTemplate for FerrumStructTemplate {
    type Final = FerrumStruct;

    open spec fn resolvable(&self, table: &FerrumGenericsTable) -> bool {
        forall|i: int|
            0 <= i < self.slots().len() ==> field_slot_resolvable(#[trigger] self.slots()[i], table)
    }

    open spec fn fits(&self, table: &FerrumGenericsTable) -> bool {
        packed_size(field_slot_types(self.slots(), table)) <= usize::MAX
    }

    open spec fn instantiates_to(&self, table: &FerrumGenericsTable, out: &FerrumStruct) -> bool {
        &&& out.spec_name() == self.spec_name()
        &&& out.spec_namespace() == self.spec_namespace()
        &&& out.spec_fingerprint() == table.spec_fingerprint()
        &&& out.field_names() == field_slot_names(self.slots())
        &&& out.field_types() == field_slot_types(self.slots(), table)
        &&& out.is_aligned()
    }

    fn generate_type(&self, table: &FerrumGenericsTable) -> (r: Option<FerrumStruct>) {
        let mut fields: Vec<FerrumStructMember> = Vec::new();
        let mut i: usize = 0;
        while i < self.fields.len()
            invariant
                i <= self.fields.len(),
                fields@.len() == i,
                forall|k: int|
                    0 <= k < i ==> field_slot_resolvable(#[trigger] self.fields@[k], table),
                forall|k: int|
                    0 <= k < i ==> fields@[k].spec_name() == field_slot_name(self.fields@[k]),
                forall|k: int|
                    0 <= k < i ==> fields@[k].spec_type() == field_slot_type(
                        self.fields@[k],
                        table,
                    ),
            decreases self.fields.len() - i,
        {
            match self.fields[i].try_generate_type(table) {
                Some(field) => {
                    fields.push(field);
                },
                None => {
                    assert(!field_slot_resolvable(self.slots()[i as int], table));
                    return None;
                },
            }
            i += 1;
        }
        assert(member_types(fields@) =~= field_slot_types(self.slots(), table));
        assert(member_names(fields@) =~= field_slot_names(self.slots()));
        Some(
            FerrumStruct::new(
                self.name.clone(),
                self.namespace.clone(),
                fields,
                *table.fingerprint(),
            ),
        )
    }
}

} // verus!
