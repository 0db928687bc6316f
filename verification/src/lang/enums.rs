use std::rc::Rc;
use vstd::prelude::*;
use vstd::std_specs::cmp::PartialEqSpecImpl;
use crate::lang::fingerprint::identities;
use crate::lang::layout::{
    is_packed,
    largest_payload,
    lemma_largest_payload_bounds,
    lemma_largest_payload_step,
    lemma_packed_prefix,
    lemma_packed_step,
    lemma_packing_is_determined,
    packed_size,
};
use crate::lang::types::{
    resolve_slots,
    lemma_same_substitutions_same_types,
    slot_types,
    slots_resolvable,
    FerrumGenerics,
    FerrumGenericsTable,
    FerrumType,
    GenericTemplate,
    Namespace,
    TypeSlot,
};

verus! {

/// An enum type: variants in declaration order, each with its own
/// parameters. A value holds one variant at a time, so every variant's
/// parameters are laid out from offset 0.
#[derive(Debug)]
pub struct FerrumEnum {
    name: String,
    namespace: Namespace,
    members: Vec<FerrumEnumMember>,
    generic_fingerprint: u64,
    size: usize,
}

/// One variant of an enum.
#[derive(Debug)]
pub struct FerrumEnumMember {
    name: String,
    id: u8,
    args: Vec<FerrumEnumParameter>,
}

#[derive(Debug)]
struct FerrumEnumParameter {
    ty: FerrumType,
    offset: usize,
}

impl FerrumEnumMember {
    pub closed spec fn spec_name(&self) -> Seq<char> {
        self.name@
    }

    /// The tag that tells the variant apart at run time.
    pub closed spec fn spec_id(&self) -> u8 {
        self.id
    }

    /// The parameters' types, in order.
    pub closed spec fn arg_types(&self) -> Seq<FerrumType> {
        Seq::new(self.args@.len(), |i: int| self.args@[i].ty)
    }

    /// The parameters' recorded offsets, in order.
    pub closed spec fn arg_offsets(&self) -> Seq<usize> {
        Seq::new(self.args@.len(), |i: int| self.args@[i].offset)
    }

    /// The variant `name` with tag `id` and parameters of the given types,
    /// not yet laid out.
    pub fn new(name: String, id: u8, types: Vec<FerrumType>) -> (r: Self)
        ensures
            r.spec_name() == name@,
            r.spec_id() == id,
            r.arg_types() == types@,
    {
        let mut args: Vec<FerrumEnumParameter> = Vec::new();
        let mut i: usize = 0;
        while i < types.len()
            invariant
                i <= types.len(),
                args@.len() == i,
                forall|k: int| 0 <= k < i ==> args@[k].ty == types@[k],
            decreases types.len() - i,
        {
            args.push(FerrumEnumParameter { ty: types[i].clone(), offset: 0 });
            i += 1;
        }
        let r = FerrumEnumMember { name, id, args };
        assert(r.arg_types() =~= types@);
        r
    }

    /// Lays the parameters out from offset 0 and gives their total size.
    fn align(&mut self) -> (payload: usize)
        requires
            packed_size(old(self).arg_types()) <= usize::MAX,
        ensures
            final(self).spec_name() == old(self).spec_name(),
            final(self).spec_id() == old(self).spec_id(),
            final(self).arg_types() == old(self).arg_types(),
            is_packed(final(self).arg_types(), final(self).arg_offsets()),
            payload == packed_size(old(self).arg_types()),
    {
        let ghost types = self.arg_types();
        let mut offset: usize = 0;
        let mut i: usize = 0;
        while i < self.args.len()
            invariant
                i <= self.args.len(),
                self.name == old(self).name,
                self.id == old(self).id,
                self.arg_types() == types,
                packed_size(types) <= usize::MAX,
                offset == packed_size(types.take(i as int)),
                forall|k: int| 0 <= k < i ==> self.args@[k].offset == packed_size(types.take(k)),
            decreases self.args.len() - i,
        {
            proof {
                lemma_packed_step(types, i as int);
                lemma_packed_prefix(types, i + 1);
            }
            let size = self.args[i].ty.size();
            self.args[i].offset = offset;
            assert(self.arg_types() =~= types);
            offset += size;
            i += 1;
        }
        assert(types.take(i as int) =~= types);
        assert(self.arg_offsets() =~= Seq::new(
            types.len(),
            |k: int| packed_size(types.take(k)) as usize,
        ));
        offset
    }
}

impl PartialEq for FerrumEnum {
    fn eq(&self, other: &Self) -> (r: bool) {
        self.same_nominal(other)
    }
}

impl PartialEqSpecImpl for FerrumEnum {
    open spec fn obeys_eq_spec() -> bool {
        true
    }

    open spec fn eq_spec(&self, other: &Self) -> bool {
        &&& self.spec_name() == other.spec_name()
        &&& self.spec_namespace() == other.spec_namespace()
        &&& self.spec_fingerprint() == other.spec_fingerprint()
    }
}

/// The names of the given variants, in order.
pub open spec fn variant_names_of(members: Seq<FerrumEnumMember>) -> Seq<Seq<char>> {
    Seq::new(members.len(), |i: int| members[i].spec_name())
}

/// The tags of the given variants, in order.
pub open spec fn variant_ids_of(members: Seq<FerrumEnumMember>) -> Seq<u8> {
    Seq::new(members.len(), |i: int| members[i].spec_id())
}

/// The parameter types of the given variants, in order.
pub open spec fn variant_types_of(members: Seq<FerrumEnumMember>) -> Seq<Seq<FerrumType>> {
    Seq::new(members.len(), |i: int| members[i].arg_types())
}

/// Whether every payload fits in a `usize`.
pub open spec fn payloads_fit(variants: Seq<Seq<FerrumType>>) -> bool {
    forall|v: int| 0 <= v < variants.len() ==> packed_size(#[trigger] variants[v]) <= usize::MAX
}

impl FerrumEnum {
    pub closed spec fn spec_name(&self) -> Seq<char> {
        self.name@
    }

    pub closed spec fn spec_namespace(&self) -> Seq<char> {
        self.namespace@
    }

    pub closed spec fn spec_fingerprint(&self) -> u64 {
        self.generic_fingerprint
    }

    /// The recorded size in bytes.
    pub closed spec fn spec_size(&self) -> usize {
        self.size
    }

    /// The variants' names, in declaration order.
    pub closed spec fn variant_names(&self) -> Seq<Seq<char>> {
        variant_names_of(self.members@)
    }

    /// The variants' tags, in declaration order.
    pub closed spec fn variant_ids(&self) -> Seq<u8> {
        variant_ids_of(self.members@)
    }

    /// For each variant, in declaration order, its parameters' types.
    pub closed spec fn variant_types(&self) -> Seq<Seq<FerrumType>> {
        variant_types_of(self.members@)
    }

    /// For each variant, in declaration order, its parameters' recorded
    /// offsets.
    pub closed spec fn variant_offsets(&self) -> Seq<Seq<usize>> {
        Seq::new(self.members@.len(), |i: int| self.members@[i].arg_offsets())
    }

    /// Whether every variant's parameters are tightly packed from offset 0
    /// and the size is that of the largest payload.
    pub open spec fn is_aligned(&self) -> bool {
        &&& self.variant_offsets().len() == self.variant_types().len()
        &&& forall|v: int|
            0 <= v < self.variant_types().len() ==> is_packed(
                #[trigger] self.variant_types()[v],
                self.variant_offsets()[v],
            )
        &&& self.spec_size() == largest_payload(self.variant_types())
    }

    /// An enum that is laid out has room for the parameters of every
    /// variant.
    pub proof fn lemma_size_holds_every_variant(&self, variant: int)
        requires
            self.is_aligned(),
            0 <= variant < self.variant_types().len(),
        ensures
            packed_size(self.variant_types()[variant]) <= self.spec_size(),
    {
        lemma_largest_payload_bounds(self.variant_types(), variant);
    }

    /// Names, tags, types and offsets are as many as there are variants.
    pub proof fn lemma_variant_counts(&self)
        ensures
            self.variant_names().len() == self.variant_types().len(),
            self.variant_ids().len() == self.variant_types().len(),
            self.variant_offsets().len() == self.variant_types().len(),
    {
    }

    /// The enum `name` in `namespace` with the given variants, laid out.
    pub fn new(
        name: String,
        namespace: Namespace,
        members: Vec<FerrumEnumMember>,
        generic_fingerprint: u64,
    ) -> (r: Self)
        requires
            payloads_fit(variant_types_of(members@)),
        ensures
            r.spec_name() == name@,
            r.spec_namespace() == namespace@,
            r.spec_fingerprint() == generic_fingerprint,
            r.variant_names() == variant_names_of(members@),
            r.variant_ids() == variant_ids_of(members@),
            r.variant_types() == variant_types_of(members@),
            r.is_aligned(),
    {
        let mut e = FerrumEnum { name, namespace, members, generic_fingerprint, size: 0 };
        e.align();
        e
    }

    /// The name of the enum.
    pub fn name(&self) -> (r: &str)
        ensures
            r@ == self.spec_name(),
    {
        self.name.as_str()
    }

    /// The namespace that the enum is declared in.
    pub fn namespace(&self) -> (r: &str)
        ensures
            r@ == self.spec_namespace(),
    {
        self.namespace.as_str()
    }

    /// The fingerprint of the generics that the enum was made with.
    pub fn generic_fingerprint(&self) -> (r: u64)
        ensures
            r == self.spec_fingerprint(),
    {
        self.generic_fingerprint
    }

    /// Whether the two are the same enum type: same name, namespace and
    /// generics fingerprint.
    pub fn same_nominal(&self, other: &FerrumEnum) -> (r: bool)
        ensures
            r == (self.spec_name() == other.spec_name() && self.spec_namespace()
                == other.spec_namespace() && self.spec_fingerprint() == other.spec_fingerprint()),
    {
        self.name == other.name && self.namespace == other.namespace && self.generic_fingerprint
            == other.generic_fingerprint
    }

    /// Whether the enum was made with the given generics table.
    pub fn matches_generics(&self, generics: &FerrumGenericsTable) -> (r: bool)
        ensures
            r == (self.spec_fingerprint() == generics.spec_fingerprint()),
    {
        self.generic_fingerprint == *generics.fingerprint()
    }

    /// Lays every variant's parameters out again, each variant from offset
    /// 0, and sets the size to that of the largest payload. Names, tags and
    /// types stay. On an enum that is laid out already nothing changes.
    pub fn align(&mut self)
        requires
            payloads_fit(old(self).variant_types()),
        ensures
            final(self).spec_name() == old(self).spec_name(),
            final(self).spec_namespace() == old(self).spec_namespace(),
            final(self).spec_fingerprint() == old(self).spec_fingerprint(),
            final(self).variant_names() == old(self).variant_names(),
            final(self).variant_ids() == old(self).variant_ids(),
            final(self).variant_types() == old(self).variant_types(),
            final(self).is_aligned(),
            old(self).is_aligned() ==> final(self).variant_offsets() == old(self).variant_offsets()
                && final(self).spec_size() == old(self).spec_size(),
    {
        let ghost variants = self.variant_types();
        let mut size: usize = 0;
        let mut v: usize = 0;
        while v < self.members.len()
            invariant
                v <= self.members.len(),
                self.name == old(self).name,
                self.namespace == old(self).namespace,
                self.generic_fingerprint == old(self).generic_fingerprint,
                self.variant_types() == variants,
                self.variant_names() == old(self).variant_names(),
                self.variant_ids() == old(self).variant_ids(),
                payloads_fit(variants),
                size == largest_payload(variants.take(v as int)),
                forall|k: int|
                    0 <= k < v ==> is_packed(variants[k], #[trigger] self.members@[k].arg_offsets()),
            decreases self.members.len() - v,
        {
            proof {
                lemma_largest_payload_step(variants, v as int);
                assert(packed_size(variants[v as int]) <= usize::MAX);
            }
            let payload = self.members[v].align();
            assert(self.variant_types() =~= variants);
            assert(self.variant_names() =~= old(self).variant_names());
            assert(self.variant_ids() =~= old(self).variant_ids());
            if payload > size {
                size = payload;
            }
            v += 1;
        }
        self.size = size;
        assert(variants.take(v as int) =~= variants);
        assert(self.variant_types() =~= variants);
        assert(self.variant_names() =~= old(self).variant_names());
        assert(self.variant_ids() =~= old(self).variant_ids());
        proof {
            if old(self).is_aligned() {
                assert forall|k: int| 0 <= k < variants.len() implies self.variant_offsets()[k]
                    == old(self).variant_offsets()[k] by {
                    assert(is_packed(old(self).variant_types()[k], old(self).variant_offsets()[k]));
                    assert(is_packed(variants[k], self.members@[k].arg_offsets()));
                    assert(self.variant_offsets()[k] =~= old(self).variant_offsets()[k]);
                }
                assert(self.variant_offsets() =~= old(self).variant_offsets());
            }
        }
    }

    /// The size of the enum in bytes.
    pub fn size(&self) -> (r: usize)
        ensures
            r == self.spec_size(),
    {
        self.size
    }

    /// How many variants the enum has.
    pub fn len(&self) -> (r: usize)
        ensures
            r == self.variant_types().len(),
    {
        self.members.len()
    }

    /// The offset of parameter `arg` of the variant declared at `variant`,
    /// if there is one.
    pub fn arg_offset(&self, variant: usize, arg: usize) -> (r: Option<usize>)
        ensures
            r.is_some() <==> variant < self.variant_types().len() && arg
                < self.variant_types()[variant as int].len(),
            r matches Some(offset) ==> offset == self.variant_offsets()[variant as int][arg as int],
    {
        if variant < self.members.len() {
            if arg < self.members[variant].args.len() {
                return Some(self.members[variant].args[arg].offset);
            }
        }
        None
    }
}

/// A variant of an enum template: its parameters may be generic.
pub struct FerrumEnumMemberTemplate {
    name: String,
    id: u8,
    args: Vec<TypeSlot>,
}

impl FerrumEnumMemberTemplate {
    pub closed spec fn spec_name(&self) -> Seq<char> {
        self.name@
    }

    pub closed spec fn spec_id(&self) -> u8 {
        self.id
    }

    /// The parameters, in order.
    pub closed spec fn slots(&self) -> Seq<TypeSlot> {
        self.args@
    }

    /// The variant `name` with tag `id` and the given parameters.
    pub fn new(name: String, id: u8, args: Vec<TypeSlot>) -> (r: Self)
        ensures
            r.spec_name() == name@,
            r.spec_id() == id,
            r.slots() == args@,
    {
        FerrumEnumMemberTemplate { name, id, args }
    }
}

impl GenericTemplate for FerrumEnumMemberTemplate {
    type Final = FerrumEnumMember;

    open spec fn resolvable(&self, table: &FerrumGenericsTable) -> bool {
        slots_resolvable(self.slots(), table)
    }

    open spec fn fits(&self, table: &FerrumGenericsTable) -> bool {
        true
    }

    open spec fn instantiates_to(&self, table: &FerrumGenericsTable, out: &FerrumEnumMember) -> bool {
        &&& out.spec_name() == self.spec_name()
        &&& out.spec_id() == self.spec_id()
        &&& out.arg_types() == slot_types(self.slots(), table)
    }

    fn generate_type(&self, table: &FerrumGenericsTable) -> (r: Option<FerrumEnumMember>) {
        match resolve_slots(&self.args, table) {
            Some(types) => Some(FerrumEnumMember::new(self.name.clone(), self.id, types)),
            None => None,
        }
    }
}

/// The names of the variants, in declaration order.
pub open spec fn template_names(members: Seq<FerrumEnumMemberTemplate>) -> Seq<Seq<char>> {
    Seq::new(members.len(), |i: int| members[i].spec_name())
}

/// The tags of the variants, in declaration order.
pub open spec fn template_ids(members: Seq<FerrumEnumMemberTemplate>) -> Seq<u8> {
    Seq::new(members.len(), |i: int| members[i].spec_id())
}

/// For each variant, in declaration order, the types that its parameters
/// have with this table.
pub open spec fn template_types(
    members: Seq<FerrumEnumMemberTemplate>,
    table: &FerrumGenericsTable,
) -> Seq<Seq<FerrumType>> {
    Seq::new(members.len(), |i: int| slot_types(members[i].slots(), table))
}

/// An enum whose variants may have generic parameters among theirs. With a
/// generics table it makes a `FerrumEnum`.
pub struct FerrumEnumTemplate {
    name: String,
    namespace: Namespace,
    /// The variants, in declaration order.
    members: Vec<FerrumEnumMemberTemplate>,
    generics: FerrumGenerics,
}

impl FerrumEnumTemplate {
    pub closed spec fn spec_name(&self) -> Seq<char> {
        self.name@
    }

    /// The name that the template was declared with.
    pub fn name(&self) -> (r: &String)
        ensures
            r@ == self.spec_name(),
    {
        &self.name
    }

    /// The namespace that the template was declared in.
    pub fn namespace(&self) -> (r: &String)
        ensures
            r@ == self.spec_namespace(),
    {
        &self.namespace
    }

    pub closed spec fn spec_namespace(&self) -> Seq<char> {
        self.namespace@
    }

    /// The generic parameters that the template declares.
    pub closed spec fn spec_generics(&self) -> FerrumGenerics {
        self.generics
    }

    /// The variants, in declaration order.
    pub closed spec fn variants(&self) -> Seq<FerrumEnumMemberTemplate> {
        self.members@
    }

    /// The template of the enum `name` in `namespace` with the given
    /// variants.
    pub fn new(
        name: String,
        namespace: Namespace,
        members: Vec<FerrumEnumMemberTemplate>,
        generics: FerrumGenerics,
    ) -> (r: Self)
        ensures
            r.spec_name() == name@,
            r.spec_namespace() == namespace@,
            r.spec_generics() == generics,
            r.variants() == members@,
    {
        FerrumEnumTemplate { name, namespace, members, generics }
    }
}

impl FerrumEnumTemplate {
    /// Made from one template with two generics tables of the same
    /// substitutions, two enums are the same type, carry the same generics
    /// fingerprint, so that each matches the table of the other, and have
    /// variants with parameters of the same types. Where the tables hold
    /// the very same types, the two also have the same offsets and size.
    pub proof fn lemma_same_substitutions_same_enum(
        self,
        a: FerrumGenericsTable,
        b: FerrumGenericsTable,
        x: Rc<FerrumEnum>,
        y: Rc<FerrumEnum>,
    )
        requires
            a.wf(),
            b.wf(),
            a@ == b@,
            self.resolvable(&a),
            self.instantiates_to(&a, &*x),
            self.instantiates_to(&b, &*y),
        ensures
            x.spec_fingerprint() == y.spec_fingerprint(),
            FerrumType::Enum(x)@ == FerrumType::Enum(y)@,
            x.variant_names() == y.variant_names(),
            x.variant_ids() == y.variant_ids(),
            x.variant_types().len() == y.variant_types().len(),
            forall|v: int|
                0 <= v < x.variant_types().len() ==> identities(#[trigger] x.variant_types()[v])
                    == identities(y.variant_types()[v]),
            x.spec_fingerprint() == b.spec_fingerprint(),
            y.spec_fingerprint() == a.spec_fingerprint(),
            a.types() == b.types() ==> {
                &&& x.variant_types() == y.variant_types()
                &&& x.variant_offsets() == y.variant_offsets()
                &&& x.spec_size() == y.spec_size()
            },
    {
        a.lemma_wf();
        b.lemma_wf();
        if a.types() == b.types() {
            assert forall|v: int| 0 <= v < self.variants().len() implies slot_types(
                self.variants()[v].slots(),
                &a,
            ) == slot_types(self.variants()[v].slots(), &b) by {
                assert(slot_types(self.variants()[v].slots(), &a) =~= slot_types(
                    self.variants()[v].slots(),
                    &b,
                ));
            }
            assert(x.variant_types() =~= y.variant_types());
            assert forall|v: int| 0 <= v < x.variant_offsets().len() implies x.variant_offsets()[v]
                == y.variant_offsets()[v] by {
                lemma_packing_is_determined(
                    x.variant_types()[v],
                    x.variant_offsets()[v],
                    y.variant_offsets()[v],
                );
            }
            assert(x.variant_offsets() =~= y.variant_offsets());
        }
        assert forall|v: int| 0 <= v < x.variant_types().len() implies identities(
            #[trigger] x.variant_types()[v],
        ) == identities(y.variant_types()[v]) by {
            assert(self.variants()[v].resolvable(&a));
            lemma_same_substitutions_same_types(self.variants()[v].slots(), a, b);
        }
    }
}

impl GenericTemplate for FerrumEnumTemplate {
    type Final = FerrumEnum;

    open spec fn resolvable(&self, table: &FerrumGenericsTable) -> bool {
        forall|i: int|
            0 <= i < self.variants().len() ==> (#[trigger] self.variants()[i]).resolvable(table)
    }

    open spec fn fits(&self, table: &FerrumGenericsTable) -> bool {
        payloads_fit(template_types(self.variants(), table))
    }

    open spec fn instantiates_to(&self, table: &FerrumGenericsTable, out: &FerrumEnum) -> bool {
        &&& out.spec_name() == self.spec_name()
        &&& out.spec_namespace() == self.spec_namespace()
        &&& out.spec_fingerprint() == table.spec_fingerprint()
        &&& out.variant_names() == template_names(self.variants())
        &&& out.variant_ids() == template_ids(self.variants())
        &&& out.variant_types() == template_types(self.variants(), table)
        &&& out.is_aligned()
    }

    fn generate_type(&self, table: &FerrumGenericsTable) -> (r: Option<FerrumEnum>) {
        let mut members: Vec<FerrumEnumMember> = Vec::new();
        let mut i: usize = 0;
        while i < self.members.len()
            invariant
                i <= self.members.len(),
                members@.len() == i,
                forall|k: int| 0 <= k < i ==> (#[trigger] self.members@[k]).resolvable(table),
                forall|k: int|
                    0 <= k < i ==> self.members@[k].instantiates_to(table, &#[trigger] members@[k]),
            decreases self.members.len() - i,
        {
            match self.members[i].generate_type(table) {
                Some(member) => {
                    members.push(member);
                },
                None => {
                    assert(!self.variants()[i as int].resolvable(table));
                    return None;
                },
            }
            i += 1;
        }
        assert(variant_names_of(members@) =~= template_names(self.variants()));
        assert(variant_ids_of(members@) =~= template_ids(self.variants()));
        assert(variant_types_of(members@) =~= template_types(self.variants(), table));
        Some(
            FerrumEnum::new(
                self.name.clone(),
                self.namespace.clone(),
                members,
                *table.fingerprint(),
            ),
        )
    }
}

} // verus!
