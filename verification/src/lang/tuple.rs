use std::collections::hash_map::DefaultHasher;
use std::rc::Rc;
use vstd::prelude::*;
use vstd::std_specs::cmp::PartialEqSpecImpl;
use crate::lang::fingerprint::{all_writable, feed_type, identities, prefix_writes, writable};
use crate::lang::layout::{
    is_packed,
    lemma_packed_prefix,
    lemma_packed_step,
    lemma_packing_is_determined,
    packed_size,
};
use crate::lang::types::{
    lemma_same_substitutions_same_types,
    resolve_slots,
    slot_types,
    slots_resolvable,
    FerrumGenericsTable,
    FerrumType,
    GenericTemplate,
    TypeIdentity,
    TypeSlot,
};

verus! {

/// A tuple type: positional members, packed in order.
#[derive(Debug)]
pub struct FerrumTuple {
    members: Vec<FerrumTupleMember>,
    size: usize,
}

#[derive(Debug)]
struct FerrumTupleMember {
    ty: FerrumType,
    offset: usize,
}

impl PartialEq for FerrumTuple {
    fn eq(&self, other: &Self) -> (r: bool) {
        self.same_members(other)
    }
}

impl PartialEqSpecImpl for FerrumTuple {
    open spec fn obeys_eq_spec() -> bool {
        true
    }

    open spec fn eq_spec(&self, other: &Self) -> bool {
        self.member_identities() == other.member_identities()
    }
}

impl FerrumTuple {
    /// The members' types, in order.
    pub closed spec fn member_types(&self) -> Seq<FerrumType> {
        Seq::new(self.members@.len(), |i: int| self.members@[i].ty)
    }

    /// The members' recorded offsets, in order.
    pub closed spec fn member_offsets(&self) -> Seq<usize> {
        Seq::new(self.members@.len(), |i: int| self.members@[i].offset)
    }

    /// The members' identities, in order.
    pub closed spec fn member_identities(&self) -> Seq<TypeIdentity>
        decreases self,
    {
        Seq::new(
            self.members@.len(),
            |i: int|
                if 0 <= i < self.members@.len() {
                    self.members@[i].ty.identity()
                } else {
                    arbitrary()
                },
        )
    }

    /// The recorded size in bytes.
    pub closed spec fn spec_size(&self) -> usize {
        self.size
    }

    /// Whether offsets and size are those of tight packing in member order.
    pub open spec fn is_aligned(&self) -> bool {
        &&& is_packed(self.member_types(), self.member_offsets())
        &&& self.spec_size() == packed_size(self.member_types())
    }

    /// The identities are those of the member types, one for one.
    pub proof fn lemma_member_identities(&self)
        ensures
            self.member_identities().len() == self.member_types().len(),
            self.member_offsets().len() == self.member_types().len(),
            forall|i: int|
                0 <= i < self.member_types().len() ==> self.member_identities()[i]
                    == self.member_types()[i]@,
    {
    }

    /// The members of a tuple are few enough, and of such kinds, that
    /// their count and their identities can be written for a fingerprint.
    pub proof fn lemma_members_writable(&self)
        ensures
            self.member_identities().len() <= u64::MAX,
            all_writable(self.member_identities()),
        decreases self,
    {
        assert(self.members@.len() == self.members.len());
        assert forall|i: int| 0 <= i < self.member_identities().len() implies writable(
            #[trigger] self.member_identities()[i],
        ) by {
            self.members@[i].ty.lemma_identity_writable();
        }
    }

    /// A tuple of the given member types, laid out.
    pub fn new(types: Vec<FerrumType>) -> (r: Self)
        requires
            packed_size(types@) <= usize::MAX,
        ensures
            r.member_types() == types@,
            r.is_aligned(),
    {
        let mut members: Vec<FerrumTupleMember> = Vec::new();
        let mut i: usize = 0;
        while i < types.len()
            invariant
                i <= types.len(),
                members@.len() == i,
                forall|k: int| 0 <= k < i ==> members@[k].ty == types@[k],
            decreases types.len() - i,
        {
            members.push(FerrumTupleMember { ty: types[i].clone(), offset: 0 });
            i += 1;
        }
        let mut t = FerrumTuple { members, size: 0 };
        assert(t.member_types() =~= types@);
        t.align();
        t
    }

    /// Lays the members out again: each at the end of the one before it,
    /// the first at 0, and the size their sum. The members' types stay.
    /// On a tuple that is laid out already nothing changes.
    pub fn align(&mut self)
        requires
            packed_size(old(self).member_types()) <= usize::MAX,
        ensures
            final(self).member_types() == old(self).member_types(),
            final(self).member_identities() == old(self).member_identities(),
            final(self).is_aligned(),
            old(self).is_aligned() ==> final(self).member_offsets() == old(self).member_offsets()
                && final(self).spec_size() == old(self).spec_size(),
    {
        let ghost types = self.member_types();
        let mut offset: usize = 0;
        let mut i: usize = 0;
        while i < self.members.len()
            invariant
                i <= self.members.len(),
                self.member_types() == types,
                self.member_identities() == old(self).member_identities(),
                packed_size(types) <= usize::MAX,
                offset == packed_size(types.take(i as int)),
                forall|k: int| 0 <= k < i ==> self.members@[k].offset == packed_size(types.take(k)),
            decreases self.members.len() - i,
        {
            proof {
                lemma_packed_step(types, i as int);
                lemma_packed_prefix(types, i + 1);
            }
            let size = self.members[i].ty.size();
            self.members[i].offset = offset;
            assert(self.member_types() =~= types);
            assert(self.member_identities() =~= old(self).member_identities());
            offset += size;
            i += 1;
        }
        self.size = offset;
        assert(types.take(i as int) =~= types);
        assert(self.member_types() =~= types);
        assert(self.member_identities() =~= old(self).member_identities());
        assert(self.member_offsets() =~= Seq::new(
            types.len(),
            |k: int| packed_size(types.take(k)) as usize,
        ));
        proof {
            if old(self).is_aligned() {
                assert(self.member_offsets() =~= old(self).member_offsets());
            }
        }
    }

    /// The size in bytes.
    pub fn size(&self) -> (r: usize)
        ensures
            r == self.spec_size(),
    {
        self.size
    }

    /// How many members the tuple has.
    pub fn len(&self) -> (r: usize)
        ensures
            r == self.member_types().len(),
    {
        self.members.len()
    }

    /// The type of member `index`, if there is one.
    pub fn member_type(&self, index: usize) -> (r: Option<&FerrumType>)
        ensures
            r.is_some() <==> index < self.member_types().len(),
            r matches Some(ty) ==> *ty == self.member_types()[index as int],
    {
        if index < self.members.len() {
            Some(&self.members[index].ty)
        } else {
            None
        }
    }

    /// The offset of member `index`, if there is one.
    pub fn member_offset(&self, index: usize) -> (r: Option<usize>)
        ensures
            r.is_some() <==> index < self.member_types().len(),
            r matches Some(offset) ==> offset == self.member_offsets()[index as int],
    {
        if index < self.members.len() {
            Some(self.members[index].offset)
        } else {
            None
        }
    }

    /// Whether the two tuples have the same members by identity.
    pub fn same_members(&self, other: &FerrumTuple) -> (r: bool)
        ensures
            r == (self.member_identities() == other.member_identities()),
        decreases self,
    {
        if self.members.len() != other.members.len() {
            assert(self.member_identities().len() != other.member_identities().len());
            return false;
        }
        let mut i: usize = 0;
        while i < self.members.len()
            invariant
                i <= self.members.len(),
                self.members.len() == other.members.len(),
                forall|k: int| 0 <= k < i ==> self.members@[k].ty@ == other.members@[k].ty@,
            decreases self.members.len() - i,
        {
            if !(self.members[i].ty.eq(&other.members[i].ty)) {
                assert(self.member_identities()[i as int] != other.member_identities()[i as int]);
                return false;
            }
            i += 1;
        }
        assert(self.member_identities() =~= other.member_identities());
        true
    }

    /// Feeds every member, in order, to the hasher.
    pub fn feed_members(&self, state: &mut DefaultHasher)
        ensures
            final(state)@ == old(state)@ + prefix_writes(
                self.member_identities(),
                self.member_identities().len(),
            ),
        decreases self,
    {
        let ghost ids = self.member_identities();
        let mut i: usize = 0;
        assert(state@ =~= old(state)@ + prefix_writes(ids, 0));
        while i < self.members.len()
            invariant
                i <= self.members.len(),
                ids == self.member_identities(),
                state@ == old(state)@ + prefix_writes(ids, i as nat),
            decreases self.members.len() - i,
        {
            feed_type(&self.members[i].ty, state);
            i += 1;
            assert(state@ =~= old(state)@ + prefix_writes(ids, i as nat));
        }
    }
}

/// A tuple whose members may be generic parameters.
pub struct FerrumTupleTemplate {
    members: Vec<TypeSlot>,
}

impl FerrumTupleTemplate {
    /// The members, in order.
    pub closed spec fn slots(&self) -> Seq<TypeSlot> {
        self.members@
    }

    /// The template of a tuple with the given members.
    pub fn new(members: Vec<TypeSlot>) -> (r: Self)
        ensures
            r.slots() == members@,
    {
        FerrumTupleTemplate { members }
    }
}

impl FerrumTupleTemplate {
    /// Made from one template with two generics tables of the same
    /// substitutions, two tuples are the same type. Where the tables hold
    /// the very same types, the two also have the same member types,
    /// offsets and size.
    pub proof fn lemma_same_substitutions_same_tuple(
        self,
        a: FerrumGenericsTable,
        b: FerrumGenericsTable,
        x: Rc<FerrumTuple>,
        y: Rc<FerrumTuple>,
    )
        requires
            a@ == b@,
            self.resolvable(&a),
            self.instantiates_to(&a, &*x),
            self.instantiates_to(&b, &*y),
        ensures
            FerrumType::Tuple(x)@ == FerrumType::Tuple(y)@,
            a.types() == b.types() ==> {
                &&& x.member_types() == y.member_types()
                &&& x.member_offsets() == y.member_offsets()
                &&& x.spec_size() == y.spec_size()
            },
    {
        if a.types() == b.types() {
            assert(x.member_types() =~= y.member_types());
            lemma_packing_is_determined(x.member_types(), x.member_offsets(), y.member_offsets());
        }
        lemma_same_substitutions_same_types(self.slots(), a, b);
        x.lemma_member_identities();
        y.lemma_member_identities();
        assert(x.member_identities() =~= identities(x.member_types()));
        assert(y.member_identities() =~= identities(y.member_types()));
    }
}

impl GenericTemplate for FerrumTupleTemplate {
    type Final = FerrumTuple;

    open spec fn resolvable(&self, table: &FerrumGenericsTable) -> bool {
        slots_resolvable(self.slots(), table)
    }

    open spec fn fits(&self, table: &FerrumGenericsTable) -> bool {
        packed_size(slot_types(self.slots(), table)) <= usize::MAX
    }

    open spec fn instantiates_to(&self, table: &FerrumGenericsTable, out: &FerrumTuple) -> bool {
        &&& out.member_types() == slot_types(self.slots(), table)
        &&& out.is_aligned()
    }

    fn generate_type(&self, table: &FerrumGenericsTable) -> (r: Option<FerrumTuple>) {
        match resolve_slots(&self.members, table) {
            Some(types) => Some(FerrumTuple::new(types)),
            None => None,
        }
    }
}

} // verus!
