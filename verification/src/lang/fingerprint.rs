use std::collections::hash_map::DefaultHasher;
use std::hash::Hasher;
use vstd::prelude::*;
use vstd::bytes::{lemma_auto_spec_u64_to_from_le_bytes, spec_u64_to_le_bytes, u64_to_le_bytes};
use vstd::std_specs::hash::DefaultHasherAdditionalSpecFns;
use vstd::utf8::{encode_utf8, encode_utf8_decode_utf8};
use crate::lang::types::{FerrumType, TypeIdentity};

verus! {

/// The identities of the given types, in order.
pub open spec fn identities(types: Seq<FerrumType>) -> Seq<TypeIdentity> {
    Seq::new(types.len(), |i: int| types[i]@)
}

/// What a length contributes to a fingerprint.
pub open spec fn length_write(len: nat) -> Seq<u8> {
    spec_u64_to_le_bytes(len as u64)
}

/// What a name contributes to a fingerprint: its length in bytes, then its
/// bytes.
pub open spec fn text_writes(text: Seq<char>) -> Seq<Seq<u8>> {
    seq![length_write(encode_utf8(text).len()), encode_utf8(text)]
}

/// What a nominal type contributes after its tag: name, namespace and the
/// fingerprint of the generics it was made with.
pub open spec fn nominal_writes(name: Seq<char>, namespace: Seq<char>, generics: u64) -> Seq<
    Seq<u8>,
> {
    text_writes(name) + text_writes(namespace) + seq![spec_u64_to_le_bytes(generics)]
}

/// The byte strings that one type contributes to a fingerprint. Equal
/// identities contribute equal byte strings.
pub open spec fn type_writes(id: TypeIdentity) -> Seq<Seq<u8>>
    decreases id, 0nat,
{
    match id {
        TypeIdentity::Elementary(width) => seq![seq![0u8, width]],
        TypeIdentity::Struct(name, namespace, generics) => seq![seq![1u8]] + nominal_writes(
            name,
            namespace,
            generics,
        ),
        TypeIdentity::Enum(name, namespace, generics) => seq![seq![2u8]] + nominal_writes(
            name,
            namespace,
            generics,
        ),
        TypeIdentity::Tuple(members) => seq![seq![3u8], length_write(members.len())]
            + prefix_writes(members, members.len()),
        TypeIdentity::Ref(inner) => seq![seq![4u8]] + type_writes(*inner),
        TypeIdentity::Ptr(inner) => seq![seq![5u8]] + type_writes(*inner),
        TypeIdentity::MutRef(inner) => seq![seq![6u8]] + type_writes(*inner),
        TypeIdentity::MutPtr(inner) => seq![seq![7u8]] + type_writes(*inner),
    }
}

/// The byte strings that the first `n` of the given types contribute, one
/// type after the other.
pub open spec fn prefix_writes(ids: Seq<TypeIdentity>, n: nat) -> Seq<Seq<u8>>
    decreases ids, n,
{
    if n == 0 || n > ids.len() {
        Seq::empty()
    } else {
        prefix_writes(ids, (n - 1) as nat) + type_writes(ids[n - 1])
    }
}

/// Everything that is hashed for a sequence of substitutions: how many
/// there are, then each of them.
pub open spec fn table_writes(ids: Seq<TypeIdentity>) -> Seq<Seq<u8>> {
    seq![length_write(ids.len())] + prefix_writes(ids, ids.len())
}

/// The fingerprint of a sequence of substitutions: the standard hasher's
/// digest of `table_writes`.
pub open spec fn fingerprint_of(ids: Seq<TypeIdentity>) -> u64 {
    DefaultHasher::spec_finish(table_writes(ids))
}

/// Feeds a length to the hasher.
pub fn feed_length(len: usize, state: &mut DefaultHasher)
    ensures
        final(state)@ == old(state)@.push(length_write(len as nat)),
{
    let bytes = u64_to_le_bytes(len as u64);
    state.write(bytes.as_slice());
}

/// Feeds a name to the hasher.
pub fn feed_text(text: &str, state: &mut DefaultHasher)
    ensures
        final(state)@ == old(state)@ + text_writes(text@),
{
    let bytes = text.as_bytes();
    feed_length(bytes.len(), state);
    state.write(bytes);
    assert(state@ =~= old(state)@ + text_writes(text@));
}

/// Feeds a tag byte to the hasher.
fn feed_tag(tag: u8, state: &mut DefaultHasher)
    ensures
        final(state)@ == old(state)@.push(seq![tag]),
{
    let mut bytes: Vec<u8> = Vec::new();
    bytes.push(tag);
    state.write(bytes.as_slice());
    assert(bytes@ =~= seq![tag]);
}

/// Feeds what identifies a nominal type to the hasher.
fn feed_nominal(name: &str, namespace: &str, generics: u64, state: &mut DefaultHasher)
    ensures
        final(state)@ == old(state)@ + nominal_writes(name@, namespace@, generics),
{
    feed_text(name, state);
    feed_text(namespace, state);
    let bytes = u64_to_le_bytes(generics);
    state.write(bytes.as_slice());
    assert(state@ =~= old(state)@ + nominal_writes(name@, namespace@, generics));
}

/// Feeds one type to the hasher.
pub fn feed_type(ty: &FerrumType, state: &mut DefaultHasher)
    ensures
        final(state)@ == old(state)@ + type_writes(ty@),
    decreases ty,
{
    match ty {
        FerrumType::Elementary(width) => {
            let mut bytes: Vec<u8> = Vec::new();
            bytes.push(0u8);
            bytes.push(*width);
            state.write(bytes.as_slice());
            assert(bytes@ =~= seq![0u8, *width]);
            assert(state@ =~= old(state)@ + type_writes(ty@));
        },
        FerrumType::Struct(s) => {
            feed_tag(1u8, state);
            feed_nominal(s.name(), s.namespace(), s.generic_fingerprint(), state);
            assert(state@ =~= old(state)@ + type_writes(ty@));
        },
        FerrumType::Enum(e) => {
            feed_tag(2u8, state);
            feed_nominal(e.name(), e.namespace(), e.generic_fingerprint(), state);
            assert(state@ =~= old(state)@ + type_writes(ty@));
        },
        FerrumType::Tuple(t) => {
            proof {
                t.lemma_member_identities();
            }
            feed_tag(3u8, state);
            feed_length(t.len(), state);
            t.feed_members(state);
            assert(state@ =~= old(state)@ + type_writes(ty@));
        },
        FerrumType::Ref(inner) => {
            feed_tag(4u8, state);
            feed_type(inner, state);
            assert(state@ =~= old(state)@ + type_writes(ty@));
        },
        FerrumType::Ptr(inner) => {
            feed_tag(5u8, state);
            feed_type(inner, state);
            assert(state@ =~= old(state)@ + type_writes(ty@));
        },
        FerrumType::MutRef(inner) => {
            feed_tag(6u8, state);
            feed_type(inner, state);
            assert(state@ =~= old(state)@ + type_writes(ty@));
        },
        FerrumType::MutPtr(inner) => {
            feed_tag(7u8, state);
            feed_type(inner, state);
            assert(state@ =~= old(state)@ + type_writes(ty@));
        },
    }
}

/// The fingerprint of the given substitutions.
pub fn fingerprint(types: &Vec<FerrumType>) -> (r: u64)
    ensures
        r == fingerprint_of(identities(types@)),
{
    let mut state = DefaultHasher::new();
    feed_length(types.len(), &mut state);
    let ghost ids = identities(types@);
    let mut i: usize = 0;
    while i < types.len()
        invariant
            i <= types.len(),
            ids == identities(types@),
            state@ == seq![length_write(ids.len())] + prefix_writes(ids, i as nat),
        decreases types.len() - i,
    {
        feed_type(&types[i], &mut state);
        i += 1;
        assert(state@ =~= seq![length_write(ids.len())] + prefix_writes(ids, i as nat));
    }
    state.finish()
}

/// Whether every count inside the identity can be written as 64 bits. The
/// identity of every type that the library can hold is of this kind.
pub open spec fn writable(id: TypeIdentity) -> bool
    decreases id,
{
    match id {
        TypeIdentity::Tuple(members) => members.len() <= u64::MAX && forall|i: int|
            0 <= i < members.len() ==> writable(#[trigger] members[i]),
        TypeIdentity::Ref(inner) => writable(*inner),
        TypeIdentity::Ptr(inner) => writable(*inner),
        TypeIdentity::MutRef(inner) => writable(*inner),
        TypeIdentity::MutPtr(inner) => writable(*inner),
        _ => true,
    }
}

/// Whether every one of the identities is writable.
pub open spec fn all_writable(ids: Seq<TypeIdentity>) -> bool {
    forall|i: int| 0 <= i < ids.len() ==> writable(#[trigger] ids[i])
}

/// The byte strings that the types from position `k` on contribute, one
/// type after the other.
pub open spec fn suffix_writes(ids: Seq<TypeIdentity>, k: nat) -> Seq<Seq<u8>>
    decreases ids.len() - k,
{
    if k >= ids.len() {
        Seq::empty()
    } else {
        type_writes(ids[k as int]) + suffix_writes(ids, k + 1)
    }
}

/// What the first `n` types contribute is what the first `k` of them
/// contribute, followed by what the types from `k` to `n` contribute.
proof fn lemma_prefix_splits(ids: Seq<TypeIdentity>, k: nat, n: nat)
    requires
        k <= n <= ids.len(),
    ensures
        prefix_writes(ids, n) == prefix_writes(ids, k) + suffix_writes(ids.take(n as int), k),
    decreases n - k,
{
    let head = ids.take(n as int);
    if k == n {
        assert(prefix_writes(ids, n) =~= prefix_writes(ids, k) + suffix_writes(head, k));
    } else {
        lemma_prefix_splits(ids, k + 1, n);
        assert(head[k as int] == ids[k as int]);
        assert(prefix_writes(ids, k + 1) == prefix_writes(ids, k) + type_writes(ids[k as int]));
        assert(prefix_writes(ids, n) =~= prefix_writes(ids, k) + suffix_writes(head, k));
    }
}

/// Writing a 64-bit number keeps the number apart from every other.
proof fn lemma_length_write_injective(a: nat, b: nat)
    requires
        a <= u64::MAX,
        b <= u64::MAX,
        length_write(a) == length_write(b),
    ensures
        a == b,
{
    lemma_auto_spec_u64_to_from_le_bytes();
}

/// What a type contributes says where it ends and which type it was: if
/// two sequences of byte strings are the same, and each starts with what a
/// writable identity contributes, then the two identities are the same,
/// and so is what follows them.
pub proof fn lemma_type_writes_delimited(
    a: TypeIdentity,
    b: TypeIdentity,
    after_a: Seq<Seq<u8>>,
    after_b: Seq<Seq<u8>>,
)
    requires
        writable(a),
        writable(b),
        type_writes(a) + after_a == type_writes(b) + after_b,
    ensures
        a == b,
        after_a == after_b,
    decreases a, 0nat,
{
    let left = type_writes(a) + after_a;
    let right = type_writes(b) + after_b;
    lemma_type_writes_start(a);
    lemma_type_writes_start(b);
    assert(left[0] == type_writes(a)[0]);
    assert(right[0] == type_writes(b)[0]);
    assert(left[0] == right[0]);
    match a {
        TypeIdentity::Elementary(width) => {
            assert(left[0][1] == width);
            assert(b is Elementary);
            assert(after_a =~= left.skip(1));
            assert(after_b =~= right.skip(1));
        },
        TypeIdentity::Struct(name, namespace, generics) => {
            assert(left[0][0] == 1);
            assert(b is Struct);
            lemma_nominal_delimited(
                name,
                namespace,
                generics,
                b->Struct_0,
                b->Struct_1,
                b->Struct_2,
                after_a,
                after_b,
                1,
            );
        },
        TypeIdentity::Enum(name, namespace, generics) => {
            assert(left[0][0] == 2);
            assert(b is Enum);
            lemma_nominal_delimited(
                name,
                namespace,
                generics,
                b->Enum_0,
                b->Enum_1,
                b->Enum_2,
                after_a,
                after_b,
                2,
            );
        },
        TypeIdentity::Tuple(members) => {
            assert(left[0][0] == 3);
            assert(b is Tuple);
            let others = b->Tuple_0;
            assert(left[1] == length_write(members.len()));
            assert(right[1] == length_write(others.len()));
            lemma_length_write_injective(members.len(), others.len());
            let n = members.len();
            lemma_prefix_splits(members, 0, n);
            lemma_prefix_splits(others, 0, n);
            assert(members.take(n as int) =~= members);
            assert(others.take(n as int) =~= others);
            assert(prefix_writes(members, 0) =~= Seq::<Seq<u8>>::empty());
            assert(prefix_writes(others, 0) =~= Seq::<Seq<u8>>::empty());
            assert(prefix_writes(members, n) =~= suffix_writes(members, 0));
            assert(prefix_writes(others, n) =~= suffix_writes(others, 0));
            assert(suffix_writes(members, 0) + after_a =~= left.skip(2));
            assert(suffix_writes(others, 0) + after_b =~= right.skip(2));
            lemma_suffix_writes_delimited(members, others, 0, after_a, after_b);
            assert(members =~= others);
        },
        TypeIdentity::Ref(inner) => {
            assert(left[0][0] == 4);
            assert(b is Ref);
            assert(type_writes(*inner) + after_a =~= left.skip(1));
            assert(type_writes(*b->Ref_0) + after_b =~= right.skip(1));
            lemma_type_writes_delimited(*inner, *b->Ref_0, after_a, after_b);
        },
        TypeIdentity::Ptr(inner) => {
            assert(left[0][0] == 5);
            assert(b is Ptr);
            assert(type_writes(*inner) + after_a =~= left.skip(1));
            assert(type_writes(*b->Ptr_0) + after_b =~= right.skip(1));
            lemma_type_writes_delimited(*inner, *b->Ptr_0, after_a, after_b);
        },
        TypeIdentity::MutRef(inner) => {
            assert(left[0][0] == 6);
            assert(b is MutRef);
            assert(type_writes(*inner) + after_a =~= left.skip(1));
            assert(type_writes(*b->MutRef_0) + after_b =~= right.skip(1));
            lemma_type_writes_delimited(*inner, *b->MutRef_0, after_a, after_b);
        },
        TypeIdentity::MutPtr(inner) => {
            assert(left[0][0] == 7);
            assert(b is MutPtr);
            assert(type_writes(*inner) + after_a =~= left.skip(1));
            assert(type_writes(*b->MutPtr_0) + after_b =~= right.skip(1));
            lemma_type_writes_delimited(*inner, *b->MutPtr_0, after_a, after_b);
        },
    }
}

/// What a type contributes starts with its tag: two bytes for an
/// elementary type, the second its width, and one byte for every other.
proof fn lemma_type_writes_start(id: TypeIdentity)
    ensures
        type_writes(id).len() >= 1,
        id is Elementary ==> type_writes(id)[0].len() == 2 && type_writes(id)[0][0] == 0,
        id !is Elementary ==> type_writes(id)[0].len() == 1,
        id is Struct ==> type_writes(id)[0][0] == 1,
        id is Enum ==> type_writes(id)[0][0] == 2,
        id is Tuple ==> type_writes(id)[0][0] == 3 && type_writes(id).len() >= 2,
        id is Ref ==> type_writes(id)[0][0] == 4,
        id is Ptr ==> type_writes(id)[0][0] == 5,
        id is MutRef ==> type_writes(id)[0][0] == 6,
        id is MutPtr ==> type_writes(id)[0][0] == 7,
{
}

/// What a nominal type contributes says which it was.
proof fn lemma_nominal_delimited(
    name_a: Seq<char>,
    namespace_a: Seq<char>,
    generics_a: u64,
    name_b: Seq<char>,
    namespace_b: Seq<char>,
    generics_b: u64,
    after_a: Seq<Seq<u8>>,
    after_b: Seq<Seq<u8>>,
    tag: u8,
)
    requires
        seq![seq![tag]] + nominal_writes(name_a, namespace_a, generics_a) + after_a == seq![
            seq![tag],
        ] + nominal_writes(name_b, namespace_b, generics_b) + after_b,
    ensures
        name_a == name_b,
        namespace_a == namespace_b,
        generics_a == generics_b,
        after_a == after_b,
{
    let left = seq![seq![tag]] + nominal_writes(name_a, namespace_a, generics_a) + after_a;
    let right = seq![seq![tag]] + nominal_writes(name_b, namespace_b, generics_b) + after_b;
    assert(nominal_writes(name_a, namespace_a, generics_a).len() == 5);
    assert(nominal_writes(name_b, namespace_b, generics_b).len() == 5);
    assert(left[2] == encode_utf8(name_a));
    assert(right[2] == encode_utf8(name_b));
    assert(left[4] == encode_utf8(namespace_a));
    assert(right[4] == encode_utf8(namespace_b));
    assert(left[5] == spec_u64_to_le_bytes(generics_a));
    assert(right[5] == spec_u64_to_le_bytes(generics_b));
    encode_utf8_decode_utf8(name_a);
    encode_utf8_decode_utf8(name_b);
    encode_utf8_decode_utf8(namespace_a);
    encode_utf8_decode_utf8(namespace_b);
    lemma_auto_spec_u64_to_from_le_bytes();
    assert(after_a =~= left.skip(6));
    assert(after_b =~= right.skip(6));
}

/// What a run of types contributes says where it ends and which types
/// they were.
pub proof fn lemma_suffix_writes_delimited(
    xs: Seq<TypeIdentity>,
    ys: Seq<TypeIdentity>,
    k: nat,
    after_x: Seq<Seq<u8>>,
    after_y: Seq<Seq<u8>>,
)
    requires
        xs.len() == ys.len(),
        k <= xs.len(),
        all_writable(xs),
        all_writable(ys),
        suffix_writes(xs, k) + after_x == suffix_writes(ys, k) + after_y,
    ensures
        forall|i: int| k <= i < xs.len() ==> xs[i] == ys[i],
        after_x == after_y,
    decreases xs, xs.len() - k,
{
    if k < xs.len() {
        let rest_x = suffix_writes(xs, k + 1) + after_x;
        let rest_y = suffix_writes(ys, k + 1) + after_y;
        assert(type_writes(xs[k as int]) + rest_x =~= suffix_writes(xs, k) + after_x);
        assert(type_writes(ys[k as int]) + rest_y =~= suffix_writes(ys, k) + after_y);
        lemma_type_writes_delimited(xs[k as int], ys[k as int], rest_x, rest_y);
        lemma_suffix_writes_delimited(xs, ys, k + 1, after_x, after_y);
    } else {
        assert(suffix_writes(xs, k) + after_x =~= after_x);
        assert(suffix_writes(ys, k) + after_y =~= after_y);
    }
}

/// What is hashed for a table tells the table apart from every other: two
/// sequences of writable identities that contribute the same byte strings
/// are the same sequence. So two tables of different substitutions have
/// the same fingerprint only where the hasher maps different inputs to one
/// digest.
pub proof fn lemma_table_writes_injective(a: Seq<TypeIdentity>, b: Seq<TypeIdentity>)
    requires
        a.len() <= u64::MAX,
        b.len() <= u64::MAX,
        all_writable(a),
        all_writable(b),
        table_writes(a) == table_writes(b),
    ensures
        a == b,
{
    assert(table_writes(a)[0] == length_write(a.len()));
    assert(table_writes(b)[0] == length_write(b.len()));
    lemma_length_write_injective(a.len(), b.len());
    let n = a.len();
    lemma_prefix_splits(a, 0, n);
    lemma_prefix_splits(b, 0, n);
    assert(a.take(n as int) =~= a);
    assert(b.take(n as int) =~= b);
    assert(prefix_writes(a, 0) =~= Seq::<Seq<u8>>::empty());
    assert(prefix_writes(b, 0) =~= Seq::<Seq<u8>>::empty());
    assert(prefix_writes(a, n) =~= suffix_writes(a, 0));
    assert(prefix_writes(b, n) =~= suffix_writes(b, 0));
    let none = Seq::<Seq<u8>>::empty();
    assert(suffix_writes(a, 0) + none =~= table_writes(a).skip(1));
    assert(suffix_writes(b, 0) + none =~= table_writes(b).skip(1));
    lemma_suffix_writes_delimited(a, b, 0, none, none);
    assert(a =~= b);
}

} // verus!
