use vstd::prelude::*;
use crate::lang::types::FerrumType;

verus! {

/// Bytes that the given members take when they are packed without padding.
pub open spec fn packed_size(types: Seq<FerrumType>) -> nat
    decreases types.len(),
{
    if types.len() == 0 {
        0
    } else {
        packed_size(types.drop_last()) + types.last().spec_size()
    }
}

/// Offset of member `i` under tight packing: the bytes of all members
/// declared before it.
pub open spec fn packed_offset(types: Seq<FerrumType>, i: int) -> nat {
    packed_size(types.take(i))
}

/// Whether `offsets` are the tightly packed offsets of `types`, in
/// declaration order.
pub open spec fn is_packed(types: Seq<FerrumType>, offsets: Seq<usize>) -> bool {
    &&& offsets.len() == types.len()
    &&& forall|i: int| 0 <= i < types.len() ==> offsets[i] == packed_offset(types, i)
}

/// Size of the largest payload among the given variants.
pub open spec fn largest_payload(variants: Seq<Seq<FerrumType>>) -> nat
    decreases variants.len(),
{
    if variants.len() == 0 {
        0
    } else {
        let rest = largest_payload(variants.drop_last());
        let last = packed_size(variants.last());
        if last > rest {
            last
        } else {
            rest
        }
    }
}

/// A prefix of the members never takes more bytes than all of them.
pub proof fn lemma_packed_prefix(types: Seq<FerrumType>, i: int)
    requires
        0 <= i <= types.len(),
    ensures
        packed_size(types.take(i)) <= packed_size(types),
    decreases types.len() - i,
{
    if i == types.len() {
        assert(types.take(i) =~= types);
    } else {
        lemma_packed_prefix(types, i + 1);
        assert(types.take(i + 1).drop_last() =~= types.take(i));
    }
}

/// Taking one more member adds that member's size.
pub proof fn lemma_packed_step(types: Seq<FerrumType>, i: int)
    requires
        0 <= i < types.len(),
    ensures
        packed_size(types.take(i + 1)) == packed_size(types.take(i)) + types[i].spec_size(),
{
    assert(types.take(i + 1).drop_last() =~= types.take(i));
    assert(types.take(i + 1).last() == types[i]);
}

/// No variant's payload is larger than the largest payload.
pub proof fn lemma_largest_payload_bounds(variants: Seq<Seq<FerrumType>>, i: int)
    requires
        0 <= i < variants.len(),
    ensures
        packed_size(variants[i]) <= largest_payload(variants),
    decreases variants.len(),
{
    if i < variants.len() - 1 {
        lemma_largest_payload_bounds(variants.drop_last(), i);
    }
}

/// Tight packing leaves no choice: the same members in the same order have
/// the same offsets.
pub proof fn lemma_packing_is_determined(
    types: Seq<FerrumType>,
    first: Seq<usize>,
    second: Seq<usize>,
)
    requires
        is_packed(types, first),
        is_packed(types, second),
    ensures
        first == second,
{
    assert(first =~= second);
}

/// Looking at one more variant keeps the larger of the two sizes.
pub proof fn lemma_largest_payload_step(variants: Seq<Seq<FerrumType>>, i: int)
    requires
        0 <= i < variants.len(),
    ensures
        largest_payload(variants.take(i + 1)) == if packed_size(variants[i]) > largest_payload(
            variants.take(i),
        ) {
            packed_size(variants[i])
        } else {
            largest_payload(variants.take(i))
        },
{
    assert(variants.take(i + 1).drop_last() =~= variants.take(i));
    assert(variants.take(i + 1).last() == variants[i]);
}

} // verus!
