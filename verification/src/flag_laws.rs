//! Laws shared by every flag set of the library (`Flags`, `ParamsFlags`,
//! `EpAttrFields`, `WorkerAttrFields`, ...). Each flag set is a `u64` of bits
//! whose operations are specified on those bits, so the laws are stated there.
use vstd::prelude::*;

verus! {

/// The union of two flag sets contains each of them.
pub proof fn lemma_union_contains_both(a: u64, b: u64)
    ensures
        (a | b) & a == a,
        (a | b) & b == b,
{
    assert((a | b) & a == a && (a | b) & b == b) by (bit_vector);
}

/// Inserting flags and removing them again gives back the flags that were
/// set before, when none of them was among those inserted.
pub proof fn lemma_remove_undoes_insert(a: u64, b: u64)
    requires
        a & b == 0,
    ensures
        (a | b) & !b == a,
{
    assert((a | b) & !b == a) by (bit_vector)
        requires
            a & b == 0,
    ;
}

/// Truncating raw bits to the known flags gives a set that is accepted as it
/// is: it has no unknown bit, and truncating it again changes nothing.
pub proof fn lemma_truncate_is_known(bits: u64, all: u64)
    ensures
        (bits & all) & !all == 0,
        (bits & all) & all == bits & all,
{
    assert((bits & all) & !all == 0 && (bits & all) & all == bits & all) by (bit_vector);
}

/// A set contains another exactly when the other adds nothing to it.
pub proof fn lemma_contains_iff_union_unchanged(a: u64, b: u64)
    ensures
        (a & b == b) <==> ((a | b) == a),
{
    assert((a & b == b) <==> ((a | b) == a)) by (bit_vector);
}

} // verus!
