//! The algebra of flag words.
//!
//! A caller picks some members of a family of flags, ORs them into one word
//! and hands the word across the boundary. The other side takes the word
//! apart again by testing it against each member. This module states when
//! that is lossless, and proves it.

use crate::types::c_int;
use vstd::prelude::*;

verus! {

/// `flag` has exactly one bit set, and it is not the sign bit.
pub open spec fn is_single_bit(flag: c_int) -> bool {
    flag > 0 && flag & ((flag - 1) as c_int) == 0
}

/// No member of `family` is zero, and no two of them share a bit.
pub open spec fn independent(family: Seq<c_int>) -> bool {
    &&& forall|i: int| 0 <= i < family.len() ==> (#[trigger] family[i]) != 0
    &&& forall|i: int, j: int|
        0 <= i < family.len() && 0 <= j < family.len() && i != j ==> (#[trigger] family[i]) & (
        #[trigger] family[j]) == 0
}

/// The word that stands for `chosen`: the bitwise OR of the members of
/// `family` that `chosen` holds, and zero if it holds none.
pub open spec fn combine(family: Seq<c_int>, chosen: Set<c_int>) -> c_int
    decreases family.len(),
{
    if family.len() == 0 {
        0
    } else if chosen.contains(family.last()) {
        combine(family.drop_last(), chosen) | family.last()
    } else {
        combine(family.drop_last(), chosen)
    }
}

/// The members of `family` that `word` carries.
pub open spec fn decompose(family: Seq<c_int>, word: c_int) -> Set<c_int> {
    Set::new(|flag: c_int| family.contains(flag) && word & flag == flag)
}

/// What testing one member against the word of the first `n` members gives:
/// the member itself if it is among them and was chosen, zero otherwise.
proof fn lemma_combine_prefix(family: Seq<c_int>, n: int, chosen: Set<c_int>, k: int)
    requires
        independent(family),
        0 <= n <= family.len(),
        0 <= k < family.len(),
    ensures
        combine(family.take(n), chosen) & family[k] == if k < n && chosen.contains(family[k]) {
            family[k]
        } else {
            0
        },
    decreases n,
{
    let flag = family[k];
    if n == 0 {
        assert(0 & flag == 0) by (bit_vector);
    } else {
        let last = family[n - 1];
        let rest = combine(family.take(n - 1), chosen);
        assert(family.take(n).drop_last() == family.take(n - 1));
        lemma_combine_prefix(family, n - 1, chosen, k);
        if chosen.contains(last) {
            if k == n - 1 {
                assert((rest | flag) & flag == flag) by (bit_vector);
            } else {
                assert(last & flag == 0);
                assert((rest | last) & flag == rest & flag) by (bit_vector)
                    requires
                        last & flag == 0,
                ;
            }
        }
    }
}

/// Testing one member of an independent family against a word built from the
/// family tells whether that member was chosen.
pub proof fn lemma_combine_carries(family: Seq<c_int>, chosen: Set<c_int>, k: int)
    requires
        independent(family),
        0 <= k < family.len(),
    ensures
        combine(family, chosen) & family[k] == family[k] <==> chosen.contains(family[k]),
{
    assert(family.take(family.len() as int) == family);
    lemma_combine_prefix(family, family.len() as int, chosen, k);
}

/// Round trip: for an independent family, taking apart the word that was
/// built from a choice of its members gives back that choice.
pub proof fn lemma_round_trip(family: Seq<c_int>, chosen: Set<c_int>)
    requires
        independent(family),
        forall|flag: c_int| chosen.contains(flag) ==> family.contains(flag),
    ensures
        decompose(family, combine(family, chosen)) == chosen,
{
    let word = combine(family, chosen);
    assert forall|flag: c_int| decompose(family, word).contains(flag) <==> chosen.contains(
        flag,
    ) by {
        if family.contains(flag) {
            let k = choose|k: int| 0 <= k < family.len() && family[k] == flag;
            lemma_combine_carries(family, chosen, k);
        }
    }
    assert(decompose(family, word) =~= chosen);
}

} // verus!
