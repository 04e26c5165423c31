//! Cross-cutting guarantees of the policy table, stated once and proved from
//! the contracts of the implementations they speak about.

use vstd::prelude::*;

use crate::DeepSizeOf;
use crate::SeenSets;
use crate::measured_total;
use crate::sat_add_i;
use crate::sat_i;
use crate::sat_mul_i;
use crate::seq_policy;

verus! {

broadcast use vstd::layout::layout_of_primitives;

/// A value whose accounting policy admits exactly one outcome: zero owned
/// bytes and an unchanged visited state. Every primitive scalar is such a
/// value, as is any aggregate of them.
pub open spec fn owns_nothing<T: DeepSizeOf>(value: T) -> bool {
    forall|seen: SeenSets, bytes: int, out: SeenSets|
        #[trigger] value.children_policy(seen, bytes, out) ==> bytes == 0 && out == seen
}

/// Law: for a primitive scalar value the accounting policy admits exactly one
/// outcome — zero owned bytes and an unchanged visited state — whatever the
/// value and whatever has been visited before it.
pub proof fn lemma_scalar_policy_is_zero(seen: SeenSets, bytes: int, out: SeenSets)
    ensures
        forall|x: bool| #[trigger] x.children_policy(seen, bytes, out) <==> bytes == 0 && out
            == seen,
        forall|x: char| #[trigger] x.children_policy(seen, bytes, out) <==> bytes == 0 && out
            == seen,
        forall|x: u8| #[trigger] x.children_policy(seen, bytes, out) <==> bytes == 0 && out
            == seen,
        forall|x: u16| #[trigger] x.children_policy(seen, bytes, out) <==> bytes == 0 && out
            == seen,
        forall|x: u32| #[trigger] x.children_policy(seen, bytes, out) <==> bytes == 0 && out
            == seen,
        forall|x: u64| #[trigger] x.children_policy(seen, bytes, out) <==> bytes == 0 && out
            == seen,
        forall|x: u128| #[trigger] x.children_policy(seen, bytes, out) <==> bytes == 0 && out
            == seen,
        forall|x: usize| #[trigger] x.children_policy(seen, bytes, out) <==> bytes == 0 && out
            == seen,
        forall|x: i8| #[trigger] x.children_policy(seen, bytes, out) <==> bytes == 0 && out
            == seen,
        forall|x: i16| #[trigger] x.children_policy(seen, bytes, out) <==> bytes == 0 && out
            == seen,
        forall|x: i32| #[trigger] x.children_policy(seen, bytes, out) <==> bytes == 0 && out
            == seen,
        forall|x: i64| #[trigger] x.children_policy(seen, bytes, out) <==> bytes == 0 && out
            == seen,
        forall|x: i128| #[trigger] x.children_policy(seen, bytes, out) <==> bytes == 0 && out
            == seen,
        forall|x: isize| #[trigger] x.children_policy(seen, bytes, out) <==> bytes == 0 && out
            == seen,
{
}

/// Law: a primitive scalar's total size is exactly its fixed immediate size —
/// an eight-byte integer measures eight bytes, a boolean one, a character
/// four — with owned children contributing nothing.
pub proof fn lemma_scalar_total_is_fixed()
    ensures
        forall|x: bool, total: usize| #[trigger] measured_total(&x, total) ==> total == 1,
        forall|x: char, total: usize| #[trigger] measured_total(&x, total) ==> total == 4,
        forall|x: u8, total: usize| #[trigger] measured_total(&x, total) ==> total == 1,
        forall|x: u16, total: usize| #[trigger] measured_total(&x, total) ==> total == 2,
        forall|x: u32, total: usize| #[trigger] measured_total(&x, total) ==> total == 4,
        forall|x: u64, total: usize| #[trigger] measured_total(&x, total) ==> total == 8,
        forall|x: u128, total: usize| #[trigger] measured_total(&x, total) ==> total == 16,
        forall|x: usize, total: usize| #[trigger] measured_total(&x, total) ==> total as nat
            == vstd::layout::size_of::<usize>(),
        forall|x: i8, total: usize| #[trigger] measured_total(&x, total) ==> total == 1,
        forall|x: i16, total: usize| #[trigger] measured_total(&x, total) ==> total == 2,
        forall|x: i32, total: usize| #[trigger] measured_total(&x, total) ==> total == 4,
        forall|x: i64, total: usize| #[trigger] measured_total(&x, total) ==> total == 8,
        forall|x: i128, total: usize| #[trigger] measured_total(&x, total) ==> total == 16,
        forall|x: isize, total: usize| #[trigger] measured_total(&x, total) ==> total as nat
            == vstd::layout::size_of::<isize>(),
{
}

/// Law: the total size of a unique heap box wrapping a childless value of
/// immediate size S is the box's own immediate size — one pointer width —
/// plus S: the boxed value's storage moves to the heap and is counted there,
/// and nothing else is.
pub proof fn lemma_box_total_wraps_pointee<T: DeepSizeOf>(b: Box<T>, total: usize)
    requires
        measured_total(&b, total),
        owns_nothing(*b),
    ensures
        total as int == sat_i(
            vstd::layout::size_of::<usize>() as int + (*b).spec_immediate_size() as int,
        ),
{
    let (children, out) = choose|children: int, out: SeenSets|
        #[trigger] b.children_policy(SeenSets::empty(), children, out)
        && total as int == sat_add_i(b.spec_immediate_size() as int, children);
    let inner = choose|inner: int|
        #[trigger] (*b).children_policy(SeenSets::empty(), inner, out)
        && children == sat_add_i((*b).spec_immediate_size() as int, inner);
}

/// Law: a shared reference-counted allocation contributes its pointee's full
/// size or nothing. On the first visit of its identity the pointee is counted
/// in full and the identity becomes visited; on a repeat visit nothing is
/// added and the visited state is unchanged — so within one measurement each
/// shared allocation is counted at most once. Which case applies is decided
/// by the allocation's address, which lives outside the model; the form of
/// this guarantee with explicit identities is
/// [`crate::lemma_pair_counts_target_once`].
pub proof fn lemma_shared_counts_pointee_once_or_nothing(
    shared: std::sync::Arc<u64>,
    seen: SeenSets,
    bytes: int,
    out: SeenSets,
)
    requires
        shared.children_policy(seen, bytes, out),
    ensures
        (bytes == 0 && out == seen) || (bytes == 8 && exists|id: usize|
            !(#[trigger] seen.arcs.contains(id)) && out == seen.insert(
                crate::SetKind::SharedAtomic,
                id,
            )),
{
    let id = choose|id: usize|
        (#[trigger] seen.arcs.contains(id) && bytes == 0 && out == seen) || (!seen.arcs.contains(
            id,
        ) && exists|inner: int|
            #[trigger] (*shared).children_policy(
                seen.insert(crate::SetKind::SharedAtomic, id),
                inner,
                out,
            ) && bytes == crate::sat_add_i((*shared).spec_immediate_size() as int, inner));
    if !seen.arcs.contains(id) {
        let inner = choose|inner: int|
            #[trigger] (*shared).children_policy(
                seen.insert(crate::SetKind::SharedAtomic, id),
                inner,
                out,
            ) && bytes == crate::sat_add_i((*shared).spec_immediate_size() as int, inner);
        assert(vstd::layout::size_of::<u64>() == 8);
        assert(bytes == 8 && out == seen.insert(crate::SetKind::SharedAtomic, id));
    }
}

/// Law: a single-threaded shared allocation gives the same guarantee as its
/// atomic counterpart: its pointee's full size on the first visit of its
/// identity, nothing on a repeat visit.
pub proof fn lemma_local_shared_counts_pointee_once_or_nothing(
    shared: std::rc::Rc<u64>,
    seen: SeenSets,
    bytes: int,
    out: SeenSets,
)
    requires
        shared.children_policy(seen, bytes, out),
    ensures
        (bytes == 0 && out == seen) || (bytes == 8 && exists|id: usize|
            !(#[trigger] seen.rcs.contains(id)) && out == seen.insert(
                crate::SetKind::SharedLocal,
                id,
            )),
{
    let id = choose|id: usize|
        (#[trigger] seen.rcs.contains(id) && bytes == 0 && out == seen) || (!seen.rcs.contains(
            id,
        ) && exists|inner: int|
            #[trigger] (*shared).children_policy(
                seen.insert(crate::SetKind::SharedLocal, id),
                inner,
                out,
            ) && bytes == crate::sat_add_i((*shared).spec_immediate_size() as int, inner));
    if !seen.rcs.contains(id) {
        let inner = choose|inner: int|
            #[trigger] (*shared).children_policy(
                seen.insert(crate::SetKind::SharedLocal, id),
                inner,
                out,
            ) && bytes == crate::sat_add_i((*shared).spec_immediate_size() as int, inner);
        assert(vstd::layout::size_of::<u64>() == 8);
        assert(bytes == 8 && out == seen.insert(crate::SetKind::SharedLocal, id));
    }
}

/// Measuring a run of childless values owns nothing: the accounted total is
/// zero and the visited state is unchanged, whatever the run's length.
pub proof fn lemma_seq_policy_of_childless<T: DeepSizeOf>(
    items: Seq<T>,
    seen: SeenSets,
    total: int,
    out: SeenSets,
)
    requires
        seq_policy(items, seen, total, out),
        forall|i: int| 0 <= i < items.len() ==> owns_nothing(#[trigger] items[i]),
    ensures
        total == 0,
        out == seen,
    decreases items.len(),
{
    if items.len() > 0 {
        let (first, mid) = choose|first: int, mid: SeenSets|
            #[trigger] items[0].children_policy(seen, first, mid)
            && seq_policy(items.subrange(1, items.len() as int), mid, total - first, out);
        let rest = items.subrange(1, items.len() as int);
        assert(forall|i: int| 0 <= i < rest.len() ==> owns_nothing(#[trigger] rest[i]));
        lemma_seq_policy_of_childless(rest, mid, total - first, out);
    }
}

/// Law: a growable array of childless elements accounts its full backing
/// allocation — its allocated capacity times the element size, the occupied
/// part plus the slack of unoccupied slots — never just its length, and the
/// traversal leaves the visited state untouched.
pub proof fn lemma_vec_children_count_capacity<T: DeepSizeOf>(
    items: Vec<T>,
    seen: SeenSets,
    bytes: int,
    out: SeenSets,
)
    requires
        items.children_policy(seen, bytes, out),
        forall|i: int| 0 <= i < items@.len() ==> owns_nothing(#[trigger] items@[i]),
    ensures
        out == seen,
        exists|cap: int|
            items@.len() <= cap <= usize::MAX as int && bytes == #[trigger] sat_mul_i(
                cap,
                vstd::layout::size_of::<T>() as int,
            ) && bytes == sat_i(
                items@.len() * vstd::layout::size_of::<T>() as int + (cap - items@.len())
                    * vstd::layout::size_of::<T>() as int,
            ),
{
    let (total, cap) = choose|total: int, cap: int|
        #[trigger] seq_policy(items@, seen, total, out)
        && items@.len() <= cap <= usize::MAX as int
        && bytes == sat_i(total + #[trigger] sat_mul_i(cap, vstd::layout::size_of::<T>() as int));
    lemma_seq_policy_of_childless(items@, seen, total, out);
    assert(cap * vstd::layout::size_of::<T>() as int == items@.len() * vstd::layout::size_of::<
        T,
    >() as int + (cap - items@.len()) * vstd::layout::size_of::<T>() as int) by (nonlinear_arith);
    assert(bytes == sat_mul_i(cap, vstd::layout::size_of::<T>() as int));
}

} // verus!
