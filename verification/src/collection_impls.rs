//! Policy-table entries for owning containers and contiguous views.
//!
//! A capacity-based container reports its whole backing allocation — the sum
//! of its elements' full sizes plus the slack of unoccupied capacity — since
//! that is its actual heap footprint. A contiguous view (slice or fixed-size
//! array) owns no allocation of its own and reports only its elements'
//! children. A doubly linked list has no slack but pays a fixed two-pointer
//! bookkeeping overhead per node.

use vstd::prelude::*;

use crate::Context;
use crate::DeepSizeOf;
use crate::SeenSets;
use crate::lemma_seen_le_transitive;
use crate::lemma_seq_policy_push;
use crate::sat_add_i;
use crate::sat_i;
use crate::sat_mul;
use crate::sat_mul_i;
use crate::seq_policy;

verus! {

/// Measures each element of a contiguous run in order against one shared
/// context, reporting the clamped sum of their owned-children sizes.
pub fn slice_children_size<T: DeepSizeOf>(items: &[T], context: &mut Context) -> (bytes: usize)
    ensures
        old(context)@.le(final(context)@),
        exists|total: int|
            #[trigger] seq_policy(items@, old(context)@, total, final(context)@)
            && 0 <= total
            && bytes as int == sat_i(total),
{
    let ghost seen0 = context@;
    let mut bytes: usize = 0;
    let ghost mut total: int = 0;
    let mut i: usize = 0;
    while i < items.len()
        invariant
            0 <= i <= items@.len(),
            seen0 == old(context)@,
            seq_policy(items@.subrange(0, i as int), seen0, total, context@),
            0 <= total,
            bytes as int == sat_i(total),
            seen0.le(context@),
        decreases items@.len() - i,
    {
        let child = &items[i];
        let ghost mid = context@;
        let child_bytes = child.deep_size_of_children(context);
        proof {
            lemma_seq_policy_push(
                items@.subrange(0, i as int),
                items@[i as int],
                seen0,
                total,
                mid,
                child_bytes as int,
                context@,
            );
            assert(items@.subrange(0, i as int).push(items@[i as int]) =~= items@.subrange(
                0,
                i + 1,
            ));
            lemma_seen_le_transitive(seen0, mid, context@);
            total = total + child_bytes as int;
        }
        bytes = bytes.saturating_add(child_bytes);
        i = i + 1;
    }
    proof {
        assert(items@.subrange(0, items@.len() as int) =~= items@);
    }
    bytes
}

/// A contiguous slice view contributes its elements' children; the view
/// itself owns no allocation beyond its own descriptor.
impl<T: DeepSizeOf> DeepSizeOf for [T] {
    open spec fn children_policy(&self, seen: SeenSets, bytes: int, out: SeenSets) -> bool {
        exists|total: int|
            #[trigger] seq_policy(self@, seen, total, out) && bytes == sat_i(total)
    }

    fn immediate_size(&self) -> (bytes: usize) {
        core::mem::size_of_val(self)
    }
    fn deep_size_of_children(&self, context: &mut Context) -> (bytes: usize) {
        slice_children_size(self, context)
    }
}

/// A fixed-size array contributes its elements' children; its own storage is
/// its immediate size, with no separate allocation.
impl<T: DeepSizeOf, const N: usize> DeepSizeOf for [T; N] {
    open spec fn children_policy(&self, seen: SeenSets, bytes: int, out: SeenSets) -> bool {
        exists|total: int|
            #[trigger] seq_policy(self@, seen, total, out) && bytes == sat_i(total)
    }

    open spec fn spec_immediate_size(&self) -> nat {
        vstd::layout::size_of::<[T; N]>()
    }

    fn immediate_size(&self) -> (bytes: usize) {
        core::mem::size_of::<[T; N]>()
    }
    fn deep_size_of_children(&self, context: &mut Context) -> (bytes: usize) {
        let items: &[T] = self.as_slice();
        slice_children_size(items, context)
    }
}

/// Relies on `Vec::capacity`: the number of elements the vector's backing
/// allocation can hold without reallocating, at least its length.
#[verifier::external_body]
fn vec_capacity<T>(items: &Vec<T>) -> (cap: usize)
    ensures
        cap >= items@.len(),
{
    items.capacity()
}

/// A growable contiguous array owns its whole backing buffer: the sum of its
/// elements' children plus one element's immediate size for every slot of its
/// allocated capacity, occupied or not. The capacity the allocator granted is
/// outside the model, so the policy bounds it below by the length.
impl<T: DeepSizeOf> DeepSizeOf for Vec<T> {
    open spec fn children_policy(&self, seen: SeenSets, bytes: int, out: SeenSets) -> bool {
        exists|total: int, cap: int|
            #[trigger] seq_policy(self@, seen, total, out)
            && self@.len() <= cap <= usize::MAX as int
            && bytes == sat_i(total + #[trigger] sat_mul_i(cap, vstd::layout::size_of::<T>() as int))
    }

    open spec fn spec_immediate_size(&self) -> nat {
        vstd::layout::size_of::<Vec<T>>()
    }

    fn immediate_size(&self) -> (bytes: usize) {
        core::mem::size_of::<Vec<T>>()
    }
    fn deep_size_of_children(&self, context: &mut Context) -> (bytes: usize) {
        let elements = slice_children_size(self.as_slice(), context);
        let slack = sat_mul(vec_capacity(self), core::mem::size_of::<T>());
        elements.saturating_add(slack)
    }
}

/// Relies on `VecDeque::capacity`: the number of elements the deque's backing
/// allocation can hold without reallocating, at least its length.
#[verifier::external_body]
fn vec_deque_capacity<T>(items: &std::collections::VecDeque<T>) -> (cap: usize)
    ensures
        cap >= items@.len(),
{
    items.capacity()
}

/// A double-ended growable array follows the same policy as a growable
/// contiguous array: elements' children plus the full allocated capacity.
impl<T: DeepSizeOf> DeepSizeOf for std::collections::VecDeque<T> {
    open spec fn children_policy(&self, seen: SeenSets, bytes: int, out: SeenSets) -> bool {
        exists|total: int, cap: int|
            #[trigger] seq_policy(self@, seen, total, out)
            && self@.len() <= cap <= usize::MAX as int
            && bytes == sat_i(total + #[trigger] sat_mul_i(cap, vstd::layout::size_of::<T>() as int))
    }

    open spec fn spec_immediate_size(&self) -> nat {
        vstd::layout::size_of::<std::collections::VecDeque<T>>()
    }

    fn immediate_size(&self) -> (bytes: usize) {
        core::mem::size_of::<std::collections::VecDeque<T>>()
    }
    fn deep_size_of_children(&self, context: &mut Context) -> (bytes: usize) {
        let ghost seen0 = context@;
        let mut elements: usize = 0;
        let ghost mut total: int = 0;
        let mut i: usize = 0;
        let length = self.len();
        while i < length
            invariant
                0 <= i <= self@.len(),
                length == self@.len(),
                seen0 == old(context)@,
                seq_policy(self@.subrange(0, i as int), seen0, total, context@),
                0 <= total,
                elements as int == sat_i(total),
                seen0.le(context@),
            decreases self@.len() - i,
        {
            let child = &self[i];
            let ghost mid = context@;
            let child_bytes = child.deep_size_of_children(context);
            proof {
                lemma_seq_policy_push(
                    self@.subrange(0, i as int),
                    self@[i as int],
                    seen0,
                    total,
                    mid,
                    child_bytes as int,
                    context@,
                );
                assert(self@.subrange(0, i as int).push(self@[i as int]) =~= self@.subrange(
                    0,
                    i + 1,
                ));
                lemma_seen_le_transitive(seen0, mid, context@);
                total = total + child_bytes as int;
            }
            elements = elements.saturating_add(child_bytes);
            i = i + 1;
        }
        proof {
            assert(self@.subrange(0, self@.len() as int) =~= self@);
        }
        let slack = sat_mul(vec_deque_capacity(self), core::mem::size_of::<T>());
        elements.saturating_add(slack)
    }
}

/// The owned-children size of a doubly linked list holding exactly these
/// elements, in this order: each element's immediate size and children, plus
/// a fixed bookkeeping overhead of two pointer widths per node for its
/// forward and backward links. The elements are passed as a contiguous run
/// because the verifier cannot look inside the standard linked list itself —
/// for the same reason the standard list gets no [`DeepSizeOf`]
/// implementation here, so a record holding one must measure that field
/// through this function rather than by a generated field sum.
pub fn linked_list_children_size<T: DeepSizeOf>(
    elements: &[T],
    context: &mut Context,
) -> (bytes: usize)
    ensures
        old(context)@.le(final(context)@),
        exists|total: int|
            #[trigger] seq_policy(elements@, old(context)@, total, final(context)@)
            && 0 <= total
            && bytes as int == sat_i(
                total + sat_mul_i(
                    elements@.len() as int,
                    sat_add_i(
                        vstd::layout::size_of::<T>() as int,
                        sat_add_i(
                            vstd::layout::size_of::<usize>() as int,
                            vstd::layout::size_of::<usize>() as int,
                        ),
                    ),
                ),
            ),
{
    let children = slice_children_size(elements, context);
    let pointer_width = core::mem::size_of::<usize>();
    let per_node = core::mem::size_of::<T>().saturating_add(
        pointer_width.saturating_add(pointer_width),
    );
    let overhead = sat_mul(elements.len(), per_node);
    children.saturating_add(overhead)
}

/// Whether the verifier's model of a hash table keyed by `K` and hashed by
/// `S`-built hashers is meaningful: the keys hash deterministically by value
/// and the build-hasher produces consistent hashers. vstd ties a map's or
/// set's view to the behavior of the real table only under these assumptions,
/// and so does this library: for other keys or hashers the policies promise
/// nothing.
pub open spec fn hash_table_modeled<K: ?Sized, S>() -> bool {
    vstd::std_specs::hash::obeys_key_model::<K>()
        && vstd::std_specs::hash::builds_valid_hashers::<S>()
}

/// A sequence of key-value pairs that enumerates a map: one pair per key of
/// the map's domain, each carrying that key's value.
pub open spec fn map_entries_wf<K, V>(m: Map<K, V>, entries: Seq<(K, V)>) -> bool {
    &&& entries.len() == m.dom().len()
    &&& forall|i: int|
        0 <= i < entries.len() ==> #[trigger] m.contains_key(entries[i].0) && entries[i].1
            == m[entries[i].0]
    &&& forall|i: int, j: int|
        0 <= i < j < entries.len() ==> (#[trigger] entries[i].0) != (#[trigger] entries[j].0)
}

/// Relies on `HashMap::iter`: it visits every entry of the map exactly once,
/// in some order. The claims hold only where the map's view models the real
/// table — keys that hash by value under consistent hashers; a dishonest
/// hash can put two equal keys in one map, so nothing is stated without the
/// guard.
#[verifier::external_body]
fn map_entries<'a, K, V, S>(map: &'a std::collections::HashMap<K, V, S>) -> (entries: Vec<
    (&'a K, &'a V),
>)
    ensures
        entries@.len() == (if hash_table_modeled::<K, S>() {
            map@.dom().len()
        } else {
            entries@.len()
        }),
        forall|i: int|
            0 <= i < entries@.len() ==> hash_table_modeled::<K, S>()
                ==> #[trigger] map@.contains_key(*entries@[i].0) && *entries@[i].1
                == map@[*entries@[i].0],
        forall|i: int, j: int|
            0 <= i < j < entries@.len() ==> hash_table_modeled::<K, S>()
                ==> *(#[trigger] entries@[i].0) != *(#[trigger] entries@[j].0),
{
    map.iter().collect()
}

/// Relies on `HashMap::capacity`: the number of entries the map can hold
/// without reallocating, at least the number it holds now. The entry count is
/// the view's domain size only where the view models the real table.
#[verifier::external_body]
fn map_capacity<K, V, S>(map: &std::collections::HashMap<K, V, S>) -> (cap: usize)
    ensures
        cap >= (if hash_table_modeled::<K, S>() {
            map@.dom().len()
        } else {
            0
        }),
{
    map.capacity()
}

/// A hash map owns its entries and its bucket allocation: the sum of every
/// key's and value's children, measured in the map's iteration order, plus
/// one bucket's worth of storage for every slot of its allocated capacity.
impl<K: DeepSizeOf + Eq + core::hash::Hash, V: DeepSizeOf, S: core::hash::BuildHasher> DeepSizeOf
    for std::collections::HashMap<K, V, S> {
    open spec fn children_policy(&self, seen: SeenSets, bytes: int, out: SeenSets) -> bool {
        hash_table_modeled::<K, S>() ==> exists|entries: Seq<(K, V)>, total: int, cap: int|
            #[trigger] map_entries_wf(self@, entries)
            && #[trigger] seq_policy(entries, seen, total, out)
            && self@.dom().len() <= cap <= usize::MAX as int
            && bytes == sat_i(
                total + #[trigger] sat_mul_i(
                    cap,
                    vstd::layout::size_of::<Option<(u64, K, V)>>() as int,
                ),
            )
    }

    open spec fn spec_immediate_size(&self) -> nat {
        vstd::layout::size_of::<std::collections::HashMap<K, V, S>>()
    }

    fn immediate_size(&self) -> (bytes: usize) {
        core::mem::size_of::<std::collections::HashMap<K, V, S>>()
    }
    fn deep_size_of_children(&self, context: &mut Context) -> (bytes: usize) {
        let entries = map_entries(self);
        let ghost seen0 = context@;
        let ghost pairs: Seq<(K, V)> = Seq::new(
            entries@.len(),
            |i: int| (*entries@[i].0, *entries@[i].1),
        );
        let mut element_bytes: usize = 0;
        let ghost mut total: int = 0;
        let mut i: usize = 0;
        while i < entries.len()
            invariant
                0 <= i <= entries@.len(),
                pairs.len() == entries@.len(),
                pairs == Seq::new(entries@.len(), |k: int| (*entries@[k].0, *entries@[k].1)),
                seen0 == old(context)@,
                seq_policy(pairs.subrange(0, i as int), seen0, total, context@),
                0 <= total,
                element_bytes as int == sat_i(total),
                seen0.le(context@),
            decreases entries@.len() - i,
        {
            let entry = &entries[i];
            let ghost before = context@;
            let key_bytes = K::deep_size_of_children(entry.0, context);
            let ghost mid = context@;
            let value_bytes = V::deep_size_of_children(entry.1, context);
            proof {
                assert(pairs[i as int] == (*entries@[i as int].0, *entries@[i as int].1));
                assert(pairs[i as int].0.children_policy(before, key_bytes as int, mid));
                assert(pairs[i as int].1.children_policy(mid, value_bytes as int, context@));
                assert(pairs[i as int].children_policy(
                    before,
                    sat_add_i(key_bytes as int, value_bytes as int),
                    context@,
                ));
                lemma_seq_policy_push(
                    pairs.subrange(0, i as int),
                    pairs[i as int],
                    seen0,
                    total,
                    before,
                    sat_add_i(key_bytes as int, value_bytes as int),
                    context@,
                );
                assert(pairs.subrange(0, i as int).push(pairs[i as int]) =~= pairs.subrange(
                    0,
                    i + 1,
                ));
                lemma_seen_le_transitive(before, mid, context@);
                lemma_seen_le_transitive(seen0, before, context@);
                total = total + sat_add_i(key_bytes as int, value_bytes as int);
            }
            element_bytes = element_bytes.saturating_add(key_bytes).saturating_add(value_bytes);
            i = i + 1;
        }
        proof {
            assert(pairs.subrange(0, pairs.len() as int) =~= pairs);
            if hash_table_modeled::<K, S>() {
                assert(map_entries_wf(self@, pairs));
            }
        }
        let slack = sat_mul(
            map_capacity(self),
            core::mem::size_of::<Option<(u64, K, V)>>(),
        );
        element_bytes.saturating_add(slack)
    }
}

/// A sequence that enumerates a set: each element of the set once.
pub open spec fn set_elements_wf<T>(s: Set<T>, elements: Seq<T>) -> bool {
    &&& elements.len() == s.len()
    &&& forall|i: int| 0 <= i < elements.len() ==> #[trigger] s.contains(elements[i])
    &&& forall|i: int, j: int|
        0 <= i < j < elements.len() ==> (#[trigger] elements[i]) != (#[trigger] elements[j])
}

/// Relies on `HashSet::iter`: it visits every element of the set exactly
/// once, in some order. The claims hold only where the set's view models the
/// real table — elements that hash by value under consistent hashers; a
/// dishonest hash can put two equal elements in one set, so nothing is stated
/// without the guard.
#[verifier::external_body]
fn set_elements<'a, T, S>(set: &'a std::collections::HashSet<T, S>) -> (elements: Vec<&'a T>)
    ensures
        elements@.len() == (if hash_table_modeled::<T, S>() {
            set@.len()
        } else {
            elements@.len()
        }),
        forall|i: int|
            0 <= i < elements@.len() ==> hash_table_modeled::<T, S>()
                ==> #[trigger] set@.contains(*elements@[i]),
        forall|i: int, j: int|
            0 <= i < j < elements@.len() ==> hash_table_modeled::<T, S>()
                ==> *(#[trigger] elements@[i]) != *(#[trigger] elements@[j]),
{
    set.iter().collect()
}

/// Relies on `HashSet::capacity`: the number of elements the set can hold
/// without reallocating, at least the number it holds now. The element count
/// is the view's size only where the view models the real table.
#[verifier::external_body]
fn set_capacity<T, S>(set: &std::collections::HashSet<T, S>) -> (cap: usize)
    ensures
        cap >= (if hash_table_modeled::<T, S>() {
            set@.len()
        } else {
            0
        }),
{
    set.capacity()
}

/// A hash set owns its elements and its bucket allocation: the sum of every
/// element's children, measured in the set's iteration order, plus one
/// bucket's worth of storage for every slot of its allocated capacity.
impl<T: DeepSizeOf + Eq + core::hash::Hash, S: core::hash::BuildHasher> DeepSizeOf
    for std::collections::HashSet<T, S> {
    open spec fn children_policy(&self, seen: SeenSets, bytes: int, out: SeenSets) -> bool {
        hash_table_modeled::<T, S>() ==> exists|elements: Seq<T>, total: int, cap: int|
            #[trigger] set_elements_wf(self@, elements)
            && #[trigger] seq_policy(elements, seen, total, out)
            && self@.len() <= cap <= usize::MAX as int
            && bytes == sat_i(
                total + #[trigger] sat_mul_i(
                    cap,
                    vstd::layout::size_of::<Option<(u64, T, ())>>() as int,
                ),
            )
    }

    open spec fn spec_immediate_size(&self) -> nat {
        vstd::layout::size_of::<std::collections::HashSet<T, S>>()
    }

    fn immediate_size(&self) -> (bytes: usize) {
        core::mem::size_of::<std::collections::HashSet<T, S>>()
    }
    fn deep_size_of_children(&self, context: &mut Context) -> (bytes: usize) {
        let elements = set_elements(self);
        let ghost seen0 = context@;
        let ghost items: Seq<T> = Seq::new(elements@.len(), |i: int| *elements@[i]);
        let mut element_bytes: usize = 0;
        let ghost mut total: int = 0;
        let mut i: usize = 0;
        while i < elements.len()
            invariant
                0 <= i <= elements@.len(),
                items.len() == elements@.len(),
                items == Seq::new(elements@.len(), |k: int| *elements@[k]),
                seen0 == old(context)@,
                seq_policy(items.subrange(0, i as int), seen0, total, context@),
                0 <= total,
                element_bytes as int == sat_i(total),
                seen0.le(context@),
            decreases elements@.len() - i,
        {
            let element = elements[i];
            let ghost before = context@;
            let child_bytes = T::deep_size_of_children(element, context);
            proof {
                assert(items[i as int] == *elements@[i as int]);
                assert(items[i as int].children_policy(before, child_bytes as int, context@));
                lemma_seq_policy_push(
                    items.subrange(0, i as int),
                    items[i as int],
                    seen0,
                    total,
                    before,
                    child_bytes as int,
                    context@,
                );
                assert(items.subrange(0, i as int).push(items[i as int]) =~= items.subrange(
                    0,
                    i + 1,
                ));
                lemma_seen_le_transitive(seen0, before, context@);
                total = total + child_bytes as int;
            }
            element_bytes = element_bytes.saturating_add(child_bytes);
            i = i + 1;
        }
        proof {
            assert(items.subrange(0, items.len() as int) =~= items);
            if hash_table_modeled::<T, S>() {
                assert(set_elements_wf(self@, items));
            }
        }
        let slack = sat_mul(
            set_capacity(self),
            core::mem::size_of::<Option<(u64, T, ())>>(),
        );
        element_bytes.saturating_add(slack)
    }
}

} // verus!
