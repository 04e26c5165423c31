//! A utility for recursively measuring the memory a value owns.
//!
//! The [`DeepSizeOf`] trait reports, for a value, an estimate of the total
//! memory it owns: its own immediate storage plus every heap allocation
//! reachable from it. Containers report their full allocated capacity, not
//! just the occupied part; shared (reference-counted) allocations and plain
//! borrows are counted once per measurement, however many paths reach them.
//! The estimate ignores allocator bookkeeping and fragmentation.
//!
//! Every size is a byte count in a `usize`. Sums that would exceed
//! `usize::MAX` are clamped to `usize::MAX`; a value that actually fits in
//! memory never comes near the clamp, so on real inputs every reported size
//! is exact with respect to the per-type policy.
//!
//! Each implementation of the trait carries its accounting policy as a
//! specification, [`DeepSizeOf::children_policy`], which relates the reported
//! owned-children size to the visited-identity state before and after the
//! call. The [`Context`] threads that state through one measurement.

use vstd::prelude::*;

mod collection_impls;
mod context;
mod default_impls;
mod generate;
mod laws;
mod model;
mod pointer_impls;

pub use context::Context;
pub use context::SeenSets;
pub use context::SetKind;
pub use context::lemma_seen_insert_le;
pub use context::lemma_seen_le_transitive;
pub use collection_impls::hash_table_modeled;
pub use collection_impls::linked_list_children_size;
pub use collection_impls::map_entries_wf;
pub use collection_impls::set_elements_wf;
pub use collection_impls::slice_children_size;
pub use default_impls::KnownDeepSize;
pub use default_impls::leaf_policy;
pub use generate::DataShape;
pub use generate::FieldRef;
pub use generate::FieldsShape;
pub use generate::GenerateError;
pub use generate::field_sum_plan;
pub use generate::plan_matches_shape;
pub use laws::lemma_box_total_wraps_pointee;
pub use laws::lemma_scalar_policy_is_zero;
pub use laws::lemma_scalar_total_is_fixed;
pub use laws::lemma_seq_policy_of_childless;
pub use laws::owns_nothing;
pub use laws::lemma_local_shared_counts_pointee_once_or_nothing;
pub use laws::lemma_shared_counts_pointee_once_or_nothing;
pub use laws::lemma_vec_children_count_capacity;
pub use model::Value;
pub use model::lemma_children_size_spec_grows;
pub use model::lemma_immediate_size_nonneg;
pub use model::lemma_aggregate_counts_target_once;
pub use model::lemma_pair_counts_target_once;
pub use model::lemma_record_children_is_field_sum;
pub use model::lemma_second_visit_is_free;
pub use model::lemma_visited_handles_are_free;
pub use model::lemma_seq_children_size_spec_grows;
pub use model::lemma_seq_children_size_spec_push;
pub use model::lemma_seq_immediate_size_nonneg;
pub use model::lemma_seq_immediate_size_spec_push;
pub use model::seq_children_size_spec;
pub use model::seq_immediate_size_spec;

verus! {

/// A byte count, clamped to the largest count a `usize` can hold. Every size
/// this library reports is exact until it would exceed `usize::MAX`, a total
/// no value that fits in memory reaches.
pub open spec fn sat_i(x: int) -> int {
    if x > usize::MAX as int {
        usize::MAX as int
    } else {
        x
    }
}

/// The sum `a + b`, clamped to the largest byte count a `usize` can hold.
pub open spec fn sat_add_i(a: int, b: int) -> int {
    if a + b > usize::MAX as int {
        usize::MAX as int
    } else {
        a + b
    }
}

/// The product `a * b`, clamped to the largest byte count a `usize` can hold.
pub open spec fn sat_mul_i(a: int, b: int) -> int {
    if a * b > usize::MAX as int {
        usize::MAX as int
    } else {
        a * b
    }
}

/// The product of two byte counts, clamped to `usize::MAX`.
pub fn sat_mul(a: usize, b: usize) -> (r: usize)
    ensures
        r as int == sat_mul_i(a as int, b as int),
{
    a.checked_mul(b).unwrap_or(usize::MAX)
}

/// The contract of a whole measurement: `bytes` is a value `deep_size_of`
/// may report for `value` — the value's immediate storage plus an
/// owned-children size its policy admits from a fresh context, clamped to
/// `usize::MAX`.
pub open spec fn measured_total<T: DeepSizeOf + ?Sized>(value: &T, bytes: usize) -> bool {
    exists|children: int, out: SeenSets|
        #[trigger] value.children_policy(SeenSets::empty(), children, out)
        && bytes as int == sat_add_i(value.spec_immediate_size() as int, children)
}

/// A trait for measuring the size of an object and its children.
///
/// In many cases this is just `core::mem::size_of::<T>()`, but if the value
/// owns heap allocations — through a growable container, a text buffer, a
/// unique box, or a shared allocation — then it is the size of the value
/// itself plus the size of everything it owns on the heap.
pub trait DeepSizeOf {
    /// The accounting policy of this type, as a relation: starting from the
    /// visited-identity state `seen`, reporting `bytes` as the owned-children
    /// size and leaving the visited sets in state `out` is an outcome this
    /// type's policy allows.
    ///
    /// For most types the relation pins `bytes` down exactly. It is a
    /// relation rather than a function because two things are outside the
    /// model: the capacity a container's allocator granted (only a lower
    /// bound is known), and the addresses used as identities of shared
    /// allocations (existentially quantified).
    ///
    /// Every implementation in this library overrides this with the type's
    /// exact policy. The default admits any outcome, so an implementation
    /// written outside the verifier participates in measurements while
    /// promising nothing.
    open spec fn children_policy(&self, seen: SeenSets, bytes: int, out: SeenSets) -> bool {
        true
    }

    /// The immediate (stack or inline) storage the policy accounts for a
    /// value of this type, in bytes. By default the value's own in-memory
    /// footprint; the built-in implementations for types whose layout the
    /// verifier knows pin it to the concrete size, so that their total sizes
    /// are concrete too.
    open spec fn spec_immediate_size(&self) -> nat {
        vstd::layout::spec_size_of_val(self)
    }

    /// Returns the size of the value's own storage, as if it were a field,
    /// independent of any context: `core::mem::size_of_val(self)` unless the
    /// policy pins a constant.
    fn immediate_size(&self) -> (bytes: usize)
        ensures
            bytes as nat == self.spec_immediate_size(),
    ;

    /// Returns an estimation of the heap-managed storage owned by this value,
    /// excluding the size of the value itself.
    ///
    /// Implementations must recurse with the *same* context for every nested
    /// call — never a fresh one — so sharing is detected across the whole
    /// call tree. A type that owns no heap memory must return 0. A type that
    /// owns further measurable values must count, for each of them, its
    /// immediate size plus its owned children.
    fn deep_size_of_children(&self, context: &mut Context) -> (bytes: usize)
        ensures
            old(context)@.le(final(context)@),
            self.children_policy(old(context)@, bytes as int, final(context)@),
    ;

    /// Returns an estimation of the total memory owned by this value: its own
    /// immediate storage plus all of its owned children. This is the entry
    /// point ordinary callers use; it always starts a fresh [`Context`].
    fn deep_size_of(&self) -> (bytes: usize)
        ensures
            exists|children: int, out: SeenSets|
                #[trigger] self.children_policy(SeenSets::empty(), children, out)
                && bytes as int == sat_add_i(self.spec_immediate_size() as int, children),
    {
        let own = self.immediate_size();
        let mut context = Context::new();
        let children = self.deep_size_of_children(&mut context);
        own.saturating_add(children)
    }

    /// Measures this value as a step of an ongoing traversal: its immediate
    /// size plus its owned children, counted against the given context. Kept
    /// for callers that combine several roots into one measurement; new code
    /// should prefer `core::mem::size_of_val` plus `deep_size_of_children`.
    fn recurse_deep_size_of(&self, context: &mut Context) -> (bytes: usize)
        ensures
            old(context)@.le(final(context)@),
            exists|children: int|
                #[trigger] self.children_policy(old(context)@, children, final(context)@)
                && bytes as int == sat_add_i(self.spec_immediate_size() as int, children),
    {
        let own = self.immediate_size();
        let children = self.deep_size_of_children(context);
        own.saturating_add(children)
    }
}

/// The accounting policy of a sequence of values, measured left to right with
/// one shared context: the empty sequence contributes 0 and leaves the
/// visited state unchanged; otherwise the first value contributes under the
/// incoming state and the rest continue from the state it leaves.
pub open spec fn seq_policy<T: DeepSizeOf>(
    items: Seq<T>,
    seen: SeenSets,
    total: int,
    out: SeenSets,
) -> bool
    decreases items.len(),
{
    if items.len() == 0 {
        total == 0 && out == seen
    } else {
        exists|first: int, mid: SeenSets|
            #[trigger] items[0].children_policy(seen, first, mid)
            && seq_policy(items.subrange(1, items.len() as int), mid, total - first, out)
    }
}

/// Extending a measured sequence by one more value extends its accounted
/// total by that value's contribution.
pub proof fn lemma_seq_policy_push<T: DeepSizeOf>(
    items: Seq<T>,
    item: T,
    seen: SeenSets,
    total: int,
    mid: SeenSets,
    last: int,
    out: SeenSets,
)
    requires
        seq_policy(items, seen, total, mid),
        item.children_policy(mid, last, out),
    ensures
        seq_policy(items.push(item), seen, total + last, out),
    decreases items.len(),
{
    if items.len() == 0 {
        assert(items.push(item)[0] == item);
        assert(items.push(item).subrange(1, 1) =~= Seq::<T>::empty());
        assert(seq_policy(items.push(item).subrange(1, 1), out, 0, out));
    } else {
        let (first, step) = choose|first: int, step: SeenSets|
            #[trigger] items[0].children_policy(seen, first, step)
            && seq_policy(items.subrange(1, items.len() as int), step, total - first, mid);
        lemma_seq_policy_push(
            items.subrange(1, items.len() as int),
            item,
            step,
            total - first,
            mid,
            last,
            out,
        );
        assert(items.subrange(1, items.len() as int).push(item)
            =~= items.push(item).subrange(1, items.push(item).len() as int));
        assert(items.push(item)[0] == items[0]);
    }
}

} // verus!
