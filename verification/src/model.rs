//! An explicit model of a measured value's ownership graph.
//!
//! The pointer types of the policy table identify a shared allocation by its
//! address, which lives outside the verifier's model of a value. This module
//! gives the same accounting engine a form in which the identities are plain
//! data: a [`Value`] describes a value's ownership structure — scalars,
//! unique boxes, identity-tracked pointers, records — and measuring it runs
//! the same traversal-context discipline with every identity visible. On this
//! form the engine's central guarantees are theorems: an allocation counted
//! against its identity contributes its full size exactly once per
//! measurement, however many paths of the graph reach it.

use vstd::prelude::*;

use crate::Context;
use crate::SeenSets;
use crate::SetKind;
use crate::lemma_seen_le_transitive;
use crate::sat_i;

verus! {

/// The ownership shape of a measured value, with every identity explicit.
#[derive(Debug)]
pub enum Value {
    /// A primitive scalar: a given immediate size and no owned children.
    Scalar {
        /// The scalar's immediate size in bytes.
        size: usize,
    },
    /// A unique heap box: one pointer width of immediate storage, owning its
    /// pointee in full.
    Unique {
        /// The boxed value.
        pointee: Box<Value>,
    },
    /// A pointer whose target is counted at most once per measurement: a
    /// shared reference-counted allocation (atomic or single-threaded) or a
    /// borrowed reference, by its identity space. One pointer width of
    /// immediate storage; the target's full size on the first visit of
    /// `id` in that space, nothing on later visits.
    Aliased {
        /// The identity space the target is tracked in.
        kind: SetKind,
        /// The target's identity: in the portable model an explicit key,
        /// standing for the allocation's address.
        id: usize,
        /// The pointed-to value.
        pointee: Box<Value>,
    },
    /// A fixed-arity record: its components stored inline, measured left to
    /// right against one shared context.
    Record {
        /// The record's components.
        fields: Vec<Value>,
    },
}

impl Value {
    /// The immediate (inline) storage of a modeled value, in bytes: what the
    /// value occupies before any heap allocation it owns. A record's storage
    /// is the sum of its components' storage; the model does not add padding.
    pub open spec fn immediate_size_spec(self) -> int
        decreases self,
    {
        match self {
            Value::Scalar { size } => size as int,
            Value::Unique { .. } => vstd::layout::size_of::<usize>() as int,
            Value::Aliased { .. } => vstd::layout::size_of::<usize>() as int,
            Value::Record { fields } => seq_immediate_size_spec(fields@),
        }
    }

    /// The owned-children size of a modeled value and the visited state it
    /// leaves, starting from the visited state `seen`: the policy table of
    /// the library, written as one function because every identity is data.
    pub open spec fn children_size_spec(self, seen: SeenSets) -> (int, SeenSets)
        decreases self,
    {
        match self {
            Value::Scalar { .. } => (0, seen),
            Value::Unique { pointee } => {
                let (children, out) = pointee.children_size_spec(seen);
                (pointee.immediate_size_spec() + children, out)
            },
            Value::Aliased { kind, id, pointee } => {
                if seen.contains(kind, id) {
                    (0, seen)
                } else {
                    let marked = seen.insert(kind, id);
                    let (children, out) = pointee.children_size_spec(marked);
                    (pointee.immediate_size_spec() + children, out)
                }
            },
            Value::Record { fields } => seq_children_size_spec(fields@, seen),
        }
    }

    /// The full size of a modeled value under a given visited state: its
    /// immediate storage plus its owned children.
    pub open spec fn full_size_spec(self, seen: SeenSets) -> (int, SeenSets) {
        let (children, out) = self.children_size_spec(seen);
        (self.immediate_size_spec() + children, out)
    }
}

/// The summed immediate storage of a run of modeled values.
pub open spec fn seq_immediate_size_spec(values: Seq<Value>) -> int
    decreases values,
{
    if values.len() == 0 {
        0
    } else {
        values[0].immediate_size_spec() + seq_immediate_size_spec(
            values.subrange(1, values.len() as int),
        )
    }
}

/// The owned-children size of a run of modeled values measured left to right
/// with one shared visited state, and the state they leave.
pub open spec fn seq_children_size_spec(values: Seq<Value>, seen: SeenSets) -> (int, SeenSets)
    decreases values,
{
    if values.len() == 0 {
        (0, seen)
    } else {
        let (first, mid) = values[0].children_size_spec(seen);
        let (rest, out) = seq_children_size_spec(values.subrange(1, values.len() as int), mid);
        (first + rest, out)
    }
}

/// A modeled value's immediate storage is never negative.
pub proof fn lemma_immediate_size_nonneg(value: Value)
    ensures
        value.immediate_size_spec() >= 0,
    decreases value,
{
    match value {
        Value::Record { fields } => {
            lemma_seq_immediate_size_nonneg(fields@);
        },
        _ => {},
    }
}

/// The summed immediate storage of a run of modeled values is never negative.
pub proof fn lemma_seq_immediate_size_nonneg(values: Seq<Value>)
    ensures
        seq_immediate_size_spec(values) >= 0,
    decreases values,
{
    if values.len() > 0 {
        lemma_immediate_size_nonneg(values[0]);
        lemma_seq_immediate_size_nonneg(values.subrange(1, values.len() as int));
    }
}

/// A modeled value's owned-children size is never negative, and measuring it
/// only grows the visited state.
pub proof fn lemma_children_size_spec_grows(value: Value, seen: SeenSets)
    ensures
        value.children_size_spec(seen).0 >= 0,
        seen.le(value.children_size_spec(seen).1),
    decreases value,
{
    match value {
        Value::Scalar { .. } => {},
        Value::Unique { pointee } => {
            lemma_immediate_size_nonneg(*pointee);
            lemma_children_size_spec_grows(*pointee, seen);
        },
        Value::Aliased { kind, id, pointee } => {
            if !seen.contains(kind, id) {
                let marked = seen.insert(kind, id);
                lemma_immediate_size_nonneg(*pointee);
                lemma_children_size_spec_grows(*pointee, marked);
                crate::lemma_seen_insert_le(seen, kind, id);
                lemma_seen_le_transitive(seen, marked, pointee.children_size_spec(marked).1);
            }
        },
        Value::Record { fields } => {
            lemma_seq_children_size_spec_grows(fields@, seen);
        },
    }
}

/// The owned-children size of a run of modeled values is never negative, and
/// measuring the run only grows the visited state.
pub proof fn lemma_seq_children_size_spec_grows(values: Seq<Value>, seen: SeenSets)
    ensures
        seq_children_size_spec(values, seen).0 >= 0,
        seen.le(seq_children_size_spec(values, seen).1),
    decreases values,
{
    if values.len() > 0 {
        let (first, mid) = values[0].children_size_spec(seen);
        lemma_children_size_spec_grows(values[0], seen);
        lemma_seq_children_size_spec_grows(values.subrange(1, values.len() as int), mid);
        lemma_seen_le_transitive(
            seen,
            mid,
            seq_children_size_spec(values.subrange(1, values.len() as int), mid).1,
        );
    }
}

/// Measuring a run of modeled values and then one more value accounts the
/// appended value's contribution under the state the run leaves.
pub proof fn lemma_seq_children_size_spec_push(values: Seq<Value>, value: Value, seen: SeenSets)
    ensures
        ({
            let (front, mid) = seq_children_size_spec(values, seen);
            let (last, out) = value.children_size_spec(mid);
            seq_children_size_spec(values.push(value), seen) == (front + last, out)
        }),
    decreases values,
{
    let pushed = values.push(value);
    if values.len() == 0 {
        let (last, out) = value.children_size_spec(seen);
        assert(pushed[0] == value);
        assert(pushed.subrange(1, 1) =~= Seq::<Value>::empty());
        assert(seq_children_size_spec(pushed.subrange(1, 1), out) == (0int, out));
        assert(seq_children_size_spec(pushed, seen) == (last + 0, out));
    } else {
        let (first, mid0) = values[0].children_size_spec(seen);
        lemma_seq_children_size_spec_push(
            values.subrange(1, values.len() as int),
            value,
            mid0,
        );
        assert(values.subrange(1, values.len() as int).push(value) =~= pushed.subrange(
            1,
            pushed.len() as int,
        ));
        assert(pushed[0] == values[0]);
        let (front_rest, mid_rest) = seq_children_size_spec(
            values.subrange(1, values.len() as int),
            mid0,
        );
        let (last, out) = value.children_size_spec(mid_rest);
        assert(seq_children_size_spec(pushed.subrange(1, pushed.len() as int), mid0) == (
            front_rest + last,
            out,
        ));
        assert(seq_children_size_spec(pushed, seen) == (first + (front_rest + last), out));
        assert(seq_children_size_spec(values, seen) == (first + front_rest, mid_rest));
    }
}

/// The summed immediate storage of a run grows by the appended value's
/// immediate storage.
pub proof fn lemma_seq_immediate_size_spec_push(values: Seq<Value>, value: Value)
    ensures
        seq_immediate_size_spec(values.push(value)) == seq_immediate_size_spec(values)
            + value.immediate_size_spec(),
    decreases values,
{
    let pushed = values.push(value);
    if values.len() == 0 {
        assert(pushed[0] == value);
        assert(pushed.subrange(1, 1) =~= Seq::<Value>::empty());
        assert(seq_immediate_size_spec(pushed.subrange(1, 1)) == 0);
        assert(seq_immediate_size_spec(pushed) == value.immediate_size_spec() + 0);
    } else {
        lemma_seq_immediate_size_spec_push(values.subrange(1, values.len() as int), value);
        assert(values.subrange(1, values.len() as int).push(value) =~= pushed.subrange(
            1,
            pushed.len() as int,
        ));
        assert(pushed[0] == values[0]);
        assert(seq_immediate_size_spec(pushed) == values[0].immediate_size_spec()
            + seq_immediate_size_spec(pushed.subrange(1, pushed.len() as int)));
        assert(seq_immediate_size_spec(values) == values[0].immediate_size_spec()
            + seq_immediate_size_spec(values.subrange(1, values.len() as int)));
    }
}

impl Value {
    /// The immediate (inline) storage of this modeled value, in bytes,
    /// clamped to `usize::MAX`.
    #[verifier::loop_isolation(false)]
    pub fn immediate_size(&self) -> (bytes: usize)
        ensures
            bytes as int == sat_i(self.immediate_size_spec()),
        decreases *self,
    {
        match self {
            Value::Scalar { size } => *size,
            Value::Unique { .. } => core::mem::size_of::<usize>(),
            Value::Aliased { .. } => core::mem::size_of::<usize>(),
            Value::Record { fields } => {
                let mut bytes: usize = 0;
                let mut i: usize = 0;
                proof {
                    assert(fields@.subrange(0, 0) =~= Seq::<Value>::empty());
                }
                while i < fields.len()
                    invariant
                        0 <= i <= fields@.len(),
                        bytes as int == sat_i(seq_immediate_size_spec(fields@.subrange(0, i as int))),
                        seq_immediate_size_spec(fields@.subrange(0, i as int)) >= 0,
                    decreases fields@.len() - i,
                {
                    proof {
                        assert(*fields == (*self)->fields);
                        assert(decreases_to!(*self => (*self)->fields));
                        assert(decreases_to!((*self)->fields => (*self)->fields@[i as int]));
                    }
                    let field_bytes = fields[i].immediate_size();
                    proof {
                        lemma_seq_immediate_size_spec_push(
                            fields@.subrange(0, i as int),
                            fields@[i as int],
                        );
                        assert(fields@.subrange(0, i as int).push(fields@[i as int])
                            =~= fields@.subrange(0, i + 1));
                        lemma_immediate_size_nonneg(fields@[i as int]);
                        lemma_seq_immediate_size_nonneg(fields@.subrange(0, i as int));
                    }
                    bytes = bytes.saturating_add(field_bytes);
                    i = i + 1;
                }
                proof {
                    assert(fields@.subrange(0, fields@.len() as int) =~= fields@);
                }
                bytes
            },
        }
    }

    /// The owned-children size of this modeled value, in bytes, clamped to
    /// `usize::MAX`: the policy table run over the explicit graph, marking
    /// every tracked identity in the given context.
    #[verifier::loop_isolation(false)]
    pub fn owned_children_size(&self, context: &mut Context) -> (bytes: usize)
        ensures
            old(context)@.le(final(context)@),
            final(context)@ == self.children_size_spec(old(context)@).1,
            bytes as int == sat_i(self.children_size_spec(old(context)@).0),
        decreases *self,
    {
        match self {
            Value::Scalar { .. } => 0,
            Value::Unique { pointee } => {
                let own = pointee.immediate_size();
                let children = pointee.owned_children_size(context);
                proof {
                    lemma_immediate_size_nonneg(**pointee);
                    lemma_children_size_spec_grows(**pointee, old(context)@);
                }
                own.saturating_add(children)
            },
            Value::Aliased { kind, id, pointee } => {
                if context.mark_and_check(*kind, *id) {
                    proof {
                        assert(context@ =~= old(context)@);
                    }
                    0
                } else {
                    let ghost marked = context@;
                    let own = pointee.immediate_size();
                    let children = pointee.owned_children_size(context);
                    proof {
                        lemma_immediate_size_nonneg(**pointee);
                        lemma_children_size_spec_grows(**pointee, marked);
                        crate::lemma_seen_insert_le(old(context)@, *kind, *id);
                        lemma_seen_le_transitive(old(context)@, marked, context@);
                    }
                    own.saturating_add(children)
                }
            },
            Value::Record { fields } => {
                let ghost seen0 = context@;
                let mut bytes: usize = 0;
                let mut i: usize = 0;
                proof {
                    assert(fields@.subrange(0, 0) =~= Seq::<Value>::empty());
                }
                while i < fields.len()
                    invariant
                        0 <= i <= fields@.len(),
                        seen0 == old(context)@,
                        seq_children_size_spec(fields@.subrange(0, i as int), seen0).1 == context@,
                        bytes as int == sat_i(
                            seq_children_size_spec(fields@.subrange(0, i as int), seen0).0,
                        ),
                        seen0.le(context@),
                    decreases fields@.len() - i,
                {
                    proof {
                        assert(*fields == (*self)->fields);
                        assert(decreases_to!(*self => (*self)->fields));
                        assert(decreases_to!((*self)->fields => (*self)->fields@[i as int]));
                    }
                    let field_bytes = fields[i].owned_children_size(context);
                    proof {
                        lemma_seq_children_size_spec_push(
                            fields@.subrange(0, i as int),
                            fields@[i as int],
                            seen0,
                        );
                        assert(fields@.subrange(0, i as int).push(fields@[i as int])
                            =~= fields@.subrange(0, i + 1));
                        lemma_seq_children_size_spec_grows(fields@.subrange(0, i as int), seen0);
                        lemma_children_size_spec_grows(
                            fields@[i as int],
                            seq_children_size_spec(fields@.subrange(0, i as int), seen0).1,
                        );
                        lemma_seen_le_transitive(
                            seen0,
                            seq_children_size_spec(fields@.subrange(0, i as int), seen0).1,
                            context@,
                        );
                    }
                    bytes = bytes.saturating_add(field_bytes);
                    i = i + 1;
                }
                proof {
                    assert(fields@.subrange(0, fields@.len() as int) =~= fields@);
                }
                bytes
            },
        }
    }

    /// The total size of this modeled value, in bytes, clamped to
    /// `usize::MAX`: its immediate storage plus all of its owned children,
    /// measured against a fresh context.
    pub fn total_size(&self) -> (bytes: usize)
        ensures
            bytes as int == sat_i(self.full_size_spec(SeenSets::empty()).0),
    {
        let own = self.immediate_size();
        let mut context = Context::new();
        let children = self.owned_children_size(&mut context);
        proof {
            lemma_immediate_size_nonneg(*self);
            lemma_children_size_spec_grows(*self, SeenSets::empty());
        }
        own.saturating_add(children)
    }
}

/// An identity already visited contributes nothing more: a later reach of the
/// same tracked allocation adds 0 bytes and leaves the visited state as it
/// was, whatever the pointee.
pub proof fn lemma_second_visit_is_free(kind: SetKind, id: usize, pointee: Box<Value>, seen: SeenSets)
    requires
        seen.contains(kind, id),
    ensures
        (Value::Aliased { kind, id, pointee }).children_size_spec(seen) == (0int, seen),
{
}

/// Once an identity is visited, a run of pointers to it adds nothing: every
/// handle in the run contributes 0 bytes and leaves the visited state as it
/// was.
pub proof fn lemma_visited_handles_are_free(
    values: Seq<Value>,
    kind: SetKind,
    id: usize,
    pointee: Box<Value>,
    seen: SeenSets,
)
    requires
        seen.contains(kind, id),
        forall|i: int|
            0 <= i < values.len() ==> values[i] == (Value::Aliased { kind, id, pointee }),
    ensures
        seq_children_size_spec(values, seen) == (0int, seen),
    decreases values,
{
    if values.len() > 0 {
        lemma_second_visit_is_free(kind, id, pointee, seen);
        let rest = values.subrange(1, values.len() as int);
        assert(forall|i: int|
            0 <= i < rest.len() ==> rest[i] == (Value::Aliased { kind, id, pointee }));
        lemma_visited_handles_are_free(rest, kind, id, pointee, seen);
    }
}

/// A shared allocation reached any number of times from one aggregate
/// contributes its full size exactly once: a record holding nothing but
/// pointers to one tracked identity accounts the pointee on the first reach,
/// and every further reach adds only its own pointer width — the aggregate's
/// owned-children size equals a single handle's, however many handles it
/// holds. For the shared-ownership kinds this is the reference-counted
/// dedup guarantee; for the borrowed kind it is the aliasing guarantee.
pub proof fn lemma_aggregate_counts_target_once(
    aggregate: Value,
    kind: SetKind,
    id: usize,
    pointee: Box<Value>,
    seen: SeenSets,
)
    requires
        !seen.contains(kind, id),
        aggregate matches Value::Record { fields } && fields@.len() >= 1 && (forall|i: int|
            0 <= i < fields@.len() ==> fields@[i] == (Value::Aliased { kind, id, pointee })),
    ensures
        aggregate.children_size_spec(seen).0 == (Value::Aliased {
            kind,
            id,
            pointee,
        }).children_size_spec(seen).0,
{
    let handle = Value::Aliased { kind, id, pointee };
    let s = aggregate->fields@;
    let marked = seen.insert(kind, id);
    crate::lemma_seen_insert_le(seen, kind, id);
    lemma_children_size_spec_grows(*pointee, marked);
    let (inner, out) = pointee.children_size_spec(marked);
    assert(marked.contains(kind, id));
    assert(out.contains(kind, id));
    let rest = s.subrange(1, s.len() as int);
    assert(forall|i: int| 0 <= i < rest.len() ==> rest[i] == handle);
    lemma_visited_handles_are_free(rest, kind, id, pointee, out);
    assert(s[0] == handle);
    assert(handle.children_size_spec(seen) == (pointee.immediate_size_spec() + inner, out));
    assert(seq_children_size_spec(s, seen).0 == pointee.immediate_size_spec() + inner + 0);
}

/// Law: a record's owned-children size is exactly the field-by-field sum a
/// hand-written implementation computes — its fields measured left to right
/// against one shared visited state, and nothing besides.
pub proof fn lemma_record_children_is_field_sum(record: Value, seen: SeenSets)
    requires
        record is Record,
    ensures
        record.children_size_spec(seen) == seq_children_size_spec(record->fields@, seen),
{
}

/// A shared allocation referenced twice from one aggregate contributes its
/// full size exactly once: a record holding two pointers to the same tracked
/// identity accounts the pointee once, on the first reach, and the second
/// pointer adds only its own pointer width. For the shared-ownership kinds
/// this is the reference-counted dedup guarantee; for the borrowed kind it is
/// the aliasing guarantee that two references to one target count it once.
pub proof fn lemma_pair_counts_target_once(
    aggregate: Value,
    kind: SetKind,
    id: usize,
    pointee: Box<Value>,
    seen: SeenSets,
)
    requires
        !seen.contains(kind, id),
        aggregate matches Value::Record { fields } && fields@ =~= seq![
            Value::Aliased { kind, id, pointee },
            Value::Aliased { kind, id, pointee },
        ],
    ensures
        aggregate.children_size_spec(seen).0 == (Value::Aliased {
            kind,
            id,
            pointee,
        }).children_size_spec(seen).0,
        aggregate.full_size_spec(seen).0 == 2 * vstd::layout::size_of::<usize>()
            + pointee.full_size_spec(seen.insert(kind, id)).0,
{
    let handle = Value::Aliased { kind, id, pointee };
    let s = aggregate->fields@;
    let marked = seen.insert(kind, id);
    crate::lemma_seen_insert_le(seen, kind, id);
    lemma_children_size_spec_grows(*pointee, marked);
    let (inner, out) = pointee.children_size_spec(marked);
    assert(handle.children_size_spec(seen) == (pointee.immediate_size_spec() + inner, out));
    assert(marked.contains(kind, id));
    assert(out.contains(kind, id));
    lemma_second_visit_is_free(kind, id, pointee, out);

    let tail = s.subrange(1, 2);
    assert(s[0] == handle);
    assert(tail[0] == handle);
    assert(tail.subrange(1, 1) =~= Seq::<Value>::empty());
    assert(seq_children_size_spec(tail.subrange(1, 1), out) == (0int, out));
    assert(handle.children_size_spec(out) == (0int, out));
    assert(seq_children_size_spec(tail, out) == (0int, out));
    assert(seq_children_size_spec(s, seen) == (pointee.immediate_size_spec() + inner, out));

    assert(seq_immediate_size_spec(tail.subrange(1, 1)) == 0);
    assert(seq_immediate_size_spec(tail) == handle.immediate_size_spec());
    assert(seq_immediate_size_spec(s) == 2 * vstd::layout::size_of::<usize>());
    assert(aggregate.immediate_size_spec() == 2 * vstd::layout::size_of::<usize>());
    assert(aggregate.children_size_spec(seen).0 == pointee.immediate_size_spec() + inner);
}

} // verus!
