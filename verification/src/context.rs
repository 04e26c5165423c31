//! The traversal context: the per-measurement record of which shared
//! allocations and borrowed referents have already been counted.
//!
//! A `Context` is created at the start of one top-level measurement, threaded
//! by exclusive ownership through every recursive step, and discarded when the
//! measurement returns. Its visited sets only ever grow, and an identity is
//! inserted at most once, so a shared allocation reachable along several
//! ownership paths contributes its size to at most one of them.

use std::collections::HashSet;
use vstd::prelude::*;

verus! {

broadcast use vstd::std_specs::hash::group_hash_axioms;

/// The identity space an identity belongs to. A shared allocation and a plain
/// borrow at the same address (impossible in practice, but defended against)
/// must not be conflated, so each pointer kind gets a set of its own.
#[derive(Clone, Copy, Debug)]
pub enum SetKind {
    /// Atomically reference-counted shared allocations.
    SharedAtomic,
    /// Single-threaded reference-counted shared allocations.
    SharedLocal,
    /// Targets of plain, non-owning references.
    Borrowed,
}

/// The mathematical model of a [`Context`]: the three sets of identities that
/// have already been visited during the current measurement.
#[verifier::ext_equal]
pub ghost struct SeenSets {
    /// Identities of visited atomically reference-counted allocations.
    pub arcs: Set<usize>,
    /// Identities of visited single-threaded reference-counted allocations.
    pub rcs: Set<usize>,
    /// Identities of visited borrowed-reference targets.
    pub refs: Set<usize>,
}

impl SeenSets {
    /// The state at the start of a measurement: nothing visited yet.
    pub open spec fn empty() -> SeenSets {
        SeenSets { arcs: Set::empty(), rcs: Set::empty(), refs: Set::empty() }
    }

    /// Whether `id` has been visited in the identity space `kind`.
    pub open spec fn contains(self, kind: SetKind, id: usize) -> bool {
        match kind {
            SetKind::SharedAtomic => self.arcs.contains(id),
            SetKind::SharedLocal => self.rcs.contains(id),
            SetKind::Borrowed => self.refs.contains(id),
        }
    }

    /// The state after visiting `id` in the identity space `kind`.
    pub open spec fn insert(self, kind: SetKind, id: usize) -> SeenSets {
        match kind {
            SetKind::SharedAtomic => SeenSets { arcs: self.arcs.insert(id), ..self },
            SetKind::SharedLocal => SeenSets { rcs: self.rcs.insert(id), ..self },
            SetKind::Borrowed => SeenSets { refs: self.refs.insert(id), ..self },
        }
    }

    /// `self` records no more visits than `other`. Every step of a traversal
    /// takes the visited sets from a state to one at least as large.
    pub open spec fn le(self, other: SeenSets) -> bool {
        &&& self.arcs.subset_of(other.arcs)
        &&& self.rcs.subset_of(other.rcs)
        &&& self.refs.subset_of(other.refs)
    }
}

/// Growth of the visited sets is transitive, so a chain of recursive
/// measurement steps never forgets a visit.
pub proof fn lemma_seen_le_transitive(a: SeenSets, b: SeenSets, c: SeenSets)
    requires
        a.le(b),
        b.le(c),
    ensures
        a.le(c),
{
}

/// Visiting one identity only grows the visited sets.
pub proof fn lemma_seen_insert_le(s: SeenSets, kind: SetKind, id: usize)
    ensures
        s.le(s.insert(kind, id)),
{
}

/// The context of which references have already been seen during one
/// measurement. It must be passed unchanged between `deep_size_of_children`
/// calls when recursing, never recreated, so that shared allocations are not
/// double-counted; and it must never be reused across two independent
/// top-level measurements.
#[derive(Debug)]
pub struct Context {
    /// Identities of atomically reference-counted allocations counted so far.
    arcs: HashSet<usize>,
    /// Identities of single-threaded reference-counted allocations counted so far.
    rcs: HashSet<usize>,
    /// Identities of borrowed-reference targets counted so far.
    refs: HashSet<usize>,
}

impl View for Context {
    type V = SeenSets;

    closed spec fn view(&self) -> SeenSets {
        SeenSets { arcs: self.arcs@, rcs: self.rcs@, refs: self.refs@ }
    }
}

/// Relies on `std::sync::Arc::as_ptr`: the address of the shared allocation,
/// one per allocation and equal for every clone of the same allocation. The
/// address is used only as an opaque identity, so nothing is stated about it.
#[verifier::external_body]
pub(crate) fn arc_identity<T>(arc: &std::sync::Arc<T>) -> usize {
    std::sync::Arc::as_ptr(arc) as usize
}

/// Relies on `std::rc::Rc::as_ptr`: the address of the shared allocation,
/// one per allocation and equal for every clone of the same allocation. The
/// address is used only as an opaque identity, so nothing is stated about it.
#[verifier::external_body]
pub(crate) fn rc_identity<T>(rc: &std::rc::Rc<T>) -> usize {
    std::rc::Rc::as_ptr(rc) as usize
}

/// Relies on `std::ptr::from_ref`: the address of the referent, equal for
/// every reference to the same place. The address is used only as an opaque
/// identity, so nothing is stated about it.
#[verifier::external_body]
pub(crate) fn ref_identity<T: ?Sized>(target: &T) -> usize {
    std::ptr::from_ref(target).cast::<()>() as usize
}

impl Context {
    /// Creates a new empty context for use in one top-level measurement.
    pub fn new() -> (context: Context)
        ensures
            context@ == SeenSets::empty(),
    {
        let context = Context { arcs: HashSet::new(), rcs: HashSet::new(), refs: HashSet::new() };
        proof {
            assert(context@ =~= SeenSets::empty());
        }
        context
    }

    /// Records `id` as visited in the identity space `kind` and reports
    /// whether it had been visited before, as one step: there is no window
    /// between the membership check and the insertion in which the same
    /// traversal could see the identity as unvisited twice.
    pub fn mark_and_check(&mut self, kind: SetKind, id: usize) -> (already_seen: bool)
        ensures
            already_seen == old(self)@.contains(kind, id),
            final(self)@ == old(self)@.insert(kind, id),
    {
        let newly_inserted = match kind {
            SetKind::SharedAtomic => self.arcs.insert(id),
            SetKind::SharedLocal => self.rcs.insert(id),
            SetKind::Borrowed => self.refs.insert(id),
        };
        proof {
            assert(final(self)@ =~= old(self)@.insert(kind, id));
        }
        !newly_inserted
    }

    /// Adds a shared atomically reference-counted allocation to the visited
    /// set. The identity inserted is the address of the shared allocation,
    /// which the model cannot name, so only the shape of the update is stated.
    pub fn add_arc<T>(&mut self, arc: &std::sync::Arc<T>)
        ensures
            exists|id: usize| final(self)@ == old(self)@.insert(SetKind::SharedAtomic, id),
            old(self)@.le(final(self)@),
    {
        let id = arc_identity(arc);
        let _ = self.mark_and_check(SetKind::SharedAtomic, id);
        proof {
            lemma_seen_insert_le(old(self)@, SetKind::SharedAtomic, id);
        }
    }

    /// Checks whether a shared atomically reference-counted allocation is in
    /// the visited set. The identity checked is the allocation's address,
    /// which the model cannot name, so the answer is membership of some
    /// identity; after [`Context::add_arc`] on a clone of the same allocation
    /// this returns true.
    pub fn contains_arc<T>(&self, arc: &std::sync::Arc<T>) -> (seen: bool)
        ensures
            exists|id: usize| seen == #[trigger] self@.arcs.contains(id),
    {
        let id = arc_identity(arc);
        let seen = self.arcs.contains(&id);
        proof {
            assert(seen == self@.arcs.contains(id));
        }
        seen
    }

    /// Adds a shared single-threaded reference-counted allocation to the
    /// visited set; the identity is the allocation's address.
    pub fn add_rc<T>(&mut self, rc: &std::rc::Rc<T>)
        ensures
            exists|id: usize| final(self)@ == old(self)@.insert(SetKind::SharedLocal, id),
            old(self)@.le(final(self)@),
    {
        let id = rc_identity(rc);
        let _ = self.mark_and_check(SetKind::SharedLocal, id);
        proof {
            lemma_seen_insert_le(old(self)@, SetKind::SharedLocal, id);
        }
    }

    /// Checks whether a shared single-threaded reference-counted allocation is
    /// in the visited set; the identity is the allocation's address, so the
    /// answer is membership of some identity.
    pub fn contains_rc<T>(&self, rc: &std::rc::Rc<T>) -> (seen: bool)
        ensures
            exists|id: usize| seen == #[trigger] self@.rcs.contains(id),
    {
        let id = rc_identity(rc);
        let seen = self.rcs.contains(&id);
        proof {
            assert(seen == self@.rcs.contains(id));
        }
        seen
    }

    /// Adds a borrowed reference's target to the visited set; the identity is
    /// the referent's address.
    pub fn add_ref<T: ?Sized>(&mut self, reference: &T)
        ensures
            exists|id: usize| final(self)@ == old(self)@.insert(SetKind::Borrowed, id),
            old(self)@.le(final(self)@),
    {
        let id = ref_identity(reference);
        let _ = self.mark_and_check(SetKind::Borrowed, id);
        proof {
            lemma_seen_insert_le(old(self)@, SetKind::Borrowed, id);
        }
    }

    /// Checks whether a borrowed reference's target is in the visited set;
    /// the identity is the referent's address, so the answer is membership of
    /// some identity.
    pub fn contains_ref<T: ?Sized>(&self, reference: &T) -> (seen: bool)
        ensures
            exists|id: usize| seen == #[trigger] self@.refs.contains(id),
    {
        let id = ref_identity(reference);
        let seen = self.refs.contains(&id);
        proof {
            assert(seen == self@.refs.contains(id));
        }
        seen
    }
}

} // verus!
