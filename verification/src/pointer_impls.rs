//! Policy-table entries for pointer types: unique heap boxes, shared
//! reference-counted allocations (atomic and single-threaded), and plain
//! borrowed references.
//!
//! A unique box always owns its pointee. A shared allocation may be owned
//! along several paths, so its identity — the address of the allocation —
//! is recorded in the traversal context on first visit and it contributes 0
//! afterwards; the addresses themselves are outside the model, so the
//! policies quantify over them. The same discipline applies to borrowed
//! references, keyed by the referent's address, so that two references to one
//! target contribute it once.

use vstd::prelude::*;

use crate::Context;
use crate::DeepSizeOf;
use crate::SeenSets;
use crate::SetKind;
use crate::context::arc_identity;
use crate::context::rc_identity;
use crate::context::ref_identity;
use crate::sat_add_i;

verus! {

/// Relies on the documented layout of `Box`: so long as the pointee type is
/// sized, a box is represented as a single pointer, one `usize` wide.
#[verifier::external_body]
fn box_immediate_size<T>() -> (bytes: usize)
    ensures
        bytes as nat == vstd::layout::size_of::<Box<T>>(),
        bytes as nat == vstd::layout::size_of::<usize>(),
{
    core::mem::size_of::<Box<T>>()
}

/// A unique heap box owns its pointee: the pointee's immediate size plus the
/// pointee's own children.
impl<T: DeepSizeOf> DeepSizeOf for Box<T> {
    open spec fn children_policy(&self, seen: SeenSets, bytes: int, out: SeenSets) -> bool {
        exists|inner: int|
            #[trigger] (**self).children_policy(seen, inner, out)
            && bytes == sat_add_i((**self).spec_immediate_size() as int, inner)
    }

    open spec fn spec_immediate_size(&self) -> nat {
        vstd::layout::size_of::<usize>()
    }

    fn immediate_size(&self) -> (bytes: usize) {
        box_immediate_size::<T>()
    }
    fn deep_size_of_children(&self, context: &mut Context) -> (bytes: usize) {
        let value: &T = &**self;
        let own = value.immediate_size();
        let inner = value.deep_size_of_children(context);
        own.saturating_add(inner)
    }
}

/// A shared atomically reference-counted allocation contributes its pointee's
/// full size on the first visit of its identity, and 0 on every later visit.
impl<T: DeepSizeOf> DeepSizeOf for std::sync::Arc<T> {
    open spec fn children_policy(&self, seen: SeenSets, bytes: int, out: SeenSets) -> bool {
        exists|id: usize|
            (#[trigger] seen.arcs.contains(id) && bytes == 0 && out == seen) || (
            !seen.arcs.contains(id) && exists|inner: int|
                #[trigger] (**self).children_policy(
                    seen.insert(SetKind::SharedAtomic, id),
                    inner,
                    out,
                ) && bytes == sat_add_i((**self).spec_immediate_size() as int, inner))
    }

    open spec fn spec_immediate_size(&self) -> nat {
        vstd::layout::size_of::<std::sync::Arc<T>>()
    }

    fn immediate_size(&self) -> (bytes: usize) {
        core::mem::size_of::<std::sync::Arc<T>>()
    }
    fn deep_size_of_children(&self, context: &mut Context) -> (bytes: usize) {
        let id = arc_identity(self);
        let ghost seen = old(context)@;
        if context.mark_and_check(SetKind::SharedAtomic, id) {
            proof {
                assert(context@ =~= seen);
            }
            0
        } else {
            let ghost marked = context@;
            let value: &T = &**self;
            let own = value.immediate_size();
            let inner = value.deep_size_of_children(context);
            proof {
                crate::lemma_seen_insert_le(seen, SetKind::SharedAtomic, id);
                crate::lemma_seen_le_transitive(seen, marked, context@);
                assert((**self).children_policy(marked, inner as int, context@));
            }
            own.saturating_add(inner)
        }
    }
}

/// A shared single-threaded reference-counted allocation contributes its
/// pointee's full size on the first visit of its identity, and 0 afterwards.
impl<T: DeepSizeOf> DeepSizeOf for std::rc::Rc<T> {
    open spec fn children_policy(&self, seen: SeenSets, bytes: int, out: SeenSets) -> bool {
        exists|id: usize|
            (#[trigger] seen.rcs.contains(id) && bytes == 0 && out == seen) || (
            !seen.rcs.contains(id) && exists|inner: int|
                #[trigger] (**self).children_policy(
                    seen.insert(SetKind::SharedLocal, id),
                    inner,
                    out,
                ) && bytes == sat_add_i((**self).spec_immediate_size() as int, inner))
    }

    open spec fn spec_immediate_size(&self) -> nat {
        vstd::layout::size_of::<std::rc::Rc<T>>()
    }

    fn immediate_size(&self) -> (bytes: usize) {
        core::mem::size_of::<std::rc::Rc<T>>()
    }
    fn deep_size_of_children(&self, context: &mut Context) -> (bytes: usize) {
        let id = rc_identity(self);
        let ghost seen = old(context)@;
        if context.mark_and_check(SetKind::SharedLocal, id) {
            proof {
                assert(context@ =~= seen);
            }
            0
        } else {
            let ghost marked = context@;
            let value: &T = &**self;
            let own = value.immediate_size();
            let inner = value.deep_size_of_children(context);
            proof {
                crate::lemma_seen_insert_le(seen, SetKind::SharedLocal, id);
                crate::lemma_seen_le_transitive(seen, marked, context@);
                assert((**self).children_policy(marked, inner as int, context@));
            }
            own.saturating_add(inner)
        }
    }
}

/// A plain borrowed reference does not own its referent, but the referent is
/// still reachable memory: it contributes its full size the first time its
/// address is visited, and 0 on every later visit, so aliasing references
/// count one target once.
impl<T: DeepSizeOf + ?Sized> DeepSizeOf for &T {
    open spec fn children_policy(&self, seen: SeenSets, bytes: int, out: SeenSets) -> bool {
        exists|id: usize|
            (#[trigger] seen.refs.contains(id) && bytes == 0 && out == seen) || (
            !seen.refs.contains(id) && exists|inner: int|
                #[trigger] (**self).children_policy(
                    seen.insert(SetKind::Borrowed, id),
                    inner,
                    out,
                ) && bytes == sat_add_i((**self).spec_immediate_size() as int, inner))
    }

    open spec fn spec_immediate_size(&self) -> nat {
        vstd::layout::size_of::<&T>()
    }

    fn immediate_size(&self) -> (bytes: usize) {
        core::mem::size_of::<&T>()
    }
    fn deep_size_of_children(&self, context: &mut Context) -> (bytes: usize) {
        let id = ref_identity(*self);
        let ghost seen = old(context)@;
        if context.mark_and_check(SetKind::Borrowed, id) {
            proof {
                assert(context@ =~= seen);
            }
            0
        } else {
            let ghost marked = context@;
            let own = T::immediate_size(*self);
            let inner = T::deep_size_of_children(*self, context);
            proof {
                crate::lemma_seen_insert_le(seen, SetKind::Borrowed, id);
                crate::lemma_seen_le_transitive(seen, marked, context@);
                assert((**self).children_policy(marked, inner as int, context@));
            }
            own.saturating_add(inner)
        }
    }
}

} // verus!
