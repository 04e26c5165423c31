//! Policy-table entries for types with no children of their own: primitive
//! scalars, text buffers, optional and either-of-two-variants wrappers,
//! fixed-arity tuples, and the known-fixed-cost wrapper for opaque types.

use vstd::prelude::*;
use vstd::string::StringSliceAdditionalSpecFns;

use crate::Context;
use crate::DeepSizeOf;
use crate::SeenSets;
use crate::sat_add_i;

verus! {

/// The policy of a value that owns no heap memory: it contributes nothing
/// and leaves the visited sets unchanged.
pub open spec fn leaf_policy(seen: SeenSets, bytes: int, out: SeenSets) -> bool {
    bytes == 0 && out == seen
}

impl DeepSizeOf for bool {
    open spec fn children_policy(&self, seen: SeenSets, bytes: int, out: SeenSets) -> bool {
        leaf_policy(seen, bytes, out)
    }

    open spec fn spec_immediate_size(&self) -> nat {
        vstd::layout::size_of::<bool>()
    }

    fn immediate_size(&self) -> (bytes: usize) {
        core::mem::size_of::<bool>()
    }
    fn deep_size_of_children(&self, _context: &mut Context) -> (bytes: usize) {
        0
    }
}

impl DeepSizeOf for char {
    open spec fn children_policy(&self, seen: SeenSets, bytes: int, out: SeenSets) -> bool {
        leaf_policy(seen, bytes, out)
    }

    open spec fn spec_immediate_size(&self) -> nat {
        vstd::layout::size_of::<char>()
    }

    fn immediate_size(&self) -> (bytes: usize) {
        core::mem::size_of::<char>()
    }
    fn deep_size_of_children(&self, _context: &mut Context) -> (bytes: usize) {
        0
    }
}

impl DeepSizeOf for u8 {
    open spec fn children_policy(&self, seen: SeenSets, bytes: int, out: SeenSets) -> bool {
        leaf_policy(seen, bytes, out)
    }

    open spec fn spec_immediate_size(&self) -> nat {
        vstd::layout::size_of::<u8>()
    }

    fn immediate_size(&self) -> (bytes: usize) {
        core::mem::size_of::<u8>()
    }
    fn deep_size_of_children(&self, _context: &mut Context) -> (bytes: usize) {
        0
    }
}

impl DeepSizeOf for u16 {
    open spec fn children_policy(&self, seen: SeenSets, bytes: int, out: SeenSets) -> bool {
        leaf_policy(seen, bytes, out)
    }

    open spec fn spec_immediate_size(&self) -> nat {
        vstd::layout::size_of::<u16>()
    }

    fn immediate_size(&self) -> (bytes: usize) {
        core::mem::size_of::<u16>()
    }
    fn deep_size_of_children(&self, _context: &mut Context) -> (bytes: usize) {
        0
    }
}

impl DeepSizeOf for u32 {
    open spec fn children_policy(&self, seen: SeenSets, bytes: int, out: SeenSets) -> bool {
        leaf_policy(seen, bytes, out)
    }

    open spec fn spec_immediate_size(&self) -> nat {
        vstd::layout::size_of::<u32>()
    }

    fn immediate_size(&self) -> (bytes: usize) {
        core::mem::size_of::<u32>()
    }
    fn deep_size_of_children(&self, _context: &mut Context) -> (bytes: usize) {
        0
    }
}

impl DeepSizeOf for u64 {
    open spec fn children_policy(&self, seen: SeenSets, bytes: int, out: SeenSets) -> bool {
        leaf_policy(seen, bytes, out)
    }

    open spec fn spec_immediate_size(&self) -> nat {
        vstd::layout::size_of::<u64>()
    }

    fn immediate_size(&self) -> (bytes: usize) {
        core::mem::size_of::<u64>()
    }
    fn deep_size_of_children(&self, _context: &mut Context) -> (bytes: usize) {
        0
    }
}

impl DeepSizeOf for u128 {
    open spec fn children_policy(&self, seen: SeenSets, bytes: int, out: SeenSets) -> bool {
        leaf_policy(seen, bytes, out)
    }

    open spec fn spec_immediate_size(&self) -> nat {
        vstd::layout::size_of::<u128>()
    }

    fn immediate_size(&self) -> (bytes: usize) {
        core::mem::size_of::<u128>()
    }
    fn deep_size_of_children(&self, _context: &mut Context) -> (bytes: usize) {
        0
    }
}

impl DeepSizeOf for usize {
    open spec fn children_policy(&self, seen: SeenSets, bytes: int, out: SeenSets) -> bool {
        leaf_policy(seen, bytes, out)
    }

    open spec fn spec_immediate_size(&self) -> nat {
        vstd::layout::size_of::<usize>()
    }

    fn immediate_size(&self) -> (bytes: usize) {
        core::mem::size_of::<usize>()
    }
    fn deep_size_of_children(&self, _context: &mut Context) -> (bytes: usize) {
        0
    }
}

impl DeepSizeOf for i8 {
    open spec fn children_policy(&self, seen: SeenSets, bytes: int, out: SeenSets) -> bool {
        leaf_policy(seen, bytes, out)
    }

    open spec fn spec_immediate_size(&self) -> nat {
        vstd::layout::size_of::<i8>()
    }

    fn immediate_size(&self) -> (bytes: usize) {
        core::mem::size_of::<i8>()
    }
    fn deep_size_of_children(&self, _context: &mut Context) -> (bytes: usize) {
        0
    }
}

impl DeepSizeOf for i16 {
    open spec fn children_policy(&self, seen: SeenSets, bytes: int, out: SeenSets) -> bool {
        leaf_policy(seen, bytes, out)
    }

    open spec fn spec_immediate_size(&self) -> nat {
        vstd::layout::size_of::<i16>()
    }

    fn immediate_size(&self) -> (bytes: usize) {
        core::mem::size_of::<i16>()
    }
    fn deep_size_of_children(&self, _context: &mut Context) -> (bytes: usize) {
        0
    }
}

impl DeepSizeOf for i32 {
    open spec fn children_policy(&self, seen: SeenSets, bytes: int, out: SeenSets) -> bool {
        leaf_policy(seen, bytes, out)
    }

    open spec fn spec_immediate_size(&self) -> nat {
        vstd::layout::size_of::<i32>()
    }

    fn immediate_size(&self) -> (bytes: usize) {
        core::mem::size_of::<i32>()
    }
    fn deep_size_of_children(&self, _context: &mut Context) -> (bytes: usize) {
        0
    }
}

impl DeepSizeOf for i64 {
    open spec fn children_policy(&self, seen: SeenSets, bytes: int, out: SeenSets) -> bool {
        leaf_policy(seen, bytes, out)
    }

    open spec fn spec_immediate_size(&self) -> nat {
        vstd::layout::size_of::<i64>()
    }

    fn immediate_size(&self) -> (bytes: usize) {
        core::mem::size_of::<i64>()
    }
    fn deep_size_of_children(&self, _context: &mut Context) -> (bytes: usize) {
        0
    }
}

impl DeepSizeOf for i128 {
    open spec fn children_policy(&self, seen: SeenSets, bytes: int, out: SeenSets) -> bool {
        leaf_policy(seen, bytes, out)
    }

    open spec fn spec_immediate_size(&self) -> nat {
        vstd::layout::size_of::<i128>()
    }

    fn immediate_size(&self) -> (bytes: usize) {
        core::mem::size_of::<i128>()
    }
    fn deep_size_of_children(&self, _context: &mut Context) -> (bytes: usize) {
        0
    }
}

impl DeepSizeOf for isize {
    open spec fn children_policy(&self, seen: SeenSets, bytes: int, out: SeenSets) -> bool {
        leaf_policy(seen, bytes, out)
    }

    open spec fn spec_immediate_size(&self) -> nat {
        vstd::layout::size_of::<isize>()
    }

    fn immediate_size(&self) -> (bytes: usize) {
        core::mem::size_of::<isize>()
    }
    fn deep_size_of_children(&self, _context: &mut Context) -> (bytes: usize) {
        0
    }
}

impl DeepSizeOf for () {
    open spec fn children_policy(&self, seen: SeenSets, bytes: int, out: SeenSets) -> bool {
        leaf_policy(seen, bytes, out)
    }

    open spec fn spec_immediate_size(&self) -> nat {
        vstd::layout::size_of::<()>()
    }

    fn immediate_size(&self) -> (bytes: usize) {
        core::mem::size_of::<()>()
    }
    fn deep_size_of_children(&self, _context: &mut Context) -> (bytes: usize) {
        0
    }
}

impl DeepSizeOf for core::sync::atomic::AtomicBool {
    open spec fn children_policy(&self, seen: SeenSets, bytes: int, out: SeenSets) -> bool {
        leaf_policy(seen, bytes, out)
    }

    open spec fn spec_immediate_size(&self) -> nat {
        vstd::layout::size_of::<core::sync::atomic::AtomicBool>()
    }

    fn immediate_size(&self) -> (bytes: usize) {
        core::mem::size_of::<core::sync::atomic::AtomicBool>()
    }
    fn deep_size_of_children(&self, _context: &mut Context) -> (bytes: usize) {
        0
    }
}

impl DeepSizeOf for core::sync::atomic::AtomicIsize {
    open spec fn children_policy(&self, seen: SeenSets, bytes: int, out: SeenSets) -> bool {
        leaf_policy(seen, bytes, out)
    }

    open spec fn spec_immediate_size(&self) -> nat {
        vstd::layout::size_of::<core::sync::atomic::AtomicIsize>()
    }

    fn immediate_size(&self) -> (bytes: usize) {
        core::mem::size_of::<core::sync::atomic::AtomicIsize>()
    }
    fn deep_size_of_children(&self, _context: &mut Context) -> (bytes: usize) {
        0
    }
}

impl DeepSizeOf for core::sync::atomic::AtomicUsize {
    open spec fn children_policy(&self, seen: SeenSets, bytes: int, out: SeenSets) -> bool {
        leaf_policy(seen, bytes, out)
    }

    open spec fn spec_immediate_size(&self) -> nat {
        vstd::layout::size_of::<core::sync::atomic::AtomicUsize>()
    }

    fn immediate_size(&self) -> (bytes: usize) {
        core::mem::size_of::<core::sync::atomic::AtomicUsize>()
    }
    fn deep_size_of_children(&self, _context: &mut Context) -> (bytes: usize) {
        0
    }
}

impl<T: ?Sized> DeepSizeOf for core::marker::PhantomData<T> {
    open spec fn children_policy(&self, seen: SeenSets, bytes: int, out: SeenSets) -> bool {
        leaf_policy(seen, bytes, out)
    }

    open spec fn spec_immediate_size(&self) -> nat {
        vstd::layout::size_of::<core::marker::PhantomData<T>>()
    }

    fn immediate_size(&self) -> (bytes: usize) {
        core::mem::size_of::<core::marker::PhantomData<T>>()
    }
    fn deep_size_of_children(&self, _context: &mut Context) -> (bytes: usize) {
        0
    }
}

/// A text slice owns nothing beyond the bytes it is: only an owning buffer
/// has an allocation of its own. Its immediate size is its length in bytes.
impl DeepSizeOf for str {
    open spec fn children_policy(&self, seen: SeenSets, bytes: int, out: SeenSets) -> bool {
        leaf_policy(seen, bytes, out)
    }

    open spec fn spec_immediate_size(&self) -> nat {
        self.spec_bytes().len() as usize as nat
    }

    fn immediate_size(&self) -> (bytes: usize) {
        self.len()
    }
    fn deep_size_of_children(&self, _context: &mut Context) -> (bytes: usize) {
        0
    }
}

/// Relies on `String::capacity`: the size in bytes of the buffer the text
/// owns. It is at least the buffer's used length, which is the length in
/// bytes of the text's UTF-8 encoding.
#[verifier::external_body]
fn string_capacity(text: &String) -> (bytes: usize)
    ensures
        bytes >= vstd::utf8::encode_utf8(text@).len(),
{
    text.capacity()
}

/// An owned text buffer's children size is its allocated capacity in bytes —
/// the whole backing buffer, not just the used part. The capacity the
/// allocator granted is not in the model, so the policy gives its lower
/// bound: the used length in bytes of the text it holds.
impl DeepSizeOf for String {
    open spec fn children_policy(&self, seen: SeenSets, bytes: int, out: SeenSets) -> bool {
        bytes >= vstd::utf8::encode_utf8(self@).len() && out == seen
    }

    open spec fn spec_immediate_size(&self) -> nat {
        vstd::layout::size_of::<String>()
    }

    fn immediate_size(&self) -> (bytes: usize) {
        core::mem::size_of::<String>()
    }
    fn deep_size_of_children(&self, _context: &mut Context) -> (bytes: usize) {
        string_capacity(self)
    }
}

/// An optional value contributes the size of the value it holds, if any;
/// the empty variant contributes 0.
impl<T: DeepSizeOf> DeepSizeOf for Option<T> {
    open spec fn children_policy(&self, seen: SeenSets, bytes: int, out: SeenSets) -> bool {
        match self {
            Option::Some(value) => value.children_policy(seen, bytes, out),
            Option::None => leaf_policy(seen, bytes, out),
        }
    }

    open spec fn spec_immediate_size(&self) -> nat {
        vstd::layout::size_of::<Option<T>>()
    }

    fn immediate_size(&self) -> (bytes: usize) {
        core::mem::size_of::<Option<T>>()
    }
    fn deep_size_of_children(&self, context: &mut Context) -> (bytes: usize) {
        match self {
            Option::Some(value) => value.deep_size_of_children(context),
            Option::None => 0,
        }
    }
}

/// A success-or-error value contributes the size of whichever variant is
/// present.
impl<R: DeepSizeOf, E: DeepSizeOf> DeepSizeOf for Result<R, E> {
    open spec fn children_policy(&self, seen: SeenSets, bytes: int, out: SeenSets) -> bool {
        match self {
            Result::Ok(value) => value.children_policy(seen, bytes, out),
            Result::Err(error) => error.children_policy(seen, bytes, out),
        }
    }

    open spec fn spec_immediate_size(&self) -> nat {
        vstd::layout::size_of::<Result<R, E>>()
    }

    fn immediate_size(&self) -> (bytes: usize) {
        core::mem::size_of::<Result<R, E>>()
    }
    fn deep_size_of_children(&self, context: &mut Context) -> (bytes: usize) {
        match self {
            Result::Ok(value) => value.deep_size_of_children(context),
            Result::Err(error) => error.deep_size_of_children(context),
        }
    }
}

/// A pair's children size is the sum of its components' children sizes,
/// measured left to right with one shared context.
impl<A: DeepSizeOf, B: DeepSizeOf> DeepSizeOf for (A, B) {
    open spec fn children_policy(&self, seen: SeenSets, bytes: int, out: SeenSets) -> bool {
        exists|a: int, b: int, mid: SeenSets|
            #[trigger] self.0.children_policy(seen, a, mid)
            && #[trigger] self.1.children_policy(mid, b, out)
            && bytes == sat_add_i(a, b)
    }

    open spec fn spec_immediate_size(&self) -> nat {
        vstd::layout::size_of::<(A, B)>()
    }

    fn immediate_size(&self) -> (bytes: usize) {
        core::mem::size_of::<(A, B)>()
    }
    fn deep_size_of_children(&self, context: &mut Context) -> (bytes: usize) {
        let a = self.0.deep_size_of_children(context);
        let ghost mid = context@;
        let b = self.1.deep_size_of_children(context);
        proof {
            crate::lemma_seen_le_transitive(old(context)@, mid, context@);
            assert(self.0.children_policy(old(context)@, a as int, mid));
            assert(self.1.children_policy(mid, b as int, context@));
        }
        a.saturating_add(b)
    }
}

/// A one-element tuple's children size is its component's children size.
impl<A: DeepSizeOf> DeepSizeOf for (A,) {
    open spec fn children_policy(&self, seen: SeenSets, bytes: int, out: SeenSets) -> bool {
        self.0.children_policy(seen, bytes, out)
    }

    open spec fn spec_immediate_size(&self) -> nat {
        vstd::layout::size_of::<(A,)>()
    }

    fn immediate_size(&self) -> (bytes: usize) {
        core::mem::size_of::<(A,)>()
    }
    fn deep_size_of_children(&self, context: &mut Context) -> (bytes: usize) {
        self.0.deep_size_of_children(context)
    }
}

/// A triple's children size is the sum of its components' children sizes,
/// measured left to right with one shared context.
impl<A: DeepSizeOf, B: DeepSizeOf, C: DeepSizeOf> DeepSizeOf for (A, B, C) {
    open spec fn children_policy(&self, seen: SeenSets, bytes: int, out: SeenSets) -> bool {
        exists|a: int, b: int, c: int, mid1: SeenSets, mid2: SeenSets|
            #[trigger] self.0.children_policy(seen, a, mid1)
            && #[trigger] self.1.children_policy(mid1, b, mid2)
            && #[trigger] self.2.children_policy(mid2, c, out)
            && bytes == sat_add_i(sat_add_i(a, b), c)
    }

    open spec fn spec_immediate_size(&self) -> nat {
        vstd::layout::size_of::<(A, B, C)>()
    }

    fn immediate_size(&self) -> (bytes: usize) {
        core::mem::size_of::<(A, B, C)>()
    }
    fn deep_size_of_children(&self, context: &mut Context) -> (bytes: usize) {
        let a = self.0.deep_size_of_children(context);
        let ghost mid1 = context@;
        let b = self.1.deep_size_of_children(context);
        let ghost mid2 = context@;
        let c = self.2.deep_size_of_children(context);
        proof {
            crate::lemma_seen_le_transitive(old(context)@, mid1, mid2);
            crate::lemma_seen_le_transitive(old(context)@, mid2, context@);
            assert(self.0.children_policy(old(context)@, a as int, mid1));
            assert(self.1.children_policy(mid1, b as int, mid2));
            assert(self.2.children_policy(mid2, c as int, context@));
        }
        a.saturating_add(b).saturating_add(c)
    }
}

/// A quadruple's children size is the sum of its components' children sizes,
/// measured left to right with one shared context.
impl<A: DeepSizeOf, B: DeepSizeOf, C: DeepSizeOf, D: DeepSizeOf> DeepSizeOf for (A, B, C, D) {
    open spec fn children_policy(&self, seen: SeenSets, bytes: int, out: SeenSets) -> bool {
        exists|a: int, b: int, c: int, d: int, mid1: SeenSets, mid2: SeenSets, mid3: SeenSets|
            #[trigger] self.0.children_policy(seen, a, mid1)
            && #[trigger] self.1.children_policy(mid1, b, mid2)
            && #[trigger] self.2.children_policy(mid2, c, mid3)
            && #[trigger] self.3.children_policy(mid3, d, out)
            && bytes == sat_add_i(sat_add_i(sat_add_i(a, b), c), d)
    }

    open spec fn spec_immediate_size(&self) -> nat {
        vstd::layout::size_of::<(A, B, C, D)>()
    }

    fn immediate_size(&self) -> (bytes: usize) {
        core::mem::size_of::<(A, B, C, D)>()
    }
    fn deep_size_of_children(&self, context: &mut Context) -> (bytes: usize) {
        let a = self.0.deep_size_of_children(context);
        let ghost mid1 = context@;
        let b = self.1.deep_size_of_children(context);
        let ghost mid2 = context@;
        let c = self.2.deep_size_of_children(context);
        let ghost mid3 = context@;
        let d = self.3.deep_size_of_children(context);
        proof {
            crate::lemma_seen_le_transitive(old(context)@, mid1, mid2);
            crate::lemma_seen_le_transitive(old(context)@, mid2, mid3);
            crate::lemma_seen_le_transitive(old(context)@, mid3, context@);
            assert(self.0.children_policy(old(context)@, a as int, mid1));
            assert(self.1.children_policy(mid1, b as int, mid2));
            assert(self.2.children_policy(mid2, c as int, mid3));
            assert(self.3.children_policy(mid3, d as int, context@));
        }
        a.saturating_add(b).saturating_add(c).saturating_add(d)
    }
}

/// A 5-element tuple's children size is the sum of its components' children
/// sizes, measured left to right with one shared context.
impl<A: DeepSizeOf, B: DeepSizeOf, C: DeepSizeOf, D: DeepSizeOf, E: DeepSizeOf> DeepSizeOf for (A, B, C, D, E) {
    open spec fn children_policy(&self, seen: SeenSets, bytes: int, out: SeenSets) -> bool {
        exists|a: int, b: int, c: int, d: int, e: int, mid1: SeenSets, mid2: SeenSets, mid3: SeenSets, mid4: SeenSets|
            #[trigger] self.0.children_policy(seen, a, mid1) &&
            #[trigger] self.1.children_policy(mid1, b, mid2) &&
            #[trigger] self.2.children_policy(mid2, c, mid3) &&
            #[trigger] self.3.children_policy(mid3, d, mid4) &&
            #[trigger] self.4.children_policy(mid4, e, out)
            && bytes == sat_add_i(sat_add_i(sat_add_i(sat_add_i(a, b), c), d), e)
    }

    open spec fn spec_immediate_size(&self) -> nat {
        vstd::layout::size_of::<(A, B, C, D, E)>()
    }

    fn immediate_size(&self) -> (bytes: usize) {
        core::mem::size_of::<(A, B, C, D, E)>()
    }
    fn deep_size_of_children(&self, context: &mut Context) -> (bytes: usize) {
        let a = self.0.deep_size_of_children(context);
        let ghost mid1 = context@;
        let b = self.1.deep_size_of_children(context);
        let ghost mid2 = context@;
        let c = self.2.deep_size_of_children(context);
        let ghost mid3 = context@;
        let d = self.3.deep_size_of_children(context);
        let ghost mid4 = context@;
        let e = self.4.deep_size_of_children(context);
        proof {
            crate::lemma_seen_le_transitive(old(context)@, mid1, mid2);
            crate::lemma_seen_le_transitive(old(context)@, mid2, mid3);
            crate::lemma_seen_le_transitive(old(context)@, mid3, mid4);
            crate::lemma_seen_le_transitive(old(context)@, mid4, context@);
            assert(self.0.children_policy(old(context)@, a as int, mid1));
            assert(self.1.children_policy(mid1, b as int, mid2));
            assert(self.2.children_policy(mid2, c as int, mid3));
            assert(self.3.children_policy(mid3, d as int, mid4));
            assert(self.4.children_policy(mid4, e as int, context@));
        }
        a.saturating_add(b).saturating_add(c).saturating_add(d).saturating_add(e)
    }
}

/// A 6-element tuple's children size is the sum of its components' children
/// sizes, measured left to right with one shared context.
impl<A: DeepSizeOf, B: DeepSizeOf, C: DeepSizeOf, D: DeepSizeOf, E: DeepSizeOf, F: DeepSizeOf> DeepSizeOf for (A, B, C, D, E, F) {
    open spec fn children_policy(&self, seen: SeenSets, bytes: int, out: SeenSets) -> bool {
        exists|a: int, b: int, c: int, d: int, e: int, f: int, mid1: SeenSets, mid2: SeenSets, mid3: SeenSets, mid4: SeenSets, mid5: SeenSets|
            #[trigger] self.0.children_policy(seen, a, mid1) &&
            #[trigger] self.1.children_policy(mid1, b, mid2) &&
            #[trigger] self.2.children_policy(mid2, c, mid3) &&
            #[trigger] self.3.children_policy(mid3, d, mid4) &&
            #[trigger] self.4.children_policy(mid4, e, mid5) &&
            #[trigger] self.5.children_policy(mid5, f, out)
            && bytes == sat_add_i(sat_add_i(sat_add_i(sat_add_i(sat_add_i(a, b), c), d), e), f)
    }

    open spec fn spec_immediate_size(&self) -> nat {
        vstd::layout::size_of::<(A, B, C, D, E, F)>()
    }

    fn immediate_size(&self) -> (bytes: usize) {
        core::mem::size_of::<(A, B, C, D, E, F)>()
    }
    fn deep_size_of_children(&self, context: &mut Context) -> (bytes: usize) {
        let a = self.0.deep_size_of_children(context);
        let ghost mid1 = context@;
        let b = self.1.deep_size_of_children(context);
        let ghost mid2 = context@;
        let c = self.2.deep_size_of_children(context);
        let ghost mid3 = context@;
        let d = self.3.deep_size_of_children(context);
        let ghost mid4 = context@;
        let e = self.4.deep_size_of_children(context);
        let ghost mid5 = context@;
        let f = self.5.deep_size_of_children(context);
        proof {
            crate::lemma_seen_le_transitive(old(context)@, mid1, mid2);
            crate::lemma_seen_le_transitive(old(context)@, mid2, mid3);
            crate::lemma_seen_le_transitive(old(context)@, mid3, mid4);
            crate::lemma_seen_le_transitive(old(context)@, mid4, mid5);
            crate::lemma_seen_le_transitive(old(context)@, mid5, context@);
            assert(self.0.children_policy(old(context)@, a as int, mid1));
            assert(self.1.children_policy(mid1, b as int, mid2));
            assert(self.2.children_policy(mid2, c as int, mid3));
            assert(self.3.children_policy(mid3, d as int, mid4));
            assert(self.4.children_policy(mid4, e as int, mid5));
            assert(self.5.children_policy(mid5, f as int, context@));
        }
        a.saturating_add(b).saturating_add(c).saturating_add(d).saturating_add(e).saturating_add(f)
    }
}

/// A 7-element tuple's children size is the sum of its components' children
/// sizes, measured left to right with one shared context.
impl<A: DeepSizeOf, B: DeepSizeOf, C: DeepSizeOf, D: DeepSizeOf, E: DeepSizeOf, F: DeepSizeOf, G: DeepSizeOf> DeepSizeOf for (A, B, C, D, E, F, G) {
    open spec fn children_policy(&self, seen: SeenSets, bytes: int, out: SeenSets) -> bool {
        exists|a: int, b: int, c: int, d: int, e: int, f: int, g: int, mid1: SeenSets, mid2: SeenSets, mid3: SeenSets, mid4: SeenSets, mid5: SeenSets, mid6: SeenSets|
            #[trigger] self.0.children_policy(seen, a, mid1) &&
            #[trigger] self.1.children_policy(mid1, b, mid2) &&
            #[trigger] self.2.children_policy(mid2, c, mid3) &&
            #[trigger] self.3.children_policy(mid3, d, mid4) &&
            #[trigger] self.4.children_policy(mid4, e, mid5) &&
            #[trigger] self.5.children_policy(mid5, f, mid6) &&
            #[trigger] self.6.children_policy(mid6, g, out)
            && bytes == sat_add_i(sat_add_i(sat_add_i(sat_add_i(sat_add_i(sat_add_i(a, b), c), d), e), f), g)
    }

    open spec fn spec_immediate_size(&self) -> nat {
        vstd::layout::size_of::<(A, B, C, D, E, F, G)>()
    }

    fn immediate_size(&self) -> (bytes: usize) {
        core::mem::size_of::<(A, B, C, D, E, F, G)>()
    }
    fn deep_size_of_children(&self, context: &mut Context) -> (bytes: usize) {
        let a = self.0.deep_size_of_children(context);
        let ghost mid1 = context@;
        let b = self.1.deep_size_of_children(context);
        let ghost mid2 = context@;
        let c = self.2.deep_size_of_children(context);
        let ghost mid3 = context@;
        let d = self.3.deep_size_of_children(context);
        let ghost mid4 = context@;
        let e = self.4.deep_size_of_children(context);
        let ghost mid5 = context@;
        let f = self.5.deep_size_of_children(context);
        let ghost mid6 = context@;
        let g = self.6.deep_size_of_children(context);
        proof {
            crate::lemma_seen_le_transitive(old(context)@, mid1, mid2);
            crate::lemma_seen_le_transitive(old(context)@, mid2, mid3);
            crate::lemma_seen_le_transitive(old(context)@, mid3, mid4);
            crate::lemma_seen_le_transitive(old(context)@, mid4, mid5);
            crate::lemma_seen_le_transitive(old(context)@, mid5, mid6);
            crate::lemma_seen_le_transitive(old(context)@, mid6, context@);
            assert(self.0.children_policy(old(context)@, a as int, mid1));
            assert(self.1.children_policy(mid1, b as int, mid2));
            assert(self.2.children_policy(mid2, c as int, mid3));
            assert(self.3.children_policy(mid3, d as int, mid4));
            assert(self.4.children_policy(mid4, e as int, mid5));
            assert(self.5.children_policy(mid5, f as int, mid6));
            assert(self.6.children_policy(mid6, g as int, context@));
        }
        a.saturating_add(b).saturating_add(c).saturating_add(d).saturating_add(e).saturating_add(f).saturating_add(g)
    }
}

/// A 8-element tuple's children size is the sum of its components' children
/// sizes, measured left to right with one shared context.
impl<A: DeepSizeOf, B: DeepSizeOf, C: DeepSizeOf, D: DeepSizeOf, E: DeepSizeOf, F: DeepSizeOf, G: DeepSizeOf, H: DeepSizeOf> DeepSizeOf for (A, B, C, D, E, F, G, H) {
    open spec fn children_policy(&self, seen: SeenSets, bytes: int, out: SeenSets) -> bool {
        exists|a: int, b: int, c: int, d: int, e: int, f: int, g: int, h: int, mid1: SeenSets, mid2: SeenSets, mid3: SeenSets, mid4: SeenSets, mid5: SeenSets, mid6: SeenSets, mid7: SeenSets|
            #[trigger] self.0.children_policy(seen, a, mid1) &&
            #[trigger] self.1.children_policy(mid1, b, mid2) &&
            #[trigger] self.2.children_policy(mid2, c, mid3) &&
            #[trigger] self.3.children_policy(mid3, d, mid4) &&
            #[trigger] self.4.children_policy(mid4, e, mid5) &&
            #[trigger] self.5.children_policy(mid5, f, mid6) &&
            #[trigger] self.6.children_policy(mid6, g, mid7) &&
            #[trigger] self.7.children_policy(mid7, h, out)
            && bytes == sat_add_i(sat_add_i(sat_add_i(sat_add_i(sat_add_i(sat_add_i(sat_add_i(a, b), c), d), e), f), g), h)
    }

    open spec fn spec_immediate_size(&self) -> nat {
        vstd::layout::size_of::<(A, B, C, D, E, F, G, H)>()
    }

    fn immediate_size(&self) -> (bytes: usize) {
        core::mem::size_of::<(A, B, C, D, E, F, G, H)>()
    }
    fn deep_size_of_children(&self, context: &mut Context) -> (bytes: usize) {
        let a = self.0.deep_size_of_children(context);
        let ghost mid1 = context@;
        let b = self.1.deep_size_of_children(context);
        let ghost mid2 = context@;
        let c = self.2.deep_size_of_children(context);
        let ghost mid3 = context@;
        let d = self.3.deep_size_of_children(context);
        let ghost mid4 = context@;
        let e = self.4.deep_size_of_children(context);
        let ghost mid5 = context@;
        let f = self.5.deep_size_of_children(context);
        let ghost mid6 = context@;
        let g = self.6.deep_size_of_children(context);
        let ghost mid7 = context@;
        let h = self.7.deep_size_of_children(context);
        proof {
            crate::lemma_seen_le_transitive(old(context)@, mid1, mid2);
            crate::lemma_seen_le_transitive(old(context)@, mid2, mid3);
            crate::lemma_seen_le_transitive(old(context)@, mid3, mid4);
            crate::lemma_seen_le_transitive(old(context)@, mid4, mid5);
            crate::lemma_seen_le_transitive(old(context)@, mid5, mid6);
            crate::lemma_seen_le_transitive(old(context)@, mid6, mid7);
            crate::lemma_seen_le_transitive(old(context)@, mid7, context@);
            assert(self.0.children_policy(old(context)@, a as int, mid1));
            assert(self.1.children_policy(mid1, b as int, mid2));
            assert(self.2.children_policy(mid2, c as int, mid3));
            assert(self.3.children_policy(mid3, d as int, mid4));
            assert(self.4.children_policy(mid4, e as int, mid5));
            assert(self.5.children_policy(mid5, f as int, mid6));
            assert(self.6.children_policy(mid6, g as int, mid7));
            assert(self.7.children_policy(mid7, h as int, context@));
        }
        a.saturating_add(b).saturating_add(c).saturating_add(d).saturating_add(e).saturating_add(f).saturating_add(g).saturating_add(h)
    }
}

/// A 9-element tuple's children size is the sum of its components' children
/// sizes, measured left to right with one shared context.
impl<A: DeepSizeOf, B: DeepSizeOf, C: DeepSizeOf, D: DeepSizeOf, E: DeepSizeOf, F: DeepSizeOf, G: DeepSizeOf, H: DeepSizeOf, I: DeepSizeOf> DeepSizeOf for (A, B, C, D, E, F, G, H, I) {
    open spec fn children_policy(&self, seen: SeenSets, bytes: int, out: SeenSets) -> bool {
        exists|a: int, b: int, c: int, d: int, e: int, f: int, g: int, h: int, i: int, mid1: SeenSets, mid2: SeenSets, mid3: SeenSets, mid4: SeenSets, mid5: SeenSets, mid6: SeenSets, mid7: SeenSets, mid8: SeenSets|
            #[trigger] self.0.children_policy(seen, a, mid1) &&
            #[trigger] self.1.children_policy(mid1, b, mid2) &&
            #[trigger] self.2.children_policy(mid2, c, mid3) &&
            #[trigger] self.3.children_policy(mid3, d, mid4) &&
            #[trigger] self.4.children_policy(mid4, e, mid5) &&
            #[trigger] self.5.children_policy(mid5, f, mid6) &&
            #[trigger] self.6.children_policy(mid6, g, mid7) &&
            #[trigger] self.7.children_policy(mid7, h, mid8) &&
            #[trigger] self.8.children_policy(mid8, i, out)
            && bytes == sat_add_i(sat_add_i(sat_add_i(sat_add_i(sat_add_i(sat_add_i(sat_add_i(sat_add_i(a, b), c), d), e), f), g), h), i)
    }

    open spec fn spec_immediate_size(&self) -> nat {
        vstd::layout::size_of::<(A, B, C, D, E, F, G, H, I)>()
    }

    fn immediate_size(&self) -> (bytes: usize) {
        core::mem::size_of::<(A, B, C, D, E, F, G, H, I)>()
    }
    fn deep_size_of_children(&self, context: &mut Context) -> (bytes: usize) {
        let a = self.0.deep_size_of_children(context);
        let ghost mid1 = context@;
        let b = self.1.deep_size_of_children(context);
        let ghost mid2 = context@;
        let c = self.2.deep_size_of_children(context);
        let ghost mid3 = context@;
        let d = self.3.deep_size_of_children(context);
        let ghost mid4 = context@;
        let e = self.4.deep_size_of_children(context);
        let ghost mid5 = context@;
        let f = self.5.deep_size_of_children(context);
        let ghost mid6 = context@;
        let g = self.6.deep_size_of_children(context);
        let ghost mid7 = context@;
        let h = self.7.deep_size_of_children(context);
        let ghost mid8 = context@;
        let i = self.8.deep_size_of_children(context);
        proof {
            crate::lemma_seen_le_transitive(old(context)@, mid1, mid2);
            crate::lemma_seen_le_transitive(old(context)@, mid2, mid3);
            crate::lemma_seen_le_transitive(old(context)@, mid3, mid4);
            crate::lemma_seen_le_transitive(old(context)@, mid4, mid5);
            crate::lemma_seen_le_transitive(old(context)@, mid5, mid6);
            crate::lemma_seen_le_transitive(old(context)@, mid6, mid7);
            crate::lemma_seen_le_transitive(old(context)@, mid7, mid8);
            crate::lemma_seen_le_transitive(old(context)@, mid8, context@);
            assert(self.0.children_policy(old(context)@, a as int, mid1));
            assert(self.1.children_policy(mid1, b as int, mid2));
            assert(self.2.children_policy(mid2, c as int, mid3));
            assert(self.3.children_policy(mid3, d as int, mid4));
            assert(self.4.children_policy(mid4, e as int, mid5));
            assert(self.5.children_policy(mid5, f as int, mid6));
            assert(self.6.children_policy(mid6, g as int, mid7));
            assert(self.7.children_policy(mid7, h as int, mid8));
            assert(self.8.children_policy(mid8, i as int, context@));
        }
        a.saturating_add(b).saturating_add(c).saturating_add(d).saturating_add(e).saturating_add(f).saturating_add(g).saturating_add(h).saturating_add(i)
    }
}

/// A 10-element tuple's children size is the sum of its components' children
/// sizes, measured left to right with one shared context.
impl<A: DeepSizeOf, B: DeepSizeOf, C: DeepSizeOf, D: DeepSizeOf, E: DeepSizeOf, F: DeepSizeOf, G: DeepSizeOf, H: DeepSizeOf, I: DeepSizeOf, J: DeepSizeOf> DeepSizeOf for (A, B, C, D, E, F, G, H, I, J) {
    open spec fn children_policy(&self, seen: SeenSets, bytes: int, out: SeenSets) -> bool {
        exists|a: int, b: int, c: int, d: int, e: int, f: int, g: int, h: int, i: int, j: int, mid1: SeenSets, mid2: SeenSets, mid3: SeenSets, mid4: SeenSets, mid5: SeenSets, mid6: SeenSets, mid7: SeenSets, mid8: SeenSets, mid9: SeenSets|
            #[trigger] self.0.children_policy(seen, a, mid1) &&
            #[trigger] self.1.children_policy(mid1, b, mid2) &&
            #[trigger] self.2.children_policy(mid2, c, mid3) &&
            #[trigger] self.3.children_policy(mid3, d, mid4) &&
            #[trigger] self.4.children_policy(mid4, e, mid5) &&
            #[trigger] self.5.children_policy(mid5, f, mid6) &&
            #[trigger] self.6.children_policy(mid6, g, mid7) &&
            #[trigger] self.7.children_policy(mid7, h, mid8) &&
            #[trigger] self.8.children_policy(mid8, i, mid9) &&
            #[trigger] self.9.children_policy(mid9, j, out)
            && bytes == sat_add_i(sat_add_i(sat_add_i(sat_add_i(sat_add_i(sat_add_i(sat_add_i(sat_add_i(sat_add_i(a, b), c), d), e), f), g), h), i), j)
    }

    open spec fn spec_immediate_size(&self) -> nat {
        vstd::layout::size_of::<(A, B, C, D, E, F, G, H, I, J)>()
    }

    fn immediate_size(&self) -> (bytes: usize) {
        core::mem::size_of::<(A, B, C, D, E, F, G, H, I, J)>()
    }
    fn deep_size_of_children(&self, context: &mut Context) -> (bytes: usize) {
        let a = self.0.deep_size_of_children(context);
        let ghost mid1 = context@;
        let b = self.1.deep_size_of_children(context);
        let ghost mid2 = context@;
        let c = self.2.deep_size_of_children(context);
        let ghost mid3 = context@;
        let d = self.3.deep_size_of_children(context);
        let ghost mid4 = context@;
        let e = self.4.deep_size_of_children(context);
        let ghost mid5 = context@;
        let f = self.5.deep_size_of_children(context);
        let ghost mid6 = context@;
        let g = self.6.deep_size_of_children(context);
        let ghost mid7 = context@;
        let h = self.7.deep_size_of_children(context);
        let ghost mid8 = context@;
        let i = self.8.deep_size_of_children(context);
        let ghost mid9 = context@;
        let j = self.9.deep_size_of_children(context);
        proof {
            crate::lemma_seen_le_transitive(old(context)@, mid1, mid2);
            crate::lemma_seen_le_transitive(old(context)@, mid2, mid3);
            crate::lemma_seen_le_transitive(old(context)@, mid3, mid4);
            crate::lemma_seen_le_transitive(old(context)@, mid4, mid5);
            crate::lemma_seen_le_transitive(old(context)@, mid5, mid6);
            crate::lemma_seen_le_transitive(old(context)@, mid6, mid7);
            crate::lemma_seen_le_transitive(old(context)@, mid7, mid8);
            crate::lemma_seen_le_transitive(old(context)@, mid8, mid9);
            crate::lemma_seen_le_transitive(old(context)@, mid9, context@);
            assert(self.0.children_policy(old(context)@, a as int, mid1));
            assert(self.1.children_policy(mid1, b as int, mid2));
            assert(self.2.children_policy(mid2, c as int, mid3));
            assert(self.3.children_policy(mid3, d as int, mid4));
            assert(self.4.children_policy(mid4, e as int, mid5));
            assert(self.5.children_policy(mid5, f as int, mid6));
            assert(self.6.children_policy(mid6, g as int, mid7));
            assert(self.7.children_policy(mid7, h as int, mid8));
            assert(self.8.children_policy(mid8, i as int, mid9));
            assert(self.9.children_policy(mid9, j as int, context@));
        }
        a.saturating_add(b).saturating_add(c).saturating_add(d).saturating_add(e).saturating_add(f).saturating_add(g).saturating_add(h).saturating_add(i).saturating_add(j)
    }
}

/// A value paired with a declared owned-children size: the registration
/// facility for external types whose internals are opaque. Measuring the
/// wrapper reports exactly the declared byte count, with no traversal of the
/// wrapped value.
pub struct KnownDeepSize<T> {
    /// The wrapped value.
    pub value: T,
    /// The owned-children size, in bytes, the wrapped value is declared to have.
    pub owned_bytes: usize,
}

impl<T> DeepSizeOf for KnownDeepSize<T> {
    open spec fn children_policy(&self, seen: SeenSets, bytes: int, out: SeenSets) -> bool {
        bytes == self.owned_bytes && out == seen
    }

    open spec fn spec_immediate_size(&self) -> nat {
        vstd::layout::size_of::<KnownDeepSize<T>>()
    }

    fn immediate_size(&self) -> (bytes: usize) {
        core::mem::size_of::<KnownDeepSize<T>>()
    }
    fn deep_size_of_children(&self, _context: &mut Context) -> (bytes: usize) {
        self.owned_bytes
    }
}

} // verus!
