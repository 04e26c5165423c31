use std::collections::HashMap;
use std::collections::HashSet;
use std::collections::VecDeque;

use deepsize::Context;
use deepsize::DeepSizeOf;
use deepsize::KnownDeepSize;
use deepsize::SetKind;
use deepsize::linked_list_children_size;

// A record with one 4-byte integer field and one unique-box field, measured
// by the field-by-field sum the generator prescribes.
struct Record {
    a: u32,
    b: Box<u8>,
}

impl DeepSizeOf for Record {
    fn immediate_size(&self) -> usize {
        std::mem::size_of::<Record>()
    }

    fn deep_size_of_children(&self, context: &mut Context) -> usize {
        0 + DeepSizeOf::deep_size_of_children(&self.a, context)
            + DeepSizeOf::deep_size_of_children(&self.b, context)
    }
}

// The same record with the field sum written out by hand in the opposite
// style: an equivalent manual implementation of the contract.
struct ManualRecord {
    a: u32,
    b: Box<u8>,
}

impl DeepSizeOf for ManualRecord {
    fn immediate_size(&self) -> usize {
        std::mem::size_of::<ManualRecord>()
    }

    fn deep_size_of_children(&self, context: &mut Context) -> usize {
        let mut total = 0;
        total += self.a.deep_size_of_children(context);
        total += self.b.deep_size_of_children(context);
        total
    }
}

#[test]
fn record_with_box_totals_seventeen() {
    let object = Record { a: 15, b: Box::new(255) };
    // 4 bytes of integer, 4 of padding, 8 of box pointer, 1 boxed byte.
    assert_eq!(object.deep_size_of(), 17);
}

#[test]
fn generated_field_sum_matches_manual_record() {
    let generated = Record { a: 7, b: Box::new(9) };
    let manual = ManualRecord { a: 7, b: Box::new(9) };
    assert_eq!(
        generated.deep_size_of_children(&mut Context::new()),
        manual.deep_size_of_children(&mut Context::new())
    );
    assert_eq!(generated.deep_size_of(), manual.deep_size_of());
}

#[test]
fn text_buffer_counts_capacity() {
    let mut text = String::with_capacity(12);
    text.push_str("Hello World!");
    assert_eq!(text.capacity(), 12);
    assert_eq!(text.deep_size_of_children(&mut Context::new()), 12);
    assert_eq!(text.deep_size_of(), std::mem::size_of::<String>() + 12);
}

#[test]
fn growable_array_counts_capacity_not_length() {
    let mut bytes: Vec<u8> = vec![];
    for i in 0..13 {
        bytes.push(i);
    }
    assert_eq!(bytes.capacity(), 16);
    assert_eq!(bytes.deep_size_of_children(&mut Context::new()), 16);
    // The capacity (16) plus three usizes (pointer, capacity, length).
    assert_eq!(bytes.deep_size_of(), 16 + 24);
}

#[test]
fn growable_array_counts_children_of_elements() {
    let mut boxes: Vec<Box<u64>> = vec![];
    for i in 0..13 {
        boxes.push(Box::new(i));
    }
    assert_eq!(
        boxes.deep_size_of(),
        24 + boxes.capacity() * 8 + 13 * 8
    );
}

#[test]
fn double_ended_array_counts_capacity() {
    let mut deque: VecDeque<u8> = VecDeque::new();
    for i in 0..12 {
        deque.push_back(i);
    }
    deque.push_front(13);
    assert_eq!(
        deque.deep_size_of(),
        std::mem::size_of::<VecDeque<u8>>() + deque.capacity()
    );
}

#[test]
fn linked_list_pays_two_pointers_per_node() {
    let elements: [u8; 13] = [1; 13];
    let mut context = Context::new();
    // 13 nodes, each holding one byte plus a forward and a backward pointer.
    assert_eq!(
        linked_list_children_size(&elements, &mut context),
        13 * (1 + 2 * std::mem::size_of::<usize>())
    );
}

#[test]
fn shared_allocation_counted_once() {
    let shared = std::sync::Arc::new(1024u32);
    let pair = (shared.clone(), shared.clone());
    // Two pointer-sized handles, and the 4-byte pointee exactly once.
    assert_eq!(
        pair.deep_size_of(),
        std::mem::size_of::<(std::sync::Arc<u32>, std::sync::Arc<u32>)>() + 4
    );

    let local = std::rc::Rc::new(2048u64);
    let pair = (local.clone(), local.clone());
    assert_eq!(
        pair.deep_size_of(),
        std::mem::size_of::<(std::rc::Rc<u64>, std::rc::Rc<u64>)>() + 8
    );
}

#[test]
fn aliasing_references_counted_once() {
    let target = 7u64;
    let pair = (&target, &target);
    // Two reference descriptors, and the 8-byte target exactly once.
    assert_eq!(
        pair.deep_size_of(),
        std::mem::size_of::<(&u64, &u64)>() + 8
    );
}

#[test]
fn distinct_targets_counted_separately() {
    let first = 7u64;
    let second = 9u64;
    let pair = (&first, &second);
    assert_eq!(
        pair.deep_size_of(),
        std::mem::size_of::<(&u64, &u64)>() + 8 + 8
    );
}

#[test]
fn hash_map_counts_buckets_and_children() {
    let mut map: HashMap<u64, Box<u8>> = HashMap::new();
    map.insert(1, Box::new(10));
    map.insert(2, Box::new(20));
    map.insert(3, Box::new(30));
    let bucket = std::mem::size_of::<Option<(u64, u64, Box<u8>)>>();
    assert_eq!(
        map.deep_size_of_children(&mut Context::new()),
        3 * 1 + map.capacity() * bucket
    );
}

#[test]
fn hash_set_counts_buckets_and_children() {
    let mut set: HashSet<u64> = HashSet::new();
    set.insert(4);
    set.insert(5);
    let bucket = std::mem::size_of::<Option<(u64, u64, ())>>();
    assert_eq!(
        set.deep_size_of_children(&mut Context::new()),
        set.capacity() * bucket
    );
}

#[test]
fn optional_counts_present_variant_only() {
    let present: Option<Box<u8>> = Some(Box::new(1));
    assert_eq!(present.deep_size_of_children(&mut Context::new()), 1);
    let absent: Option<Box<u8>> = None;
    assert_eq!(absent.deep_size_of_children(&mut Context::new()), 0);

    let success: Result<Box<u64>, u8> = Ok(Box::new(3));
    assert_eq!(success.deep_size_of_children(&mut Context::new()), 8);
    let failure: Result<Box<u64>, u8> = Err(2);
    assert_eq!(failure.deep_size_of_children(&mut Context::new()), 0);
}

#[test]
fn tuples_sum_their_components() {
    let single = (Box::new(1u32),);
    assert_eq!(single.deep_size_of_children(&mut Context::new()), 4);
    let triple = (1u8, Box::new(2u16), Box::new(3u32));
    assert_eq!(triple.deep_size_of_children(&mut Context::new()), 2 + 4);
    let quadruple = (1u8, 2u16, Box::new(3u32), Box::new(4u64));
    assert_eq!(quadruple.deep_size_of_children(&mut Context::new()), 4 + 8);
}

#[test]
fn fixed_arrays_sum_their_elements() {
    let array: [Box<u16>; 3] = [Box::new(1), Box::new(2), Box::new(3)];
    assert_eq!(array.deep_size_of_children(&mut Context::new()), 3 * 2);
}

#[test]
fn known_size_wrapper_reports_declared_bytes() {
    let opaque = KnownDeepSize { value: 3.5f64, owned_bytes: 40 };
    assert_eq!(opaque.deep_size_of_children(&mut Context::new()), 40);
}

#[test]
fn mark_and_check_is_per_identity_space() {
    let mut context = Context::new();
    assert_eq!(context.mark_and_check(SetKind::SharedAtomic, 51), false);
    assert_eq!(context.mark_and_check(SetKind::SharedAtomic, 51), true);
    // The same identity in another space is a different visit.
    assert_eq!(context.mark_and_check(SetKind::SharedLocal, 51), false);
    assert_eq!(context.mark_and_check(SetKind::Borrowed, 51), false);
    assert_eq!(context.mark_and_check(SetKind::Borrowed, 51), true);
}

#[test]
fn empty_containers_own_only_their_descriptors() {
    let empty: Vec<u64> = Vec::new();
    assert_eq!(empty.deep_size_of_children(&mut Context::new()), 0);
    assert_eq!(empty.deep_size_of(), std::mem::size_of::<Vec<u64>>());

    let text = String::new();
    assert_eq!(text.deep_size_of_children(&mut Context::new()), 0);
    assert_eq!(text.deep_size_of(), std::mem::size_of::<String>());

    let map: HashMap<u64, u64> = HashMap::new();
    assert_eq!(map.deep_size_of_children(&mut Context::new()), 0);

    let set: HashSet<u64> = HashSet::new();
    assert_eq!(set.deep_size_of_children(&mut Context::new()), 0);

    let deque: VecDeque<u64> = VecDeque::new();
    assert_eq!(deque.deep_size_of_children(&mut Context::new()), 0);

    let mut context = Context::new();
    assert_eq!(linked_list_children_size(&[] as &[u8], &mut context), 0);
}

#[test]
fn hash_map_counts_key_children_too() {
    let mut map: HashMap<Box<u64>, u8> = HashMap::new();
    map.insert(Box::new(1), 10);
    map.insert(Box::new(2), 20);
    map.insert(Box::new(3), 30);
    let bucket = std::mem::size_of::<Option<(u64, Box<u64>, u8)>>();
    assert_eq!(
        map.deep_size_of_children(&mut Context::new()),
        3 * 8 + map.capacity() * bucket
    );
}

#[test]
fn text_buffer_counts_bytes_not_characters() {
    // Six characters, twelve bytes of UTF-8: the policy counts the bytes.
    let text = String::from("ääääää");
    assert_eq!(text.chars().count(), 6);
    assert_eq!(text.capacity(), 12);
    assert_eq!(text.deep_size_of_children(&mut Context::new()), 12);
}

#[test]
fn immediate_sizes_are_the_values_own_storage() {
    assert_eq!(7u8.immediate_size(), 1);
    assert_eq!(7u64.immediate_size(), 8);
    assert_eq!('f'.immediate_size(), 4);
    assert_eq!(true.immediate_size(), 1);
    assert_eq!(Box::new(3u8).immediate_size(), std::mem::size_of::<usize>());
    assert_eq!(
        vec![1u64, 2u64].immediate_size(),
        std::mem::size_of::<Vec<u64>>()
    );
    let array: [u32; 4] = [0; 4];
    assert_eq!(array[..].immediate_size(), 16);
}

#[test]
fn recurse_measures_against_shared_context() {
    let shared = std::sync::Arc::new(3u32);
    let mut context = Context::new();
    let first = shared.recurse_deep_size_of(&mut context);
    let second = shared.recurse_deep_size_of(&mut context);
    // The first pass counts the handle and the pointee; the second pass,
    // against the same context, counts only the handle again.
    assert_eq!(first, std::mem::size_of::<std::sync::Arc<u32>>() + 4);
    assert_eq!(second, std::mem::size_of::<std::sync::Arc<u32>>());
}
