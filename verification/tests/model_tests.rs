use deepsize::Context;
use deepsize::DataShape;
use deepsize::FieldRef;
use deepsize::FieldsShape;
use deepsize::GenerateError;
use deepsize::SetKind;
use deepsize::Value;
use deepsize::field_sum_plan;

const POINTER: usize = std::mem::size_of::<usize>();

#[test]
fn modeled_scalar_owns_nothing() {
    let scalar = Value::Scalar { size: 8 };
    assert_eq!(scalar.immediate_size(), 8);
    assert_eq!(scalar.owned_children_size(&mut Context::new()), 0);
    assert_eq!(scalar.total_size(), 8);
}

#[test]
fn modeled_box_owns_its_pointee() {
    let boxed = Value::Unique { pointee: Box::new(Value::Scalar { size: 4 }) };
    assert_eq!(boxed.immediate_size(), POINTER);
    assert_eq!(boxed.owned_children_size(&mut Context::new()), 4);
    assert_eq!(boxed.total_size(), POINTER + 4);
}

#[test]
fn modeled_record_sums_fields() {
    let record = Value::Record {
        fields: vec![
            Value::Scalar { size: 4 },
            Value::Unique { pointee: Box::new(Value::Scalar { size: 1 }) },
        ],
    };
    assert_eq!(record.immediate_size(), 4 + POINTER);
    assert_eq!(record.owned_children_size(&mut Context::new()), 1);
    assert_eq!(record.total_size(), 4 + POINTER + 1);
}

#[test]
fn modeled_shared_pair_counts_target_once() {
    let record = Value::Record {
        fields: vec![
            Value::Aliased {
                kind: SetKind::SharedAtomic,
                id: 7,
                pointee: Box::new(Value::Scalar { size: 100 }),
            },
            Value::Aliased {
                kind: SetKind::SharedAtomic,
                id: 7,
                pointee: Box::new(Value::Scalar { size: 100 }),
            },
        ],
    };
    // Two pointer-wide handles; the 100-byte target exactly once.
    assert_eq!(record.total_size(), 2 * POINTER + 100);
}

#[test]
fn modeled_borrowed_pair_counts_target_once() {
    let record = Value::Record {
        fields: vec![
            Value::Aliased {
                kind: SetKind::Borrowed,
                id: 3,
                pointee: Box::new(Value::Scalar { size: 9 }),
            },
            Value::Aliased {
                kind: SetKind::Borrowed,
                id: 3,
                pointee: Box::new(Value::Scalar { size: 9 }),
            },
        ],
    };
    assert_eq!(record.total_size(), 2 * POINTER + 9);
}

#[test]
fn modeled_distinct_identities_count_separately() {
    let record = Value::Record {
        fields: vec![
            Value::Aliased {
                kind: SetKind::SharedLocal,
                id: 1,
                pointee: Box::new(Value::Scalar { size: 10 }),
            },
            Value::Aliased {
                kind: SetKind::SharedLocal,
                id: 2,
                pointee: Box::new(Value::Scalar { size: 10 }),
            },
        ],
    };
    assert_eq!(record.total_size(), 2 * POINTER + 10 + 10);
}

#[test]
fn modeled_context_carries_across_siblings() {
    // The same identity deeper in the second sibling is still deduplicated:
    // one context runs through the whole measurement.
    let record = Value::Record {
        fields: vec![
            Value::Aliased {
                kind: SetKind::SharedAtomic,
                id: 42,
                pointee: Box::new(Value::Scalar { size: 50 }),
            },
            Value::Unique {
                pointee: Box::new(Value::Aliased {
                    kind: SetKind::SharedAtomic,
                    id: 42,
                    pointee: Box::new(Value::Scalar { size: 50 }),
                }),
            },
        ],
    };
    // First handle: 50-byte target. Second field: a box owning one more
    // pointer-wide handle whose target is already counted.
    assert_eq!(record.total_size(), 2 * POINTER + 50 + POINTER);
}

#[test]
fn modeled_empty_record_is_weightless() {
    let record = Value::Record { fields: vec![] };
    assert_eq!(record.immediate_size(), 0);
    assert_eq!(record.owned_children_size(&mut Context::new()), 0);
    assert_eq!(record.total_size(), 0);
}

#[test]
fn modeled_many_handles_count_target_once() {
    let handle = |id: usize| Value::Aliased {
        kind: SetKind::SharedAtomic,
        id,
        pointee: Box::new(Value::Scalar { size: 64 }),
    };
    let record = Value::Record { fields: vec![handle(9), handle(9), handle(9), handle(9)] };
    // Four pointer-wide handles; the 64-byte target exactly once.
    assert_eq!(record.total_size(), 4 * POINTER + 64);
}

#[test]
fn named_field_plan_lists_every_field() {
    let shape = DataShape::Struct(FieldsShape::Named(vec![
        String::from("a"),
        String::from("b"),
    ]));
    let plan = field_sum_plan(&shape).unwrap();
    assert_eq!(plan.len(), 2);
    assert!(matches!(&plan[0], FieldRef::Named(name) if name == "a"));
    assert!(matches!(&plan[1], FieldRef::Named(name) if name == "b"));
}

#[test]
fn positional_field_plan_lists_every_index() {
    let shape = DataShape::Struct(FieldsShape::Unnamed(3));
    let plan = field_sum_plan(&shape).unwrap();
    assert_eq!(plan.len(), 3);
    for (i, field) in plan.iter().enumerate() {
        assert!(matches!(field, FieldRef::Positional(index) if *index == i));
    }
}

#[test]
fn union_is_refused_with_a_diagnostic() {
    let plan = field_sum_plan(&DataShape::Union);
    assert!(matches!(plan, Err(GenerateError::UnionNotSupported)));
    let message = GenerateError::UnionNotSupported.message();
    assert!(message.contains("not supported"));
}
