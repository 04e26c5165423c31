use deepsize::Context;
use deepsize::DataShape;
use deepsize::DeepSizeOf;
use deepsize::FieldsShape;
use deepsize::GenerateError;
use deepsize::field_sum_plan;

// A payload of 256 bytes, standing in for a heavily aligned element: the
// policies under test only read its size.
struct Test([u64; 32]);

impl DeepSizeOf for Test {
    fn immediate_size(&self) -> usize {
        std::mem::size_of::<Test>()
    }

    fn deep_size_of_children(&self, _context: &mut Context) -> usize {
        0
    }
}

// A 512-byte element: the payload above plus another 256 bytes of filler.
struct Test2(Test, [u64; 32]);

impl DeepSizeOf for Test2 {
    fn immediate_size(&self) -> usize {
        std::mem::size_of::<Test2>()
    }

    fn deep_size_of_children(&self, _context: &mut Context) -> usize {
        0
    }
}

#[test]
fn primitive_types() {
    assert_eq!(0u8.deep_size_of(), 1);
    assert_eq!(0u16.deep_size_of(), 2);
    assert_eq!(0u32.deep_size_of(), 4);
    assert_eq!(0u64.deep_size_of(), 8);
    assert_eq!(0usize.deep_size_of(), std::mem::size_of::<usize>());

    assert_eq!(0i8.deep_size_of(), 1);
    assert_eq!(0i16.deep_size_of(), 2);
    assert_eq!(0i32.deep_size_of(), 4);
    assert_eq!(0i64.deep_size_of(), 8);
    assert_eq!(0isize.deep_size_of(), std::mem::size_of::<isize>());

    assert_eq!('f'.deep_size_of(), 4);
    assert_eq!("Hello World!".deep_size_of(), 12);
    assert_eq!(true.deep_size_of(), 1);
}

#[test]
fn boxes() {
    let boxed = Box::new(0u32);
    assert_eq!(boxed.deep_size_of(), 4 + std::mem::size_of::<usize>());
}

#[test]
fn slices() {
    let array: [u32; 64] = [0; 64];
    assert_eq!(array[5..10].deep_size_of(), 4 * 5);
    assert_eq!(array[..32].deep_size_of(), 4 * 32);
    assert_eq!(
        DeepSizeOf::deep_size_of(&&array[..8]),
        4 * 8 + std::mem::size_of::<usize>() * 2
    );
}

#[test]
fn alignment() {
    let array: [Test; 3] = [Test([5; 32]), Test([16; 32]), Test([2; 32])];
    assert_eq!(std::mem::size_of::<[Test; 3]>(), array.deep_size_of());

    let vec = vec![Test([5; 32]), Test([16; 32]), Test([2; 32])];
    assert_eq!(vec.deep_size_of(), 256 * 3 + 24);

    let vec = vec![
        Test2(Test([5; 32]), [0; 32]),
        Test2(Test([16; 32]), [0; 32]),
        Test2(Test([2; 32]), [0; 32]),
    ];
    assert_eq!(vec.deep_size_of(), 512 * 3 + 24);
}

#[test]
fn context_arc_test() {
    let mut context = Context::new();

    let arc = std::sync::Arc::new(15);
    assert_eq!(context.contains_arc(&arc), false);
    context.add_arc(&arc);
    assert_eq!(context.contains_arc(&arc), true);
}

#[test]
fn context_rc_test() {
    let mut context = Context::new();

    let rc = std::rc::Rc::new(15);
    assert_eq!(context.contains_rc(&rc), false);
    context.add_rc(&rc);
    assert_eq!(context.contains_rc(&rc), true);
}

#[test]
fn context_ref_test() {
    let mut context = Context::new();

    let number = &42;
    assert_eq!(context.contains_ref(number), false);
    context.add_ref(number);
    assert_eq!(context.contains_ref(number), true);
}

#[test]
fn test_derive() {
    // A tagged union with unit, empty-tuple, tuple, named-field and
    // empty-named-field variants: the generator must refuse the whole
    // definition rather than emit an implementation for it.
    let shape = DataShape::Enum;
    let plan = field_sum_plan(&shape);
    assert!(matches!(plan, Err(GenerateError::EnumNotSupported)));
    assert!(!GenerateError::EnumNotSupported.message().is_empty());

    // Each variant's own shape would be a supported record on its own.
    let tuple_variant = DataShape::Struct(FieldsShape::Unnamed(2));
    assert!(field_sum_plan(&tuple_variant).is_ok());
    let named_variant = DataShape::Struct(FieldsShape::Named(vec![String::from("name")]));
    assert!(field_sum_plan(&named_variant).is_ok());
    let unit_variant = DataShape::Struct(FieldsShape::Unit);
    assert_eq!(field_sum_plan(&unit_variant).unwrap().len(), 0);
}
