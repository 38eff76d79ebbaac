//! Behavior of the diff engine and assertion wrapper on edge cases: full
//! (no-short-circuit) record walks, cross-variant collapse contents,
//! multi-digit tuple indices, empty shapes, and the report text.

use field_by_field::check_equal_field_by_field;
use field_by_field::EqualFieldByField;
use field_by_field::FieldDescriptor;
use field_by_field::Instance;
use field_by_field::Leaf;
use field_by_field::Shape;
use field_by_field::Value;
use field_by_field::VariantDescriptor;
use field_by_field::VariantKind;

fn leaf(token: u64, rendered: &str) -> Leaf {
    Leaf { token, rendered: rendered.to_string() }
}

fn record_shape(names: &[&str]) -> Shape {
    Shape::Record {
        fields: names.iter().map(|n| FieldDescriptor { name: n.to_string() }).collect(),
    }
}

#[test]
fn no_short_circuit_middle_fields() {
    let shape = record_shape(&["w", "x", "y", "z"]);
    let a = Value {
        variant: 0,
        leaves: vec![leaf(1, "1"), leaf(2, "2"), leaf(3, "3"), leaf(4, "4")],
        rendered: "R { w: 1, x: 2, y: 3, z: 4 }".to_string(),
    };
    let b = Value {
        variant: 0,
        leaves: vec![leaf(1, "1"), leaf(9, "9"), leaf(3, "3"), leaf(8, "8")],
        rendered: "R { w: 1, x: 9, y: 3, z: 8 }".to_string(),
    };
    let names = shape
        .fields_not_equal(&a, &b)
        .into_iter()
        .map(|ue| ue.field_name)
        .collect::<Vec<_>>();
    assert_eq!(names, vec!["x".to_string(), "z".to_string()]);
}

#[test]
fn reflexive_on_mixed_value() {
    let shape = Shape::Enum {
        name: "Mixed".to_string(),
        variants: vec![
            VariantDescriptor {
                name: "Pair".to_string(),
                kind: VariantKind::Struct {
                    fields: vec![
                        FieldDescriptor { name: "left".to_string() },
                        FieldDescriptor { name: "right".to_string() },
                    ],
                },
            },
            VariantDescriptor { name: "Nothing".to_string(), kind: VariantKind::Unit },
        ],
    };
    let v = Value {
        variant: 0,
        leaves: vec![leaf(11, "11"), leaf(22, "22")],
        rendered: "Pair { left: 11, right: 22 }".to_string(),
    };
    assert_eq!(shape.fields_not_equal(&v, &v.clone()).len(), 0);
    let one = Instance { shape: shape.clone(), value: v.clone() };
    let two = Instance { shape, value: v };
    one.assert_equal_field_by_field(&two);
}

#[test]
fn tuple_same_variant_equal_is_empty() {
    let shape = Shape::Enum {
        name: "TupleEnum".to_string(),
        variants: vec![
            VariantDescriptor { name: "One".to_string(), kind: VariantKind::Tuple { arity: 2 } },
            VariantDescriptor { name: "Two".to_string(), kind: VariantKind::Tuple { arity: 2 } },
        ],
    };
    let a = Value {
        variant: 1,
        leaves: vec![leaf(9, "9"), leaf(8, "8")],
        rendered: "Two(9, 8)".to_string(),
    };
    assert_eq!(shape.fields_not_equal(&a, &a.clone()).len(), 0);
}

#[test]
fn cross_variant_reports_whole_renderings() {
    let shape = Shape::Enum {
        name: "StructEnum".to_string(),
        variants: vec![
            VariantDescriptor {
                name: "One".to_string(),
                kind: VariantKind::Struct {
                    fields: vec![FieldDescriptor { name: "two".to_string() }],
                },
            },
            VariantDescriptor {
                name: "Two".to_string(),
                kind: VariantKind::Struct {
                    fields: vec![FieldDescriptor { name: "a".to_string() }],
                },
            },
        ],
    };
    let a = Value {
        variant: 0,
        leaves: vec![leaf(2, "2")],
        rendered: "One { two: 2 }".to_string(),
    };
    let b = Value {
        variant: 1,
        leaves: vec![leaf(1, "1")],
        rendered: "Two { a: 1 }".to_string(),
    };
    let diffs = shape.fields_not_equal(&a, &b);
    assert_eq!(diffs.len(), 1);
    assert_eq!(diffs[0].field_name, "StructEnum::One");
    assert_eq!(diffs[0].actually, "One { two: 2 }");
    assert_eq!(diffs[0].expected, "Two { a: 1 }");
}

#[test]
fn unit_cross_variant_reports_label_as_actual() {
    let shape = Shape::Enum {
        name: "UnitEnum".to_string(),
        variants: vec![
            VariantDescriptor { name: "One".to_string(), kind: VariantKind::Unit },
            VariantDescriptor { name: "Two".to_string(), kind: VariantKind::Unit },
        ],
    };
    let a = Value { variant: 0, leaves: vec![], rendered: "One".to_string() };
    let b = Value { variant: 1, leaves: vec![], rendered: "Two".to_string() };
    let diffs = shape.fields_not_equal(&a, &b);
    assert_eq!(diffs.len(), 1);
    assert_eq!(diffs[0].field_name, "UnitEnum::One");
    assert_eq!(diffs[0].actually, "UnitEnum::One");
    assert_eq!(diffs[0].expected, "Two");
}

#[test]
fn single_variant_never_collapses() {
    let shape = Shape::Enum {
        name: "Sole".to_string(),
        variants: vec![
            VariantDescriptor { name: "Only".to_string(), kind: VariantKind::Tuple { arity: 1 } },
        ],
    };
    let a = Value { variant: 0, leaves: vec![leaf(1, "1")], rendered: "Only(1)".to_string() };
    let b = Value { variant: 0, leaves: vec![leaf(2, "2")], rendered: "Only(2)".to_string() };
    let diffs = shape.fields_not_equal(&a, &b);
    assert_eq!(diffs.len(), 1);
    assert_eq!(diffs[0].field_name, "Sole::Only.0");
    assert_eq!(shape.fields_not_equal(&a, &a.clone()).len(), 0);
}

#[test]
fn empty_record_never_differs() {
    let shape = record_shape(&[]);
    let a = Value { variant: 0, leaves: vec![], rendered: "Unit".to_string() };
    assert_eq!(shape.fields_not_equal(&a, &a.clone()).len(), 0);
}

#[test]
fn two_digit_tuple_index() {
    let shape = Shape::Enum {
        name: "Wide".to_string(),
        variants: vec![
            VariantDescriptor { name: "Big".to_string(), kind: VariantKind::Tuple { arity: 12 } },
            VariantDescriptor { name: "Small".to_string(), kind: VariantKind::Unit },
        ],
    };
    let mut xs: Vec<Leaf> = Vec::new();
    let mut ys: Vec<Leaf> = Vec::new();
    for i in 0..12u64 {
        xs.push(leaf(i, "i"));
        ys.push(leaf(if i == 11 { 99 } else { i }, "j"));
    }
    let a = Value { variant: 0, leaves: xs, rendered: "Big(..)".to_string() };
    let b = Value { variant: 0, leaves: ys, rendered: "Big(..)".to_string() };
    let names = shape
        .fields_not_equal(&a, &b)
        .into_iter()
        .map(|ue| ue.field_name)
        .collect::<Vec<_>>();
    assert_eq!(names, vec!["Wide::Big.11".to_string()]);
}

#[test]
fn check_reports_exact_text() {
    let shape = record_shape(&["a", "b"]);
    let one = Value {
        variant: 0,
        leaves: vec![leaf(1, "1"), leaf(10, "\"x\"")],
        rendered: "R { a: 1, b: \"x\" }".to_string(),
    };
    let two = Value {
        variant: 0,
        leaves: vec![leaf(2, "2"), leaf(20, "\"y\"")],
        rendered: "R { a: 2, b: \"y\" }".to_string(),
    };
    let msg = check_equal_field_by_field(&shape, &one, &two).expect("a mismatch is owed");
    let wanted = "\n    Items are not equal:\n\
                  \x20       a: 1 != 2\n\
                  \x20       b: \"x\" != \"y\"\n\
                  \x20   actually: R { a: 1, b: \"x\" }\n\
                  \x20   expected: R { a: 2, b: \"y\" }\n";
    assert_eq!(msg, wanted);
}

#[test]
fn check_is_silent_exactly_when_equal() {
    let shape = record_shape(&["a"]);
    let one = Value {
        variant: 0,
        leaves: vec![leaf(1, "1")],
        rendered: "R { a: 1 }".to_string(),
    };
    let two = Value {
        variant: 0,
        leaves: vec![leaf(2, "2")],
        rendered: "R { a: 2 }".to_string(),
    };
    assert!(check_equal_field_by_field(&shape, &one, &one.clone()).is_none());
    assert!(check_equal_field_by_field(&shape, &one, &two).is_some());
}
