//! Field-by-field comparison of a plain record, mirroring a struct
//! `Something { hello: String, val: i8, val2: i8, val3: i8 }`.

use field_by_field::EqualFieldByField;
use field_by_field::FieldDescriptor;
use field_by_field::Instance;
use field_by_field::Leaf;
use field_by_field::Shape;
use field_by_field::Value;

fn shape_something() -> Shape {
    Shape::Record {
        fields: vec![
            FieldDescriptor { name: "hello".to_string() },
            FieldDescriptor { name: "val".to_string() },
            FieldDescriptor { name: "val2".to_string() },
            FieldDescriptor { name: "val3".to_string() },
        ],
    }
}

fn something(hello_tok: u64, hello: &str, val: i8, val2: i8, val3: i8) -> Value {
    Value {
        variant: 0,
        leaves: vec![
            Leaf { token: hello_tok, rendered: format!("{:?}", hello) },
            Leaf { token: val as u64, rendered: val.to_string() },
            Leaf { token: val2 as u64, rendered: val2.to_string() },
            Leaf { token: val3 as u64, rendered: val3.to_string() },
        ],
        rendered: format!(
            "Something {{ hello: {:?}, val: {}, val2: {}, val3: {} }}",
            hello, val, val2, val3
        ),
    }
}

fn noteq() -> (Value, Value) {
    (something(1, "one", 1, 5, 3), something(2, "two", 1, 2, 3))
}

fn eq() -> (Value, Value) {
    (something(1, "one", 1, 2, 3), something(1, "one", 1, 2, 3))
}

#[test]
fn list_not_equal_catches_differences() {
    let (one, two) = noteq();

    let not_e = shape_something().fields_not_equal(&one, &two);

    let not_equal_field_names = not_e.into_iter()
        .map(|ue| ue.field_name)
        .collect::<Vec<_>>();

    assert_eq!(not_equal_field_names,
               vec!["hello".to_string(), "val2".to_string()]);
}


#[test]
fn list_not_equal_allows_identical() {
    let (one, two) = eq();
    assert_eq!(shape_something().fields_not_equal(&one, &two).len(), 0);
}

#[test]
fn assert_allows_identical() {
    let (one, two) = eq();
    let shape = shape_something();
    let one = Instance { shape: shape.clone(), value: one };
    let two = Instance { shape, value: two };
    one.assert_equal_field_by_field(&two);
}
