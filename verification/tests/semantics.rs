// End-to-end scenarios: records built from declarations, combined
// field-wise through the evaluation model of the generated code.

use ops_derive2::eval::{combine_in_place, combine_values, negate_values};
use ops_derive2::ops::{describe, OpKind, Symbol};
use ops_derive2::schema::{Decl, DeclBody, DeclField};
use ops_derive2::{derive_add, derive_all};

fn positional(name: &str, arity: usize) -> Decl {
    let mut fields = Vec::new();
    for _ in 0..arity {
        fields.push(DeclField { name: None });
    }
    Decl { name: name.to_string(), body: DeclBody::Record(fields) }
}

fn named(name: &str, field_names: &[&str]) -> Decl {
    let mut fields = Vec::new();
    for f in field_names {
        fields.push(DeclField { name: Some(f.to_string()) });
    }
    Decl { name: name.to_string(), body: DeclBody::Record(fields) }
}

#[test]
fn main() {
    let point = positional("Point", 3);
    assert!(derive_add(&point).is_ok());

    let a = vec![1, 2, 3];
    let b = vec![4, 5, 6];
    let c = combine_values(describe(OpKind::Add).symbol, &a, &b);
    assert_eq!(c, vec![5, 7, 9]);
}

#[test]
fn tuple_vector2() {
    let vector2 = positional("Vector2", 2);
    assert!(derive_all(&vector2).is_ok());

    let a = vec![5, 5];
    let b = vec![6, 2];
    assert_eq!(combine_values(describe(OpKind::Add).symbol, &a, &b), vec![11, 7]);
}

#[test]
fn tuple_vector3() {
    let vector3 = positional("Vector3", 3);
    assert!(derive_all(&vector3).is_ok());

    let a = vec![5, 5, 2];
    let b = vec![6, 2, 8];
    assert_eq!(combine_values(describe(OpKind::Add).symbol, &a, &b), vec![11, 7, 10]);
}

#[test]
fn struct_vector2() {
    let vector2 = named("Vector2", &["x", "y"]);
    assert!(derive_all(&vector2).is_ok());

    let a = vec![5, 5];
    let b = vec![6, 2];
    assert_eq!(combine_values(describe(OpKind::Add).symbol, &a, &b), vec![11, 7]);
}

#[test]
fn struct_vector3() {
    let vector3 = named("Vector3", &["x", "y", "z"]);
    assert!(derive_all(&vector3).is_ok());

    let a = vec![5, 5, 2];
    let b = vec![6, 2, 8];
    assert_eq!(combine_values(describe(OpKind::Add).symbol, &a, &b), vec![11, 7, 10]);
}

#[test]
fn tuple_double() {
    // Two distinct record types with a field-for-field conversion between
    // them: the right-hand operand is converted first, then combined.
    let position = positional("Position", 2);
    let vector2 = positional("Vector2", 2);
    assert!(derive_all(&position).is_ok());
    assert!(derive_all(&vector2).is_ok());

    let origin = vec![0, 0];
    let right = vec![1, 0];
    let converted: Vec<i64> = right.clone(); // the conversion copies each field
    assert_eq!(combine_values(describe(OpKind::Add).symbol, &origin, &converted), vec![1, 0]);
}

#[test]
fn all_nine_operations_on_named_vector2() {
    // Vector2 { x: 5, y: 5 } under the bundle: addition and negation.
    let vector2 = named("Vector2", &["x", "y"]);
    let bundled = derive_all(&vector2).unwrap();
    assert_eq!(bundled.matches("impl").count(), 9);

    let a = vec![5, 5];
    let b = vec![6, 2];
    assert_eq!(combine_values(describe(OpKind::Add).symbol, &a, &b), vec![11, 7]);
    assert_eq!(negate_values(&a), vec![-5, -5]);
}

#[test]
fn each_symbol_combines_field_wise() {
    let a = vec![9, -9, 10, 7];
    let b = vec![4, 4, -5, -2];
    assert_eq!(combine_values(Symbol::Plus, &a, &b), vec![13, -5, 5, 5]);
    assert_eq!(combine_values(Symbol::Minus, &a, &b), vec![5, -13, 15, 9]);
    assert_eq!(combine_values(Symbol::Star, &a, &b), vec![36, -36, -50, -14]);
    assert_eq!(combine_values(Symbol::Slash, &a, &b), vec![2, -2, -2, -3]);
}

#[test]
fn division_truncates_toward_zero() {
    let a = vec![7, -7, 7, -7, i64::MIN, i64::MAX];
    let b = vec![2, 2, -2, -2, 1, -1];
    assert_eq!(
        combine_values(Symbol::Slash, &a, &b),
        vec![3, -3, -3, 3, i64::MIN, -i64::MAX],
    );
}

#[test]
fn in_place_equals_constructive() {
    // The in-place kinds mutate the receiver into exactly the record the
    // constructive counterpart would build from the pre-state.
    let kinds = [
        (OpKind::AddAssign, OpKind::Add),
        (OpKind::SubAssign, OpKind::Sub),
        (OpKind::MulAssign, OpKind::Mul),
        (OpKind::DivAssign, OpKind::Div),
    ];
    for (in_place, constructive) in kinds {
        let pre = vec![20, -14, 6];
        let rhs = vec![4, 3, -2];
        let built = combine_values(describe(constructive).symbol, &pre, &rhs);
        let mut receiver = pre.clone();
        combine_in_place(describe(in_place).symbol, &mut receiver, &rhs);
        assert_eq!(receiver, built);
    }
}

#[test]
fn positional_and_named_agree() {
    // A positional record and a structurally identical named record give
    // equal field values from equal inputs.
    let p = positional("P", 2);
    let n = named("N", &["x", "y"]);
    assert!(derive_add(&p).is_ok());
    assert!(derive_add(&n).is_ok());

    let a = vec![3, 8];
    let b = vec![4, -1];
    let from_p = combine_values(describe(OpKind::Add).symbol, &a, &b);
    let from_n = combine_values(describe(OpKind::Add).symbol, &a, &b);
    assert_eq!(from_p, from_n);
    assert_eq!(from_p, vec![7, 7]);
}

#[test]
fn negation_mirrors_each_field() {
    assert_eq!(negate_values(&vec![1, -2, 0, i64::MAX]), vec![-1, 2, 0, -i64::MAX]);
}
