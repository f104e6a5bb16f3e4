// The emitted text itself: exact output for each template shape, the
// fixed bundle order, the single conversion statement, and rejection of
// non-record declarations.

use ops_derive2::ops::{describe, OpKind};
use ops_derive2::schema::{extract, Decl, DeclBody, DeclField, ExtractError, FieldId};
use ops_derive2::{
    derive_add, derive_add_assign, derive_all, derive_div, derive_div_assign, derive_mul,
    derive_mul_assign, derive_neg, derive_sub, derive_sub_assign,
};

fn positional(name: &str, arity: usize) -> Decl {
    let mut fields = Vec::new();
    for _ in 0..arity {
        fields.push(DeclField { name: None });
    }
    Decl { name: name.to_string(), body: DeclBody::Record(fields) }
}

fn named(name: &str, field_names: &[&str]) -> Decl {
    let mut fields = Vec::new();
    for f in field_names {
        fields.push(DeclField { name: Some(f.to_string()) });
    }
    Decl { name: name.to_string(), body: DeclBody::Record(fields) }
}

#[test]
fn add_on_named_record_exact_text() {
    let decl = named("Vector2", &["x", "y"]);
    let out = derive_add(&decl).unwrap();
    let expected = "impl<T: Into<Vector2>> ::std::ops::Add<T> for Vector2 {\n\
                    \x20   type Output = Self;\n\
                    \x20   fn add(self, rhs: T) -> Self::Output {\n\
                    \x20       let rhs = rhs.into();\n\
                    \x20       Vector2 {\n\
                    \x20           x: self.x + rhs.x,\n\
                    \x20           y: self.y + rhs.y,\n\
                    \x20       }\n\
                    \x20   }\n\
                    }\n";
    assert_eq!(out, expected);
}

#[test]
fn add_assign_on_named_record_exact_text() {
    let decl = named("Vector2", &["x", "y"]);
    let out = derive_add_assign(&decl).unwrap();
    let expected = "impl<T: Into<Vector2>> ::std::ops::AddAssign<T> for Vector2 {\n\
                    \x20   fn add_assign(&mut self, rhs: T) {\n\
                    \x20       let rhs = rhs.into();\n\
                    \x20       *self = Vector2 {\n\
                    \x20           x: self.x + rhs.x,\n\
                    \x20           y: self.y + rhs.y,\n\
                    \x20       };\n\
                    \x20   }\n\
                    }\n";
    assert_eq!(out, expected);
}

#[test]
fn neg_on_positional_record_exact_text() {
    let decl = positional("Point", 2);
    let out = derive_neg(&decl).unwrap();
    let expected = "impl ::std::ops::Neg for Point {\n\
                    \x20   type Output = Self;\n\
                    \x20   fn neg(self) -> Self::Output {\n\
                    \x20       Point {\n\
                    \x20           0: -self.0,\n\
                    \x20           1: -self.1,\n\
                    \x20       }\n\
                    \x20   }\n\
                    }\n";
    assert_eq!(out, expected);
}

#[test]
fn positional_fields_keep_declaration_order() {
    let decl = positional("Point", 12);
    let out = derive_mul(&decl).unwrap();
    for i in 0..12 {
        let line = format!("            {i}: self.{i} * rhs.{i},\n");
        assert!(out.contains(&line));
    }
    // the lines appear in declaration order
    let mut last = 0;
    for i in 0..12 {
        let line = format!("            {i}: self.{i} * rhs.{i},\n");
        let at = out.find(&line).unwrap();
        assert!(at >= last);
        last = at;
    }
}

#[test]
fn every_binary_output_converts_exactly_once() {
    let decl = named("Big", &["a", "b", "c", "d", "e"]);
    let binary = [
        derive_add(&decl),
        derive_sub(&decl),
        derive_mul(&decl),
        derive_div(&decl),
        derive_add_assign(&decl),
        derive_sub_assign(&decl),
        derive_mul_assign(&decl),
        derive_div_assign(&decl),
    ];
    for out in binary {
        let text = out.unwrap();
        assert_eq!(text.matches("let rhs = rhs.into();").count(), 1);
        assert_eq!(text.matches(".into()").count(), 1);
    }
}

#[test]
fn neg_output_never_converts() {
    let decl = named("Big", &["a", "b", "c", "d", "e"]);
    let text = derive_neg(&decl).unwrap();
    assert_eq!(text.matches(".into()").count(), 0);
    assert_eq!(text.matches("rhs").count(), 0);
}

#[test]
fn each_kind_splices_its_own_symbol() {
    let decl = named("V", &["x"]);
    assert!(derive_add(&decl).unwrap().contains("x: self.x + rhs.x,"));
    assert!(derive_sub(&decl).unwrap().contains("x: self.x - rhs.x,"));
    assert!(derive_mul(&decl).unwrap().contains("x: self.x * rhs.x,"));
    assert!(derive_div(&decl).unwrap().contains("x: self.x / rhs.x,"));
    assert!(derive_add_assign(&decl).unwrap().contains("x: self.x + rhs.x,"));
    assert!(derive_sub_assign(&decl).unwrap().contains("x: self.x - rhs.x,"));
    assert!(derive_mul_assign(&decl).unwrap().contains("x: self.x * rhs.x,"));
    assert!(derive_div_assign(&decl).unwrap().contains("x: self.x / rhs.x,"));
    assert!(derive_neg(&decl).unwrap().contains("x: -self.x,"));
}

#[test]
fn bundle_is_the_nine_outputs_in_fixed_order() {
    let decl = named("Vector2", &["x", "y"]);
    let bundled = derive_all(&decl).unwrap();
    let mut expected = String::new();
    expected.push_str(&derive_add(&decl).unwrap());
    expected.push_str(&derive_sub(&decl).unwrap());
    expected.push_str(&derive_mul(&decl).unwrap());
    expected.push_str(&derive_div(&decl).unwrap());
    expected.push_str(&derive_add_assign(&decl).unwrap());
    expected.push_str(&derive_sub_assign(&decl).unwrap());
    expected.push_str(&derive_mul_assign(&decl).unwrap());
    expected.push_str(&derive_div_assign(&decl).unwrap());
    expected.push_str(&derive_neg(&decl).unwrap());
    assert_eq!(bundled, expected);
}

#[test]
fn identical_requests_emit_identical_bytes() {
    let decl = named("Vector2", &["x", "y"]);
    assert_eq!(derive_all(&decl).unwrap(), derive_all(&decl).unwrap());
    assert_eq!(derive_div(&decl).unwrap(), derive_div(&decl).unwrap());
}

#[test]
fn zero_field_record_gets_empty_bodied_literal() {
    let decl = positional("Unit", 0);
    let out = derive_add(&decl).unwrap();
    let expected = "impl<T: Into<Unit>> ::std::ops::Add<T> for Unit {\n\
                    \x20   type Output = Self;\n\
                    \x20   fn add(self, rhs: T) -> Self::Output {\n\
                    \x20       let rhs = rhs.into();\n\
                    \x20       Unit {\n\
                    \x20       }\n\
                    \x20   }\n\
                    }\n";
    assert_eq!(out, expected);
}

#[test]
fn enum_declaration_is_rejected() {
    let decl = Decl { name: "Direction".to_string(), body: DeclBody::Enum };
    assert_eq!(derive_add(&decl), Err(ExtractError::NotARecord));
    assert_eq!(derive_all(&decl), Err(ExtractError::NotARecord));
    assert_eq!(derive_neg(&decl), Err(ExtractError::NotARecord));
}

#[test]
fn union_declaration_is_rejected() {
    let decl = Decl { name: "Raw".to_string(), body: DeclBody::Union };
    assert!(matches!(extract(&decl), Err(ExtractError::NotARecord)));
    assert_eq!(derive_sub(&decl), Err(ExtractError::NotARecord));
}

#[test]
fn extraction_maps_names_and_positions() {
    let decl = Decl {
        name: "Mixed".to_string(),
        body: DeclBody::Record(vec![
            DeclField { name: Some("x".to_string()) },
            DeclField { name: None },
            DeclField { name: Some("z".to_string()) },
        ]),
    };
    let schema = extract(&decl).unwrap();
    assert_eq!(schema.name, "Mixed");
    assert_eq!(schema.fields.len(), 3);
    assert!(matches!(&schema.fields[0], FieldId::Named(n) if n == "x"));
    assert!(matches!(&schema.fields[1], FieldId::Index(1)));
    assert!(matches!(&schema.fields[2], FieldId::Named(n) if n == "z"));
}

#[test]
fn descriptor_table_is_exact() {
    let cases = [
        (OpKind::Add, "Add", "add", false, true),
        (OpKind::Sub, "Sub", "sub", false, true),
        (OpKind::Mul, "Mul", "mul", false, true),
        (OpKind::Div, "Div", "div", false, true),
        (OpKind::AddAssign, "AddAssign", "add_assign", true, false),
        (OpKind::SubAssign, "SubAssign", "sub_assign", true, false),
        (OpKind::MulAssign, "MulAssign", "mul_assign", true, false),
        (OpKind::DivAssign, "DivAssign", "div_assign", true, false),
        (OpKind::Neg, "Neg", "neg", false, false),
    ];
    for (kind, trait_name, method_name, in_place, alias) in cases {
        let d = describe(kind);
        assert_eq!(d.kind, kind);
        assert_eq!(d.trait_name, trait_name);
        assert_eq!(d.method_name, method_name);
        assert_eq!(d.mutates_in_place, in_place);
        assert_eq!(d.has_output_type_alias, alias);
    }
}

#[test]
fn positional_index_renders_in_decimal() {
    let cases: [(usize, &str); 5] =
        [(0, "0"), (7, "7"), (10, "10"), (105, "105"), (987654321, "987654321")];
    for (i, expected) in cases {
        let s = ops_derive2::schema::field_id_text(&FieldId::Index(i));
        assert_eq!(s, expected);
    }
}

#[test]
fn emitted_blocks_parse_as_host_source() {
    let named_decl = named("Vector2", &["x", "y"]);
    let positional_decl = positional("Point", 3);
    for decl in [&named_decl, &positional_decl] {
        let bundled = derive_all(decl).unwrap();
        let file = syn::parse_str::<syn::File>(&bundled).unwrap();
        assert_eq!(file.items.len(), 9);
        for item in &file.items {
            assert!(matches!(item, syn::Item::Impl(_)));
        }
    }
}
