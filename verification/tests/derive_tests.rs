use enum_discrim::examples::{MyGenericEnum, MyUnitEnum};
use enum_discrim::generate::{
    derive_discriminants, derive_into, derive_try_from, lookup_value, EnumDecl, GenerateError,
};
use enum_discrim::variant::{DiscriminantExpr, VariantDecl, VariantKind};
use enum_discrim::TryFromError;

fn unit(name: &str) -> VariantDecl {
    VariantDecl { name: name.to_string(), kind: VariantKind::Unit, discriminant: None }
}

fn unit_lit(name: &str, digits: &str) -> VariantDecl {
    VariantDecl {
        name: name.to_string(),
        kind: VariantKind::Unit,
        discriminant: Some(DiscriminantExpr::IntLiteral(digits.to_string())),
    }
}

fn decl(name: &str, repr: Option<&str>, variants: Vec<VariantDecl>) -> EnumDecl {
    EnumDecl {
        name: name.to_string(),
        repr: repr.map(|s| s.to_string()).into_iter().collect(),
        variants,
    }
}

#[test]
fn discriminants() {
    let d = decl(
        "E",
        Some("u8"),
        vec![
            unit("A"),
            VariantDecl {
                name: "B".to_string(),
                kind: VariantKind::Tuple,
                discriminant: Some(DiscriminantExpr::IntLiteral("2".to_string())),
            },
            VariantDecl { name: "C".to_string(), kind: VariantKind::Struct, discriminant: None },
        ],
    );
    let out = derive_discriminants(&d).unwrap();
    assert_eq!(out.consts[0].const_name, "A_D");
    assert_eq!(out.consts[0].value, 0);
    assert_eq!(out.consts[1].const_name, "B_D");
    assert_eq!(out.consts[1].value, 2);
    assert_eq!(out.consts[2].const_name, "C_D");
    assert_eq!(out.consts[2].value, 3);
    assert_eq!(MyGenericEnum::<&str, i32>::Unit.discriminant(), 0_u8);
    assert_eq!(MyGenericEnum::<&str, i32>::Tuple("hello").discriminant(), 2_u8);
    assert_eq!(MyGenericEnum::<&str, i32>::Struct { b: 42 }.discriminant(), 3_u8);
}

#[test]
fn into() {
    let d = decl("E", Some("u8"), vec![unit("A"), unit_lit("B", "2"), unit("C")]);
    let out = derive_into(&d).unwrap();
    assert_eq!(out.arms[0].value, 0);
    assert_eq!(out.arms[1].value, 2);
    assert_eq!(out.arms[2].value, 3);
    assert_eq!(MyUnitEnum::A.into_int(), 0_u8);
    assert_eq!(MyUnitEnum::B.into_int(), 2_u8);
    assert_eq!(MyUnitEnum::C.into_int(), 3_u8);
}

#[test]
fn try_from() {
    let d = decl("E", Some("u8"), vec![unit("A"), unit_lit("B", "2"), unit("C")]);
    let out = derive_try_from(&d).unwrap();
    assert_eq!(lookup_value(&out.arms, 0), Some(0));
    assert_eq!(lookup_value(&out.arms, 2), Some(1));
    assert_eq!(lookup_value(&out.arms, 3), Some(2));
    assert_eq!(lookup_value(&out.arms, 1), None);
    assert_eq!(MyUnitEnum::try_from_int(0).unwrap(), MyUnitEnum::A);
    assert_eq!(MyUnitEnum::try_from_int(2).unwrap(), MyUnitEnum::B);
    assert_eq!(MyUnitEnum::try_from_int(3).unwrap(), MyUnitEnum::C);
    assert!(MyUnitEnum::try_from_int(1).is_err());
}

#[test]
fn implicit_variants_number_sequentially() {
    let d = decl("E", Some("u8"), vec![unit("A"), unit("B"), unit("C"), unit("D")]);
    let out = derive_discriminants(&d).unwrap();
    let values: Vec<u128> = out.consts.iter().map(|c| c.value).collect();
    assert_eq!(values, vec![0, 1, 2, 3]);
}

#[test]
fn missing_width_fails_generation() {
    let d = decl("E", None, vec![unit("A")]);
    assert!(matches!(derive_discriminants(&d), Err(GenerateError::MissingWidth)));
    assert!(matches!(derive_into(&d), Err(GenerateError::MissingWidth)));
    assert!(matches!(derive_try_from(&d), Err(GenerateError::MissingWidth)));
}

#[test]
fn ambiguous_width_fails_generation() {
    let d = EnumDecl {
        name: "E".to_string(),
        repr: vec!["u8".to_string(), "u16".to_string()],
        variants: vec![unit("A")],
    };
    assert!(matches!(derive_discriminants(&d), Err(GenerateError::AmbiguousWidth)));
    assert!(matches!(derive_into(&d), Err(GenerateError::AmbiguousWidth)));
    assert!(matches!(derive_try_from(&d), Err(GenerateError::AmbiguousWidth)));
}

#[test]
fn unrecognized_width_fails_generation() {
    let d = decl("E", Some("u7"), vec![unit("A")]);
    assert!(matches!(derive_discriminants(&d), Err(GenerateError::UnrecognizedWidth)));
    assert!(matches!(derive_into(&d), Err(GenerateError::UnrecognizedWidth)));
    assert!(matches!(derive_try_from(&d), Err(GenerateError::UnrecognizedWidth)));
}

#[test]
fn data_variant_rejected_by_conversions() {
    let d = decl(
        "E",
        Some("u8"),
        vec![
            unit("A"),
            VariantDecl { name: "B".to_string(), kind: VariantKind::Tuple, discriminant: None },
        ],
    );
    assert!(matches!(derive_into(&d), Err(GenerateError::NotAllVariantsUnit)));
    assert!(matches!(derive_try_from(&d), Err(GenerateError::NotAllVariantsUnit)));
    assert!(derive_discriminants(&d).is_ok());
}

#[test]
fn empty_enum_generates_nothing() {
    let d = decl("E", Some("u8"), vec![]);
    let consts = derive_discriminants(&d).unwrap();
    assert_eq!(consts.consts.len(), 0);
    assert!(derive_into(&d).unwrap().arms.is_empty());
    let from = derive_try_from(&d).unwrap();
    for value in [0_u128, 1, 2, 255] {
        assert_eq!(lookup_value(&from.arms, value), None);
    }
}

#[test]
fn example_conversions_agree_with_the_generators() {
    let d = MyUnitEnum::declaration();
    assert_eq!(d.name, "MyUnitEnum");
    let to_int = derive_into(&d).unwrap();
    for (variant, index) in [(MyUnitEnum::A, 0), (MyUnitEnum::B, 1), (MyUnitEnum::C, 2)] {
        assert_eq!(to_int.arms[index].value, variant.into_int() as u128);
        assert_eq!(variant.discriminant(), variant.into_int());
    }
    let from_int = derive_try_from(&d).unwrap();
    for value in 0..=255_u8 {
        let generated = lookup_value(&from_int.arms, value as u128);
        match MyUnitEnum::try_from_int(value) {
            Ok(variant) => {
                let index = generated.expect("generated match must accept this value");
                assert_eq!(from_int.arms[index].value, variant.into_int() as u128);
            }
            Err(err) => {
                assert_eq!(generated, None);
                assert_eq!(err.message(), "Tried to convert an invalid value into a MyUnitEnum");
            }
        }
    }
}

#[test]
fn try_from_error_message_names_the_enum() {
    let err = TryFromError::new("E");
    assert_eq!(err.message(), "Tried to convert an invalid value into a E");
    let my_err = MyUnitEnum::try_from_int(7).unwrap_err();
    assert_eq!(my_err.message(), "Tried to convert an invalid value into a MyUnitEnum");
}
