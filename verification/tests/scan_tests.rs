use enum_discrim::scan::scan_variants;
use enum_discrim::variant::{DiscriminantExpr, ErrorKind, VariantDecl, VariantKind};
use enum_discrim::width::PrimitiveRepresentation;

fn unit(name: &str) -> VariantDecl {
    VariantDecl { name: name.to_string(), kind: VariantKind::Unit, discriminant: None }
}

fn unit_lit(name: &str, digits: &str) -> VariantDecl {
    VariantDecl {
        name: name.to_string(),
        kind: VariantKind::Unit,
        discriminant: Some(DiscriminantExpr::IntLiteral(digits.to_string())),
    }
}

fn wrap_case(width: PrimitiveRepresentation, max_literal: &str, expected_bits: u128) {
    let variants = vec![unit_lit("Last", max_literal), unit("Wrapped")];
    let resolved = scan_variants(&variants, width).unwrap();
    assert_eq!(resolved[0].value, max_literal.parse::<u128>().unwrap());
    assert_eq!(resolved[1].value, expected_bits);
}

#[test]
fn wraparound_at_unsigned_maxima() {
    wrap_case(PrimitiveRepresentation::U8, "255", 0);
    wrap_case(PrimitiveRepresentation::U16, "65535", 0);
    wrap_case(PrimitiveRepresentation::U32, "4294967295", 0);
    wrap_case(PrimitiveRepresentation::U64, "18446744073709551615", 0);
    wrap_case(PrimitiveRepresentation::U128, "340282366920938463463374607431768211455", 0);
    wrap_case(PrimitiveRepresentation::Usize, "18446744073709551615", 0);
}

#[test]
fn wraparound_at_signed_maxima() {
    // The wrapped bit pattern is the sign bit alone: the width's minimum
    // negative value in two's complement.
    wrap_case(PrimitiveRepresentation::I8, "127", 128);
    wrap_case(PrimitiveRepresentation::I16, "32767", 32768);
    wrap_case(PrimitiveRepresentation::I32, "2147483647", 2147483648);
    wrap_case(PrimitiveRepresentation::I64, "9223372036854775807", 9223372036854775808);
    wrap_case(
        PrimitiveRepresentation::I128,
        "170141183460469231731687303715884105727",
        170141183460469231731687303715884105728,
    );
    wrap_case(PrimitiveRepresentation::Isize, "9223372036854775807", 9223372036854775808);
}

#[test]
fn out_of_range_literal_names_the_variant() {
    let variants = vec![unit("A"), unit_lit("B", "256"), unit("C")];
    let errors = scan_variants(&variants, PrimitiveRepresentation::U8).unwrap_err();
    assert_eq!(errors.len(), 1);
    assert_eq!(errors[0].variant_index, 1);
    assert_eq!(errors[0].variant_name, "B");
    assert_eq!(errors[0].kind, ErrorKind::OutOfRange);
}

#[test]
fn two_out_of_range_literals_give_two_errors() {
    let variants = vec![unit_lit("A", "300"), unit("B"), unit_lit("C", "999")];
    let errors = scan_variants(&variants, PrimitiveRepresentation::U8).unwrap_err();
    assert_eq!(errors.len(), 2);
    assert_eq!(errors[0].variant_index, 0);
    assert_eq!(errors[0].kind, ErrorKind::OutOfRange);
    assert_eq!(errors[1].variant_index, 2);
    assert_eq!(errors[1].kind, ErrorKind::OutOfRange);
}

#[test]
fn non_literal_discriminant_is_rejected() {
    let variants = vec![
        VariantDecl {
            name: "A".to_string(),
            kind: VariantKind::Unit,
            discriminant: Some(DiscriminantExpr::Other),
        },
        unit_lit("B", "1x2"),
    ];
    let errors = scan_variants(&variants, PrimitiveRepresentation::U32).unwrap_err();
    assert_eq!(errors.len(), 2);
    assert_eq!(errors[0].kind, ErrorKind::NotIntegerLiteral);
    assert_eq!(errors[1].kind, ErrorKind::NotIntegerLiteral);
}

#[test]
fn invalid_literal_does_not_corrupt_the_sequence() {
    // The invalid literal leaves the running value where the last
    // successfully resolved variant put it.
    let variants = vec![unit_lit("A", "5"), unit_lit("B", "900"), unit("C")];
    let errors = scan_variants(&variants, PrimitiveRepresentation::U8).unwrap_err();
    assert_eq!(errors.len(), 1);
    assert_eq!(errors[0].variant_index, 1);
    let repaired = vec![unit_lit("A", "5"), unit("C")];
    let resolved = scan_variants(&repaired, PrimitiveRepresentation::U8).unwrap();
    assert_eq!(resolved[1].value, 6);
}

#[test]
fn signed_literal_range_is_the_signed_maximum() {
    let variants = vec![unit_lit("A", "128")];
    let errors = scan_variants(&variants, PrimitiveRepresentation::I8).unwrap_err();
    assert_eq!(errors[0].kind, ErrorKind::OutOfRange);
    let ok = vec![unit_lit("A", "127")];
    assert_eq!(scan_variants(&ok, PrimitiveRepresentation::I8).unwrap()[0].value, 127);
}

#[test]
fn width_spellings_parse() {
    for (text, mask) in [
        ("u8", 0xff_u128),
        ("u16", 0xffff),
        ("u32", 0xffff_ffff),
        ("u64", 0xffff_ffff_ffff_ffff),
        ("u128", u128::MAX),
        ("usize", 0xffff_ffff_ffff_ffff),
        ("i8", 0xff),
        ("i16", 0xffff),
        ("i32", 0xffff_ffff),
        ("i64", 0xffff_ffff_ffff_ffff),
        ("i128", u128::MAX),
        ("isize", 0xffff_ffff_ffff_ffff),
    ] {
        let width = PrimitiveRepresentation::from_str(text).unwrap();
        assert_eq!(width.mask(), mask);
    }
    assert!(PrimitiveRepresentation::from_str("f32").is_err());
    assert!(PrimitiveRepresentation::from_str("").is_err());
    assert!(PrimitiveRepresentation::from_str("U8").is_err());
}

#[test]
fn validation_error_message_names_the_variant() {
    let variants = vec![unit_lit("Bad", "256")];
    let errors = scan_variants(&variants, PrimitiveRepresentation::U8).unwrap_err();
    assert_eq!(errors[0].message(), "Discriminant out of range for the declared width: Bad");
}
