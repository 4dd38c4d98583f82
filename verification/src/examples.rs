//! Worked examples of the generators' outputs: for each example enum, the
//! accessor and conversions below are written out as the generated code
//! would read, and their contracts pin them to the declaration's resolved
//! discriminant values.
use vstd::prelude::*;

use crate::generate::EnumDecl;
use crate::scan::{outcome_at, resolved_at, scan_ok};
use crate::variant::{
    DiscriminantExpr, DiscriminantExprView, VariantDecl, VariantDeclView, VariantKind,
};
use crate::width::PrimitiveRepresentation;
use crate::TryFromError;

verus! {

/// An enum declared as `Unit, Tuple(A) = 2, Struct { b: B }` with an 8-bit
/// unsigned backing representation; variants may carry data, so only the
/// discriminant-constants generator applies to it.
#[derive(Debug, Clone, Copy)]
pub enum MyGenericEnum<A, B> where A: Copy {
    /// The unit variant, resolving to 0.
    Unit,
    /// The positional-data variant, explicitly set to 2.
    Tuple(A),
    /// The named-field variant, resolving to 3.
    Struct {
        /// The carried field.
        b: B,
    },
}

impl<A: Copy, B> MyGenericEnum<A, B> {
    /// The discriminant each variant of the declaration resolves to.
    pub open spec fn spec_discriminant(self) -> u8 {
        match self {
            MyGenericEnum::Unit => 0,
            MyGenericEnum::Tuple(_) => 2,
            MyGenericEnum::Struct { .. } => 3,
        }
    }

    /// The accessor the discriminant-constants generator emits: the
    /// discriminant of the given instance.
    pub fn discriminant(&self) -> (d: u8)
        ensures
            d == self.spec_discriminant(),
    {
        match self {
            MyGenericEnum::Unit => 0,
            MyGenericEnum::Tuple(_) => 2,
            MyGenericEnum::Struct { .. } => 3,
        }
    }
}

/// An enum declared as `A, B = 2, C` with an 8-bit unsigned backing
/// representation; every variant is unit-like, so the integer conversions
/// apply to it.
#[derive(Debug, Clone, Copy, PartialEq, Eq, Structural)]
pub enum MyUnitEnum {
    /// Resolves to 0.
    A,
    /// Explicitly set to 2.
    B,
    /// Resolves to 3, continuing from the explicit 2.
    C,
}

impl MyUnitEnum {
    /// The discriminant each variant of the declaration resolves to.
    pub open spec fn spec_discriminant(self) -> u8 {
        match self {
            MyUnitEnum::A => 0,
            MyUnitEnum::B => 2,
            MyUnitEnum::C => 3,
        }
    }

    /// The accessor the discriminant-constants generator emits: the
    /// discriminant of the given instance.
    pub fn discriminant(&self) -> (d: u8)
        ensures
            d == self.spec_discriminant(),
    {
        match self {
            MyUnitEnum::A => 0,
            MyUnitEnum::B => 2,
            MyUnitEnum::C => 3,
        }
    }

    /// The to-integer conversion the generator emits: each variant maps to
    /// its resolved discriminant value.
    pub fn into_int(self) -> (d: u8)
        ensures
            d == self.spec_discriminant(),
    {
        self.discriminant()
    }

    /// The variant list of this enum's declaration, as the scan models it.
    pub open spec fn spec_declaration_variants() -> Seq<VariantDeclView> {
        seq![
            VariantDeclView { name: "A"@, kind: VariantKind::Unit, discriminant: None },
            VariantDeclView {
                name: "B"@,
                kind: VariantKind::Unit,
                discriminant: Some(DiscriminantExprView::IntLiteral("2"@)),
            },
            VariantDeclView { name: "C"@, kind: VariantKind::Unit, discriminant: None },
        ]
    }

    /// The structured description of this enum's declaration, as the
    /// generators consume it.
    pub fn declaration() -> (d: EnumDecl)
        ensures
            d@.name == "MyUnitEnum"@,
            d@.repr == seq!["u8"@],
            d@.variants == Self::spec_declaration_variants(),
    {
        let mut repr: Vec<String> = Vec::new();
        repr.push(String::from_str("u8"));
        let mut variants: Vec<VariantDecl> = Vec::new();
        variants.push(
            VariantDecl { name: String::from_str("A"), kind: VariantKind::Unit, discriminant: None },
        );
        variants.push(
            VariantDecl {
                name: String::from_str("B"),
                kind: VariantKind::Unit,
                discriminant: Some(DiscriminantExpr::IntLiteral(String::from_str("2"))),
            },
        );
        variants.push(
            VariantDecl { name: String::from_str("C"), kind: VariantKind::Unit, discriminant: None },
        );
        let d = EnumDecl { name: String::from_str("MyUnitEnum"), repr, variants };
        proof {
            assert(d@.repr =~= seq!["u8"@]);
            assert(d@.variants =~= Self::spec_declaration_variants());
        }
        d
    }

    /// The conversions written out above agree with the scan: the enum's
    /// declaration resolves without error, and each variant's resolved value
    /// is the one its conversions use.
    pub proof fn lemma_conversions_match_scan()
        ensures
            scan_ok(PrimitiveRepresentation::U8, Self::spec_declaration_variants()),
            forall|e: MyUnitEnum| #[trigger] e.spec_discriminant() == resolved_at(
                PrimitiveRepresentation::U8,
                Self::spec_declaration_variants(),
                Self::variant_position(e),
            ),
    {
        let vs = Self::spec_declaration_variants();
        let w = PrimitiveRepresentation::U8;
        assert(crate::literal::digits_val("2"@) == 2) by {
            reveal_strlit("2");
            assert("2"@.drop_last() =~= Seq::<char>::empty());
            assert(crate::literal::digits_val(Seq::<char>::empty()) == 0);
        }
        assert(crate::literal::is_int_literal("2"@)) by {
            reveal_strlit("2");
        }
        assert(outcome_at(w, vs, 0) == Ok::<nat, crate::variant::ErrorKind>(0));
        assert(outcome_at(w, vs, 1) == Ok::<nat, crate::variant::ErrorKind>(2));
        assert(outcome_at(w, vs, 2) == Ok::<nat, crate::variant::ErrorKind>(3));
        assert forall|i: int| 0 <= i < vs.len() implies outcome_at(w, vs, i) is Ok by {}
    }

    /// The position of each variant in the declaration.
    pub open spec fn variant_position(self) -> int {
        match self {
            MyUnitEnum::A => 0,
            MyUnitEnum::B => 1,
            MyUnitEnum::C => 2,
        }
    }

    /// The from-integer conversion the generator emits: the variant whose
    /// resolved value equals the given integer, else an invalid-value error
    /// naming the enum.
    pub fn try_from_int(value: u8) -> (r: Result<MyUnitEnum, TryFromError>)
        ensures
            r matches Ok(e) ==> e.spec_discriminant() == value,
            r is Ok <==> (value == 0 || value == 2 || value == 3),
            r matches Err(err) ==> err.spec_ident()@ == "MyUnitEnum"@,
    {
        match value {
            0 => Ok(MyUnitEnum::A),
            2 => Ok(MyUnitEnum::B),
            3 => Ok(MyUnitEnum::C),
            _ => Err(TryFromError::new("MyUnitEnum")),
        }
    }
}

} // verus!
