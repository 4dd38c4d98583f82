//! The three generators: discriminant constants, to-integer conversion and
//! from-integer conversion. Each selects the enum's declared width, runs the
//! discriminant scan, and folds the resolved values into its own output
//! shape; any validation failure aborts generation with the complete set of
//! errors.
use vstd::prelude::*;

use crate::scan::{resolved_at, scan_errors, scan_ok, scan_variants, ResolvedDiscriminant};
use crate::variant::{decl_views, error_views, ValidationError, VariantDecl, VariantDeclView, VariantKind};
use crate::width::{mask_of, width_of_spelling, PrimitiveRepresentation};

verus! {

/// The structured description of one enum declaration: its name, the
/// spellings of its attached integer-width declarations, and its ordered
/// variants.
#[derive(Debug)]
pub struct EnumDecl {
    /// The enum's name.
    pub name: String,
    /// The spellings of the declared backing representations, in source
    /// order; exactly one must be attached for generation to proceed.
    pub repr: Vec<String>,
    /// The enum's variants, in source order.
    pub variants: Vec<VariantDecl>,
}

/// Mathematical model of an [`EnumDecl`].
pub struct EnumDeclView {
    /// The enum's name.
    pub name: Seq<char>,
    /// The spellings of the declared backing representations.
    pub repr: Seq<Seq<char>>,
    /// The enum's variants, in source order.
    pub variants: Seq<VariantDeclView>,
}

impl View for EnumDecl {
    type V = EnumDeclView;

    open spec fn view(&self) -> EnumDeclView {
        EnumDeclView {
            name: self.name@,
            repr: self.repr@.map_values(|s: String| s@),
            variants: decl_views(self.variants@),
        }
    }
}

/// An error aborting a whole generation pass; no code is emitted.
#[derive(Debug)]
pub enum GenerateError {
    /// No integer-width declaration is attached to the enum.
    MissingWidth,
    /// More than one integer-width declaration is attached to the enum.
    AmbiguousWidth,
    /// The width declaration's spelling is not one of the twelve
    /// recognized primitive representations.
    UnrecognizedWidth,
    /// A conversion generator was applied to an enum with a data-carrying
    /// variant.
    NotAllVariantsUnit,
    /// One entry per variant whose explicit discriminant is invalid, in
    /// source order.
    Invalid(Vec<ValidationError>),
}

/// Whether every variant of the declaration is unit-like.
pub open spec fn all_unit(vs: Seq<VariantDeclView>) -> bool {
    forall|i: int| 0 <= i < vs.len() ==> (#[trigger] vs[i].kind) == VariantKind::Unit
}

/// The width the enum's attached metadata selects, if exactly one width
/// declaration is present and its spelling is recognized.
pub open spec fn selected_width(repr: Seq<Seq<char>>) -> Option<PrimitiveRepresentation> {
    if repr.len() == 1 {
        width_of_spelling(repr[0])
    } else {
        None
    }
}

/// Locates the single integer width the enum's metadata declares: an error
/// if no width declaration is present, more than one is, or the one
/// declaration's spelling is unrecognized.
pub fn resolve_width(decl: &EnumDecl) -> (r: Result<PrimitiveRepresentation, GenerateError>)
    ensures
        decl@.repr.len() == 0 ==> (r matches Err(GenerateError::MissingWidth)),
        decl@.repr.len() > 1 ==> (r matches Err(GenerateError::AmbiguousWidth)),
        decl@.repr.len() == 1 && selected_width(decl@.repr) is None ==> (r matches Err(
            GenerateError::UnrecognizedWidth,
        )),
        selected_width(decl@.repr) is Some ==> (r matches Ok(w2) && w2 == selected_width(
            decl@.repr,
        )->0),
{
    if decl.repr.len() == 0 {
        Err(GenerateError::MissingWidth)
    } else if decl.repr.len() > 1 {
        Err(GenerateError::AmbiguousWidth)
    } else {
        proof {
            assert(decl@.repr[0] == decl.repr@[0]@);
        }
        match PrimitiveRepresentation::from_str(decl.repr[0].as_str()) {
            Ok(w) => Ok(w),
            Err(_) => Err(GenerateError::UnrecognizedWidth),
        }
    }
}

/// Whether every variant of the list is unit-like.
fn check_all_unit(variants: &Vec<VariantDecl>) -> (r: bool)
    ensures
        r == all_unit(decl_views(variants@)),
{
    let mut i: usize = 0;
    while i < variants.len()
        invariant
            0 <= i <= variants@.len(),
            forall|j: int|
                0 <= j < i ==> (#[trigger] decl_views(variants@)[j].kind) == VariantKind::Unit,
        decreases variants@.len() - i,
    {
        if variants[i].kind != VariantKind::Unit {
            proof {
                assert(decl_views(variants@)[i as int] == variants@[i as int]@);
                assert(decl_views(variants@)[i as int].kind != VariantKind::Unit);
            }
            return false;
        }
        i = i + 1;
    }
    true
}

/// One constant the discriminant-constants generator emits: the variant's
/// name with the `_D` suffix, holding the variant's resolved value.
#[derive(Debug)]
pub struct DiscriminantConst {
    /// The generated constant's name.
    pub const_name: String,
    /// Position of the variant the constant belongs to.
    pub variant_index: usize,
    /// The variant's resolved discriminant value.
    pub value: u128,
}

/// Output of the discriminant-constants generator: one named constant per
/// variant, in source order, in the enum's declared width.
#[derive(Debug)]
pub struct DiscriminantsOutput {
    /// The enum the constants belong to.
    pub enum_name: String,
    /// The enum's declared backing representation.
    pub width: PrimitiveRepresentation,
    /// One constant per variant, in source order.
    pub consts: Vec<DiscriminantConst>,
}

/// Output of a conversion generator: the value each variant converts to and
/// from, one arm per variant, in source order.
#[derive(Debug)]
pub struct ConversionOutput {
    /// The enum the conversion belongs to.
    pub enum_name: String,
    /// The enum's declared backing representation.
    pub width: PrimitiveRepresentation,
    /// One arm per variant, in source order.
    pub arms: Vec<ResolvedDiscriminant>,
}

/// Derives the discriminant-constants listing: one constant per variant,
/// named after the variant with a `_D` suffix, holding its resolved value.
/// This generator accepts variants of every kind, but the enum must declare
/// a recognized integer width.
pub fn derive_discriminants(decl: &EnumDecl) -> (r: Result<DiscriminantsOutput, GenerateError>)
    ensures
        decl@.repr.len() == 0 ==> (r matches Err(GenerateError::MissingWidth)),
        decl@.repr.len() > 1 ==> (r matches Err(GenerateError::AmbiguousWidth)),
        decl@.repr.len() == 1 && selected_width(decl@.repr) is None ==> (r matches Err(
            GenerateError::UnrecognizedWidth,
        )),
        selected_width(decl@.repr) is Some && !scan_ok(selected_width(decl@.repr)->0, decl@.variants)
            ==> (r matches Err(GenerateError::Invalid(es)) && error_views(es@) == scan_errors(
            selected_width(decl@.repr)->0,
            decl@.variants,
        )),
        selected_width(decl@.repr) is Some && scan_ok(selected_width(decl@.repr)->0, decl@.variants)
            ==> (r matches Ok(out) && {
            let w = selected_width(decl@.repr)->0;
            &&& out.enum_name@ == decl@.name
            &&& out.width == w
            &&& out.consts@.len() == decl@.variants.len()
            &&& forall|i: int|
                #![trigger out.consts@[i]]
                0 <= i < out.consts@.len() ==> {
                    &&& out.consts@[i].variant_index == i
                    &&& out.consts@[i].const_name@ == decl@.variants[i].name + "_D"@
                    &&& out.consts@[i].value == resolved_at(w, decl@.variants, i)
                    &&& out.consts@[i].value <= mask_of(w)
                }
        }),
{
    let width = match resolve_width(decl) {
        Ok(w) => w,
        Err(e) => {
            return Err(e);
        },
    };
    let resolved = match scan_variants(&decl.variants, width) {
        Ok(rs) => rs,
        Err(es) => {
            return Err(GenerateError::Invalid(es));
        },
    };
    let mut consts: Vec<DiscriminantConst> = Vec::new();
    let mut i: usize = 0;
    while i < resolved.len()
        invariant
            0 <= i <= resolved@.len(),
            resolved@.len() == decl@.variants.len(),
            forall|j: int|
                #![trigger resolved@[j]]
                0 <= j < resolved@.len() ==> {
                    &&& resolved@[j].variant_index == j
                    &&& resolved@[j].variant_name@ == decl@.variants[j].name
                    &&& resolved@[j].value == resolved_at(width, decl@.variants, j)
                    &&& resolved@[j].value <= mask_of(width)
                },
            consts@.len() == i,
            forall|j: int|
                #![trigger consts@[j]]
                0 <= j < i ==> {
                    &&& consts@[j].variant_index == j
                    &&& consts@[j].const_name@ == decl@.variants[j].name + "_D"@
                    &&& consts@[j].value == resolved_at(width, decl@.variants, j)
                    &&& consts@[j].value <= mask_of(width)
                },
        decreases resolved@.len() - i,
    {
        let entry = &resolved[i];
        let mut const_name = entry.variant_name.clone();
        const_name.append("_D");
        consts.push(
            DiscriminantConst { const_name, variant_index: entry.variant_index, value: entry.value },
        );
        i = i + 1;
    }
    Ok(DiscriminantsOutput { enum_name: decl.name.clone(), width, consts })
}

/// The shared ensures shape of the two conversion generators: the output
/// arms pair each variant, in order, with its resolved value.
pub open spec fn conversion_output_matches(
    out: ConversionOutput,
    decl: EnumDeclView,
    w: PrimitiveRepresentation,
) -> bool {
    &&& out.enum_name@ == decl.name
    &&& out.width == w
    &&& out.arms@.len() == decl.variants.len()
    &&& forall|i: int|
        #![trigger out.arms@[i]]
        0 <= i < out.arms@.len() ==> {
            &&& out.arms@[i].variant_index == i
            &&& out.arms@[i].variant_name@ == decl.variants[i].name
            &&& out.arms@[i].value == resolved_at(w, decl.variants, i)
            &&& out.arms@[i].value <= mask_of(w)
        }
}

/// Derives the to-integer conversion: every variant must be unit-like, the
/// enum must declare a recognized width, and each variant maps to its
/// resolved value.
pub fn derive_into(decl: &EnumDecl) -> (r: Result<ConversionOutput, GenerateError>)
    ensures
        !all_unit(decl@.variants) ==> (r matches Err(GenerateError::NotAllVariantsUnit)),
        all_unit(decl@.variants) && decl@.repr.len() == 0 ==> (r matches Err(
            GenerateError::MissingWidth,
        )),
        all_unit(decl@.variants) && decl@.repr.len() > 1 ==> (r matches Err(
            GenerateError::AmbiguousWidth,
        )),
        all_unit(decl@.variants) && decl@.repr.len() == 1 && selected_width(decl@.repr) is None
            ==> (r matches Err(GenerateError::UnrecognizedWidth)),
        selected_width(decl@.repr) is Some && all_unit(decl@.variants) && !scan_ok(
            selected_width(decl@.repr)->0,
            decl@.variants,
        ) ==> (r matches Err(GenerateError::Invalid(es)) && error_views(es@) == scan_errors(
            selected_width(decl@.repr)->0,
            decl@.variants,
        )),
        selected_width(decl@.repr) is Some && all_unit(decl@.variants) && scan_ok(
            selected_width(decl@.repr)->0,
            decl@.variants,
        ) ==> (r matches Ok(out) && conversion_output_matches(
            out,
            decl@,
            selected_width(decl@.repr)->0,
        )),
{
    derive_conversion(decl)
}

/// Derives the from-integer conversion: the same requirements as the
/// to-integer generator, with each resolved value mapping back to its
/// variant; at runtime an unmatched value yields an invalid-value error
/// naming the enum.
pub fn derive_try_from(decl: &EnumDecl) -> (r: Result<ConversionOutput, GenerateError>)
    ensures
        !all_unit(decl@.variants) ==> (r matches Err(GenerateError::NotAllVariantsUnit)),
        all_unit(decl@.variants) && decl@.repr.len() == 0 ==> (r matches Err(
            GenerateError::MissingWidth,
        )),
        all_unit(decl@.variants) && decl@.repr.len() > 1 ==> (r matches Err(
            GenerateError::AmbiguousWidth,
        )),
        all_unit(decl@.variants) && decl@.repr.len() == 1 && selected_width(decl@.repr) is None
            ==> (r matches Err(GenerateError::UnrecognizedWidth)),
        selected_width(decl@.repr) is Some && all_unit(decl@.variants) && !scan_ok(
            selected_width(decl@.repr)->0,
            decl@.variants,
        ) ==> (r matches Err(GenerateError::Invalid(es)) && error_views(es@) == scan_errors(
            selected_width(decl@.repr)->0,
            decl@.variants,
        )),
        selected_width(decl@.repr) is Some && all_unit(decl@.variants) && scan_ok(
            selected_width(decl@.repr)->0,
            decl@.variants,
        ) ==> (r matches Ok(out) && conversion_output_matches(
            out,
            decl@,
            selected_width(decl@.repr)->0,
        )),
{
    derive_conversion(decl)
}

/// The conversion pass both conversion generators share: unit-variant
/// check, width selection, scan, and the fold into conversion arms.
fn derive_conversion(decl: &EnumDecl) -> (r: Result<ConversionOutput, GenerateError>)
    ensures
        !all_unit(decl@.variants) ==> (r matches Err(GenerateError::NotAllVariantsUnit)),
        all_unit(decl@.variants) && decl@.repr.len() == 0 ==> (r matches Err(
            GenerateError::MissingWidth,
        )),
        all_unit(decl@.variants) && decl@.repr.len() > 1 ==> (r matches Err(
            GenerateError::AmbiguousWidth,
        )),
        all_unit(decl@.variants) && decl@.repr.len() == 1 && selected_width(decl@.repr) is None
            ==> (r matches Err(GenerateError::UnrecognizedWidth)),
        selected_width(decl@.repr) is Some && all_unit(decl@.variants) && !scan_ok(
            selected_width(decl@.repr)->0,
            decl@.variants,
        ) ==> (r matches Err(GenerateError::Invalid(es)) && error_views(es@) == scan_errors(
            selected_width(decl@.repr)->0,
            decl@.variants,
        )),
        selected_width(decl@.repr) is Some && all_unit(decl@.variants) && scan_ok(
            selected_width(decl@.repr)->0,
            decl@.variants,
        ) ==> (r matches Ok(out) && conversion_output_matches(
            out,
            decl@,
            selected_width(decl@.repr)->0,
        )),
{
    if !check_all_unit(&decl.variants) {
        return Err(GenerateError::NotAllVariantsUnit);
    }
    let width = match resolve_width(decl) {
        Ok(w) => w,
        Err(e) => {
            return Err(e);
        },
    };
    let arms = match scan_variants(&decl.variants, width) {
        Ok(rs) => rs,
        Err(es) => {
            return Err(GenerateError::Invalid(es));
        },
    };
    Ok(ConversionOutput { enum_name: decl.name.clone(), width, arms })
}

/// The value-to-variant match the from-integer conversion emits: the index
/// of the first arm whose value equals the given one, if any; `None` models
/// the fall-through to the invalid-value error.
pub fn lookup_value(arms: &Vec<ResolvedDiscriminant>, value: u128) -> (r: Option<usize>)
    ensures
        r matches Some(i) ==> 0 <= i < arms@.len() && arms@[i as int].value == value && (forall|
            j: int,
        |
            0 <= j < i ==> (#[trigger] arms@[j].value) != value),
        r is None <==> forall|j: int| 0 <= j < arms@.len() ==> (#[trigger] arms@[j].value) != value,
{
    let mut i: usize = 0;
    while i < arms.len()
        invariant
            0 <= i <= arms@.len(),
            forall|j: int| 0 <= j < i ==> (#[trigger] arms@[j].value) != value,
        decreases arms@.len() - i,
    {
        if arms[i].value == value {
            return Some(i);
        }
        i = i + 1;
    }
    None
}

} // verus!
