//! The discriminant scan: walks the ordered variant list once, carrying a
//! running "next implicit value", resolving every variant's discriminant and
//! accumulating validation errors without stopping at the first.
//!
//! The model mirrors the rule the language's own compiler uses: a variant
//! without an explicit discriminant takes the running value, which starts at
//! zero; an explicit integer literal takes its parsed value; either way the
//! running value becomes the resolved value incremented with wraparound. An
//! invalid explicit discriminant is recorded as an error and leaves the
//! running value untouched, so later variants still continue from the last
//! successfully resolved value.
use vstd::prelude::*;

use crate::literal::{digits_val, is_int_literal, parse_literal};
use crate::variant::{
    decl_views, error_views, DiscriminantExpr, DiscriminantExprView, ErrorKind, ValidationError,
    ValidationErrorView, VariantDecl, VariantDeclView,
};
use crate::width::{literal_max, mask_of, wrap_inc, PrimitiveRepresentation};

verus! {

/// The outcome of one explicit discriminant expression under a width: its
/// value if it is an integer literal the width can represent, else the
/// matching error kind.
pub open spec fn lit_outcome(w: PrimitiveRepresentation, e: DiscriminantExprView) -> Result<
    nat,
    ErrorKind,
> {
    match e {
        DiscriminantExprView::IntLiteral(s) => if !is_int_literal(s) {
            Err(ErrorKind::NotIntegerLiteral)
        } else if digits_val(s) > literal_max(w) {
            Err(ErrorKind::OutOfRange)
        } else {
            Ok(digits_val(s))
        },
        DiscriminantExprView::Other => Err(ErrorKind::NotIntegerLiteral),
    }
}

/// The outcome of one variant given the running value: the running value
/// itself when the variant has no explicit discriminant, else the explicit
/// expression's outcome.
pub open spec fn variant_outcome(
    w: PrimitiveRepresentation,
    v: VariantDeclView,
    running: nat,
) -> Result<nat, ErrorKind> {
    match v.discriminant {
        None => Ok(running),
        Some(e) => lit_outcome(w, e),
    }
}

/// The running value after the first `i` variants: each resolved variant
/// advances it to its value incremented with wraparound; an invalid variant
/// leaves it untouched.
pub open spec fn running_after(w: PrimitiveRepresentation, vs: Seq<VariantDeclView>, i: int) -> nat
    decreases i,
{
    if i <= 0 {
        0
    } else {
        let prev = running_after(w, vs, i - 1);
        match variant_outcome(w, vs[i - 1], prev) {
            Ok(value) => wrap_inc(w, value),
            Err(_) => prev,
        }
    }
}

/// The outcome of variant `i` of the declaration under width `w`.
pub open spec fn outcome_at(w: PrimitiveRepresentation, vs: Seq<VariantDeclView>, i: int) -> Result<
    nat,
    ErrorKind,
> {
    variant_outcome(w, vs[i], running_after(w, vs, i))
}

/// Whether every variant of the declaration resolves without error.
pub open spec fn scan_ok(w: PrimitiveRepresentation, vs: Seq<VariantDeclView>) -> bool {
    forall|i: int| 0 <= i < vs.len() ==> outcome_at(w, vs, i) is Ok
}

/// The resolved value of variant `i`, where its outcome is a value.
pub open spec fn resolved_at(w: PrimitiveRepresentation, vs: Seq<VariantDeclView>, i: int) -> nat {
    outcome_at(w, vs, i)->Ok_0
}

/// The validation errors among the first `i` variants, in source order, one
/// per offending variant.
pub open spec fn errors_up_to(
    w: PrimitiveRepresentation,
    vs: Seq<VariantDeclView>,
    i: int,
) -> Seq<ValidationErrorView>
    decreases i,
{
    if i <= 0 {
        Seq::empty()
    } else {
        let pre = errors_up_to(w, vs, i - 1);
        match outcome_at(w, vs, i - 1) {
            Ok(_) => pre,
            Err(k) => pre.push(
                ValidationErrorView { variant_index: i - 1, variant_name: vs[i - 1].name, kind: k },
            ),
        }
    }
}

/// All validation errors of the declaration, in source order.
pub open spec fn scan_errors(w: PrimitiveRepresentation, vs: Seq<VariantDeclView>) -> Seq<
    ValidationErrorView,
> {
    errors_up_to(w, vs, vs.len() as int)
}

/// A variant declaration paired with its resolved discriminant value, as a
/// bit pattern of the enclosing enum's width.
#[derive(Debug)]
pub struct ResolvedDiscriminant {
    /// Position of the variant in the declaration.
    pub variant_index: usize,
    /// Name of the variant.
    pub variant_name: String,
    /// The variant's resolved discriminant value.
    pub value: u128,
}

/// The running value never leaves the width's bit pattern space.
pub proof fn lemma_running_in_range(w: PrimitiveRepresentation, vs: Seq<VariantDeclView>, i: int)
    ensures
        running_after(w, vs, i) <= mask_of(w),
    decreases i,
{
    if i > 0 {
        lemma_running_in_range(w, vs, i - 1);
    }
}

/// Every resolved value lies within the width's bit pattern space.
pub proof fn lemma_resolved_in_range(w: PrimitiveRepresentation, vs: Seq<VariantDeclView>, i: int)
    requires
        outcome_at(w, vs, i) is Ok,
    ensures
        resolved_at(w, vs, i) <= mask_of(w),
{
    lemma_running_in_range(w, vs, i);
}

/// Resolves the discriminant of every variant in source order, collecting
/// all validation errors rather than stopping at the first.
///
/// On success the result pairs each variant, in order, with its resolved
/// value; if any variant's explicit discriminant is invalid, the result is
/// the complete list of validation errors instead, one per offending
/// variant, in source order.
pub fn scan_variants(variants: &Vec<VariantDecl>, width: PrimitiveRepresentation) -> (r: Result<
    Vec<ResolvedDiscriminant>,
    Vec<ValidationError>,
>)
    ensures
        r is Ok <==> scan_ok(width, decl_views(variants@)),
        r matches Ok(rs) ==> {
            &&& rs@.len() == variants@.len()
            &&& forall|i: int|
                #![trigger rs@[i]]
                0 <= i < rs@.len() ==> {
                    &&& rs@[i].variant_index == i
                    &&& rs@[i].variant_name@ == decl_views(variants@)[i].name
                    &&& rs@[i].value == resolved_at(width, decl_views(variants@), i)
                    &&& rs@[i].value <= mask_of(width)
                }
        },
        r matches Err(es) ==> error_views(es@) == scan_errors(width, decl_views(variants@)),
{
    let ghost vs = decl_views(variants@);
    let mut resolved: Vec<ResolvedDiscriminant> = Vec::new();
    let mut errors: Vec<ValidationError> = Vec::new();
    let mut running: u128 = width.zero();
    let mut i: usize = 0;
    while i < variants.len()
        invariant
            0 <= i <= variants@.len(),
            vs == decl_views(variants@),
            vs.len() == variants@.len(),
            running == running_after(width, vs, i as int),
            running <= mask_of(width),
            error_views(errors@) == errors_up_to(width, vs, i as int),
            errors@.len() == 0 ==> resolved@.len() == i,
            errors@.len() == 0 ==> forall|j: int|
                0 <= j < i ==> #[trigger] outcome_at(width, vs, j) is Ok,
            errors@.len() == 0 ==> forall|j: int|
                #![trigger resolved@[j]]
                0 <= j < resolved@.len() ==> {
                    &&& resolved@[j].variant_index == j
                    &&& resolved@[j].variant_name@ == vs[j].name
                    &&& resolved@[j].value == resolved_at(width, vs, j)
                    &&& resolved@[j].value <= mask_of(width)
                },
            errors@.len() > 0 ==> !scan_ok(width, vs),
        decreases variants@.len() - i,
    {
        let variant = &variants[i];
        proof {
            assert(vs[i as int] == variant@);
        }
        let outcome: Result<u128, ErrorKind> = match &variant.discriminant {
            None => Ok(running),
            Some(DiscriminantExpr::IntLiteral(text)) => parse_literal(text.as_str(), width),
            Some(DiscriminantExpr::Other) => Err(ErrorKind::NotIntegerLiteral),
        };
        proof {
            assert(outcome matches Ok(v) ==> Ok::<nat, ErrorKind>(v as nat) == outcome_at(
                width,
                vs,
                i as int,
            ));
            assert(outcome matches Err(k) ==> Err::<nat, ErrorKind>(k) == outcome_at(
                width,
                vs,
                i as int,
            ));
        }
        match outcome {
            Ok(value) => {
                proof {
                    lemma_resolved_in_range(width, vs, i as int);
                }
                resolved.push(
                    ResolvedDiscriminant {
                        variant_index: i,
                        variant_name: variant.name.clone(),
                        value,
                    },
                );
                running = width.increment(value);
            },
            Err(kind) => {
                errors.push(
                    ValidationError { variant_index: i, variant_name: variant.name.clone(), kind },
                );
                proof {
                    assert(error_views(errors@) =~= errors_up_to(width, vs, i as int + 1));
                    assert(outcome_at(width, vs, i as int) is Err);
                }
            },
        }
        i = i + 1;
    }
    if errors.len() == 0 {
        proof {
            assert(scan_errors(width, vs).len() == 0) by {
                assert(error_views(errors@) == errors_up_to(width, vs, vs.len() as int));
            }
            assert forall|j: int| 0 <= j < vs.len() implies outcome_at(width, vs, j) is Ok by {}
        }
        Ok(resolved)
    } else {
        Err(errors)
    }
}

} // verus!
