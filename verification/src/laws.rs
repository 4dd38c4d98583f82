//! Laws of the discriminant scan, stated over its model and proved once and
//! for all: sequential numbering of implicit variants, wraparound past the
//! width's maximum, one error per offending variant, and the empty enum.
use vstd::arithmetic::div_mod::{
    lemma_add_mod_noop, lemma_fundamental_div_mod, lemma_mod_self_0,
    lemma_small_mod,
};
use vstd::prelude::*;

use crate::literal::{digits_val, is_int_literal};
use crate::scan::{errors_up_to, outcome_at, resolved_at, running_after, scan_errors, scan_ok};
use crate::variant::{DiscriminantExprView, ErrorKind, VariantDeclView};
use crate::width::{is_signed, literal_max, mask_of, value_of, wrap_inc, PrimitiveRepresentation};

verus! {

/// With no explicit discriminants among the first `i` variants, the running
/// value after them is `i` modulo the width's period.
proof fn lemma_implicit_running(w: PrimitiveRepresentation, vs: Seq<VariantDeclView>, i: int)
    requires
        0 <= i <= vs.len(),
        forall|j: int| 0 <= j < i ==> (#[trigger] vs[j].discriminant) is None,
    ensures
        running_after(w, vs, i) == i % (mask_of(w) + 1) as int,
    decreases i,
{
    let n: int = (mask_of(w) + 1) as int;
    if i == 0 {
        lemma_small_mod(0, n as nat);
    } else {
        lemma_implicit_running(w, vs, i - 1);
        let prev = running_after(w, vs, i - 1);
        lemma_add_mod_noop(i - 1, 1, n);
        lemma_small_mod(1, n as nat);
        if prev >= mask_of(w) {
            lemma_mod_self_0(n);
        } else {
            lemma_small_mod((prev + 1) as nat, n as nat);
        }
    }
}

/// Law: when no variant of the declaration gives an explicit discriminant,
/// the variants resolve to their zero-based sequential positions, wrapping
/// at the width's maximum back to zero.
pub proof fn lemma_implicit_values_are_positions(
    w: PrimitiveRepresentation,
    vs: Seq<VariantDeclView>,
)
    requires
        forall|j: int| 0 <= j < vs.len() ==> (#[trigger] vs[j].discriminant) is None,
    ensures
        scan_ok(w, vs),
        forall|i: int|
            0 <= i < vs.len() ==> resolved_at(w, vs, i) == i % (mask_of(w) + 1) as int,
{
    assert forall|i: int| 0 <= i < vs.len() implies outcome_at(w, vs, i) is Ok && resolved_at(
        w,
        vs,
        i,
    ) == i % (mask_of(w) + 1) as int by {
        lemma_implicit_running(w, vs, i);
    }
}

/// Law: a variant explicitly set to the width's maximum value, followed by
/// a variant without an explicit discriminant, resolves the implicit one to
/// the wraparound of the maximum: zero for the unsigned widths, the width's
/// minimum negative value for the signed widths.
pub proof fn lemma_max_then_implicit_wraps(
    w: PrimitiveRepresentation,
    vs: Seq<VariantDeclView>,
    i: int,
)
    requires
        0 <= i,
        i + 1 < vs.len(),
        vs[i].discriminant matches Some(DiscriminantExprView::IntLiteral(s)) && is_int_literal(s)
            && digits_val(s) == literal_max(w),
        vs[i + 1].discriminant is None,
    ensures
        outcome_at(w, vs, i) == Ok::<nat, ErrorKind>(literal_max(w)),
        outcome_at(w, vs, i + 1) == Ok::<nat, ErrorKind>(wrap_inc(w, literal_max(w))),
        !is_signed(w) ==> resolved_at(w, vs, i + 1) == 0,
        is_signed(w) ==> value_of(w, resolved_at(w, vs, i + 1)) == -(literal_max(w) + 1),
{
    if is_signed(w) {
        lemma_fundamental_div_mod(mask_of(w) as int, 2);
        assert(mask_of(w) % 2 == 1);
    }
}

/// Each error among the first `i` variants names an offending variant
/// among them, with its position, kind and name.
#[verifier::rlimit(100)]
proof fn lemma_errors_sound(w: PrimitiveRepresentation, vs: Seq<VariantDeclView>, i: int)
    requires
        0 <= i <= vs.len(),
    ensures
        forall|j: int|
            0 <= j < errors_up_to(w, vs, i).len() ==> {
                let e = #[trigger] errors_up_to(w, vs, i)[j];
                &&& 0 <= e.variant_index < i
                &&& outcome_at(w, vs, e.variant_index) matches Err(k) && e.kind == k
                &&& e.variant_name == vs[e.variant_index].name
            },
    decreases i,
{
    if i > 0 {
        lemma_errors_sound(w, vs, i - 1);
        let pre = errors_up_to(w, vs, i - 1);
        let cur = errors_up_to(w, vs, i);
        if outcome_at(w, vs, i - 1) is Err {
            let k0 = outcome_at(w, vs, i - 1)->Err_0;
            let e_new = crate::variant::ValidationErrorView {
                variant_index: i - 1,
                variant_name: vs[i - 1].name,
                kind: k0,
            };
            assert(cur == pre.push(e_new));
            assert forall|j: int| 0 <= j < cur.len() implies {
                let e = #[trigger] cur[j];
                &&& 0 <= e.variant_index < i
                &&& outcome_at(w, vs, e.variant_index) matches Err(k) && e.kind == k
                &&& e.variant_name == vs[e.variant_index].name
            } by {
                if j < pre.len() {
                    assert(cur[j] == pre[j]);
                } else {
                    assert(cur[j] == e_new);
                }
            }
        } else {
            assert(cur == pre);
        }
    }
}

/// The errors among the first `i` variants are ordered by variant position.
#[verifier::rlimit(100)]
proof fn lemma_errors_ordered(w: PrimitiveRepresentation, vs: Seq<VariantDeclView>, i: int)
    requires
        0 <= i <= vs.len(),
    ensures
        forall|j1: int, j2: int|
            0 <= j1 < j2 < errors_up_to(w, vs, i).len() ==> errors_up_to(w, vs, i)[j1].variant_index
                < errors_up_to(w, vs, i)[j2].variant_index,
    decreases i,
{
    if i > 0 {
        lemma_errors_ordered(w, vs, i - 1);
        lemma_errors_sound(w, vs, i - 1);
        let pre = errors_up_to(w, vs, i - 1);
        let cur = errors_up_to(w, vs, i);
        if outcome_at(w, vs, i - 1) is Err {
            let k0 = outcome_at(w, vs, i - 1)->Err_0;
            let e_new = crate::variant::ValidationErrorView {
                variant_index: i - 1,
                variant_name: vs[i - 1].name,
                kind: k0,
            };
            assert(cur == pre.push(e_new));
            assert forall|j1: int, j2: int| 0 <= j1 < j2 < cur.len() implies cur[j1].variant_index
                < cur[j2].variant_index by {
                assert(cur[j1] == pre[j1]);
                if j2 < pre.len() {
                    assert(cur[j2] == pre[j2]);
                } else {
                    assert(cur[j2] == e_new);
                }
            }
        } else {
            assert(cur == pre);
        }
    }
}

/// Every offending variant among the first `i` is represented by an error.
#[verifier::rlimit(100)]
proof fn lemma_errors_complete(w: PrimitiveRepresentation, vs: Seq<VariantDeclView>, i: int)
    requires
        0 <= i <= vs.len(),
    ensures
        forall|k: int|
            0 <= k < i && (#[trigger] outcome_at(w, vs, k)) is Err ==> exists|j: int|
                0 <= j < errors_up_to(w, vs, i).len() && (#[trigger] errors_up_to(
                    w,
                    vs,
                    i,
                )[j]).variant_index == k,
    decreases i,
{
    if i > 0 {
        lemma_errors_complete(w, vs, i - 1);
        let pre = errors_up_to(w, vs, i - 1);
        let cur = errors_up_to(w, vs, i);
        if outcome_at(w, vs, i - 1) is Err {
            let k0 = outcome_at(w, vs, i - 1)->Err_0;
            let e_new = crate::variant::ValidationErrorView {
                variant_index: i - 1,
                variant_name: vs[i - 1].name,
                kind: k0,
            };
            assert(cur == pre.push(e_new));
            assert forall|k: int|
                0 <= k < i && (#[trigger] outcome_at(w, vs, k)) is Err implies exists|j: int|
                0 <= j < cur.len() && (#[trigger] cur[j]).variant_index == k by {
                if k == i - 1 {
                    assert(cur[cur.len() - 1].variant_index == k);
                } else {
                    let j0 = choose|j: int|
                        0 <= j < pre.len() && (#[trigger] pre[j]).variant_index == k;
                    assert(cur[j0] == pre[j0]);
                    assert(cur[j0].variant_index == k);
                }
            }
        } else {
            assert(cur == pre);
        }
    }
}

/// Law: the scan reports exactly the offending variants: each variant whose
/// explicit discriminant is invalid contributes one error carrying its
/// position, name and violation, the errors are ordered by position, and
/// every offending variant appears — two out-of-range variants yield two
/// distinct errors in one pass, neither suppressing the other.
#[verifier::rlimit(50)]
pub proof fn lemma_one_error_per_offending_variant(
    w: PrimitiveRepresentation,
    vs: Seq<VariantDeclView>,
)
    ensures
        forall|j: int|
            0 <= j < scan_errors(w, vs).len() ==> {
                let e = #[trigger] scan_errors(w, vs)[j];
                &&& 0 <= e.variant_index < vs.len()
                &&& outcome_at(w, vs, e.variant_index) matches Err(k) && e.kind == k
                &&& e.variant_name == vs[e.variant_index].name
            },
        forall|j1: int, j2: int|
            0 <= j1 < j2 < scan_errors(w, vs).len() ==> scan_errors(w, vs)[j1].variant_index
                < scan_errors(w, vs)[j2].variant_index,
        forall|k: int|
            0 <= k < vs.len() && (#[trigger] outcome_at(w, vs, k)) is Err ==> exists|j: int|
                0 <= j < scan_errors(w, vs).len() && (#[trigger] scan_errors(
                    w,
                    vs,
                )[j]).variant_index == k,
{
    lemma_errors_sound(w, vs, vs.len() as int);
    lemma_errors_ordered(w, vs, vs.len() as int);
    lemma_errors_complete(w, vs, vs.len() as int);
}

/// Law: an enum with no variants scans successfully and yields nothing: no
/// resolved values and no errors, so generation emits no constants and no
/// conversion arms.
pub proof fn lemma_empty_declaration(w: PrimitiveRepresentation)
    ensures
        scan_ok(w, Seq::<VariantDeclView>::empty()),
        scan_errors(w, Seq::<VariantDeclView>::empty()) == Seq::<
            crate::variant::ValidationErrorView,
        >::empty(),
{
}

} // verus!
