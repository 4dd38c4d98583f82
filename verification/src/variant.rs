//! The structured description of an enum declaration that the generators
//! consume: ordered variant declarations, each with a name, a data-carrying
//! kind and an optional explicit discriminant expression, plus the
//! per-variant validation errors the scan can report.
use vstd::prelude::*;

verus! {

/// What data a variant carries: none, positional fields, or named fields.
#[derive(Debug, Clone, Copy, PartialEq, Eq, Structural)]
pub enum VariantKind {
    /// A unit variant, carrying no data.
    Unit,
    /// A variant with positional (tuple) data.
    Tuple,
    /// A variant with named-field data.
    Struct,
}

/// An explicit discriminant expression attached to a variant.
#[derive(Debug)]
pub enum DiscriminantExpr {
    /// A plain integer literal, kept as its decimal digits.
    IntLiteral(String),
    /// Any other expression; the scan rejects these.
    Other,
}

/// Mathematical model of a [`DiscriminantExpr`].
pub enum DiscriminantExprView {
    /// A plain integer literal, as its decimal digits.
    IntLiteral(Seq<char>),
    /// Any other expression.
    Other,
}

impl View for DiscriminantExpr {
    type V = DiscriminantExprView;

    open spec fn view(&self) -> DiscriminantExprView {
        match self {
            DiscriminantExpr::IntLiteral(s) => DiscriminantExprView::IntLiteral(s@),
            DiscriminantExpr::Other => DiscriminantExprView::Other,
        }
    }
}

/// One variant of an enum declaration, in source order.
#[derive(Debug)]
pub struct VariantDecl {
    /// The variant's name.
    pub name: String,
    /// What data the variant carries.
    pub kind: VariantKind,
    /// The explicit discriminant expression, if the source gives one.
    pub discriminant: Option<DiscriminantExpr>,
}

/// Mathematical model of a [`VariantDecl`].
pub struct VariantDeclView {
    /// The variant's name.
    pub name: Seq<char>,
    /// What data the variant carries.
    pub kind: VariantKind,
    /// The explicit discriminant expression, if any.
    pub discriminant: Option<DiscriminantExprView>,
}

impl View for VariantDecl {
    type V = VariantDeclView;

    open spec fn view(&self) -> VariantDeclView {
        VariantDeclView {
            name: self.name@,
            kind: self.kind,
            discriminant: match self.discriminant {
                Some(e) => Some(e@),
                None => None,
            },
        }
    }
}

/// The models of a sequence of variant declarations.
pub open spec fn decl_views(vs: Seq<VariantDecl>) -> Seq<VariantDeclView> {
    vs.map_values(|v: VariantDecl| v@)
}

/// The ways one variant's explicit discriminant can be invalid.
#[derive(Debug, Clone, Copy, PartialEq, Eq, Structural)]
pub enum ErrorKind {
    /// The explicit discriminant is not a plain integer literal.
    NotIntegerLiteral,
    /// The literal is out of range for the declared width.
    OutOfRange,
}

/// A validation error tied to one offending variant.
#[derive(Debug)]
pub struct ValidationError {
    /// Position of the offending variant in the declaration.
    pub variant_index: usize,
    /// Name of the offending variant.
    pub variant_name: String,
    /// The nature of the violation.
    pub kind: ErrorKind,
}

/// Mathematical model of a [`ValidationError`].
pub struct ValidationErrorView {
    /// Position of the offending variant.
    pub variant_index: int,
    /// Name of the offending variant.
    pub variant_name: Seq<char>,
    /// The nature of the violation.
    pub kind: ErrorKind,
}

impl View for ValidationError {
    type V = ValidationErrorView;

    open spec fn view(&self) -> ValidationErrorView {
        ValidationErrorView {
            variant_index: self.variant_index as int,
            variant_name: self.variant_name@,
            kind: self.kind,
        }
    }
}

/// The models of a sequence of validation errors.
pub open spec fn error_views(es: Seq<ValidationError>) -> Seq<ValidationErrorView> {
    es.map_values(|e: ValidationError| e@)
}

impl ValidationError {
    /// Renders the violation as human-readable text.
    pub fn message(&self) -> (r: String)
        ensures
            self.kind == ErrorKind::NotIntegerLiteral ==> r@ == "Discriminant must be an integer literal: "@
                + self.variant_name@,
            self.kind == ErrorKind::OutOfRange ==> r@ == "Discriminant out of range for the declared width: "@
                + self.variant_name@,
    {
        let mut text = match self.kind {
            ErrorKind::NotIntegerLiteral => String::from_str("Discriminant must be an integer literal: "),
            ErrorKind::OutOfRange => String::from_str("Discriminant out of range for the declared width: "),
        };
        text.append(self.variant_name.as_str());
        text
    }
}

} // verus!
