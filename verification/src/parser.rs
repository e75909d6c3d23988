//! The parser-facing check on the format expression: it must be a constant
//! string literal, because segment splitting happens at expansion time.

use crate::data::ErrorKind;
use crate::data::ExpandError;
use crate::data::FormatStr;
use syn::spanned::Spanned;
use vstd::prelude::*;

verus! {

#[verifier::external_type_specification]
#[verifier::external_body]
pub struct ExExpr(syn::Expr);

/// Relies on `syn::LitStr::value`: the string a literal holds, escape
/// sequences resolved. Classifies the format expression: its value when it
/// is a constant string literal, nothing for any other expression shape.
#[verifier::external_body]
fn str_literal_value(e: &syn::Expr) -> Option<String> {
    match e {
        syn::Expr::Lit(lit) => match &lit.lit {
            syn::Lit::Str(s) => Some(s.value()),
            _ => None,
        },
        _ => None,
    }
}

/// Relies on `syn::spanned::Spanned::span`: the source position of the
/// expression.
#[verifier::external_body]
fn expr_span(e: &syn::Expr) -> proc_macro2::Span {
    e.span()
}

/// Accepts exactly a classified string-literal value: a format expression of
/// any other shape is rejected with the literal-only diagnostic, anchored at
/// the given position.
pub fn format_from_literal(lit: Option<String>, span: proc_macro2::Span) -> (r: Result<
    FormatStr,
    ExpandError,
>)
    ensures
        r is Ok <==> lit is Some,
        lit matches Some(v) ==> (r matches Ok(f) && f.text() == v@),
        lit is None ==> (r matches Err(e) && e.kind == ErrorKind::NotStringLiteral && e.span
            == span),
{
    match lit {
        Some(v) => Ok(FormatStr::from(v)),
        None => Err(ExpandError { kind: ErrorKind::NotStringLiteral, span }),
    }
}

/// Checks that the format expression is a constant string literal and wraps
/// its value; every other expression shape yields the literal-only
/// diagnostic at the expression's own position.
pub fn format_from_expr(e: &syn::Expr) -> (r: Result<FormatStr, ExpandError>)
    ensures
        r matches Err(err) ==> err.kind == ErrorKind::NotStringLiteral,
{
    let span = expr_span(e);
    let lit = str_literal_value(e);
    format_from_literal(lit, span)
}

} // verus!
