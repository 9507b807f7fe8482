//! The expression-kind classifier.
use vstd::prelude::*;
use crate::diag::{opt_view, report_opt, violation, Problem, Violation};
use crate::shapes::{allowed_type, type_allowed};
use crate::syntax::{DesugaringKind, Expr, ExprKind, Origin};

verus! {

/// How an expression form stands with respect to the subset.
#[derive(Clone, Copy, Debug, PartialEq, Eq, Structural)]
pub enum ExprClass {
    Allowed,
    Forbidden,
    /// Allowed or not depending on where the node comes from.
    NeedsContext,
}

/// The class of each expression form. A type ascription is allowed exactly
/// when its annotated type has an allowed shape.
pub open spec fn expr_class(k: ExprKind) -> ExprClass {
    match k {
        ExprKind::Array | ExprKind::Call | ExprKind::MethodCall | ExprKind::Tup
        | ExprKind::Binary | ExprKind::Unary | ExprKind::Lit | ExprKind::Cast
        | ExprKind::DropTemps | ExprKind::Loop | ExprKind::Match | ExprKind::Block
        | ExprKind::Assign | ExprKind::AssignOp | ExprKind::Field | ExprKind::Index
        | ExprKind::Path | ExprKind::Break | ExprKind::Ret | ExprKind::Struct
        | ExprKind::Repeat => ExprClass::Allowed,
        ExprKind::Type(t) => if type_allowed(t) {
            ExprClass::Allowed
        } else {
            ExprClass::Forbidden
        },
        ExprKind::AddrOf => ExprClass::NeedsContext,
        ExprKind::Box | ExprKind::Closure | ExprKind::Continue | ExprKind::InlineAsm
        | ExprKind::Yield | ExprKind::Malformed => ExprClass::Forbidden,
    }
}

/// A reference may only be taken by the code that desugars a `for` loop.
pub open spec fn origin_permits_reference(o: Origin) -> bool {
    o == Origin::Desugaring(DesugaringKind::ForLoop)
}

/// The problem with an expression node, if any.
pub open spec fn expr_problem(e: Expr) -> Option<Problem> {
    match expr_class(e.kind) {
        ExprClass::Allowed => None,
        ExprClass::NeedsContext => if origin_permits_reference(e.origin) {
            None
        } else {
            Some(Problem::UnauthorizedReference)
        },
        ExprClass::Forbidden => match e.kind {
            ExprKind::Type(_) => Some(Problem::UnauthorizedExprType),
            _ => Some(Problem::UnauthorizedExpression),
        },
    }
}

/// An address-of expression is accepted exactly when the desugaring of a
/// `for` loop produced it; the same form written in the source is refused.
pub proof fn lemma_reference_exception(e: Expr)
    requires
        e.kind is AddrOf,
    ensures
        expr_problem(e) is None <==> e.origin == Origin::Desugaring(DesugaringKind::ForLoop),
        e.origin == Origin::Source ==> expr_problem(e) == Some(Problem::UnauthorizedReference),
{
}

/// The class of the expression form `k`.
pub fn classify(k: &ExprKind) -> (r: ExprClass)
    ensures
        r == expr_class(*k),
{
    match k {
        ExprKind::Array => ExprClass::Allowed,
        ExprKind::Call => ExprClass::Allowed,
        ExprKind::MethodCall => ExprClass::Allowed,
        ExprKind::Tup => ExprClass::Allowed,
        ExprKind::Binary => ExprClass::Allowed,
        ExprKind::Unary => ExprClass::Allowed,
        ExprKind::Lit => ExprClass::Allowed,
        ExprKind::Cast => ExprClass::Allowed,
        ExprKind::DropTemps => ExprClass::Allowed,
        ExprKind::Loop => ExprClass::Allowed,
        ExprKind::Match => ExprClass::Allowed,
        ExprKind::Block => ExprClass::Allowed,
        ExprKind::Assign => ExprClass::Allowed,
        ExprKind::AssignOp => ExprClass::Allowed,
        ExprKind::Field => ExprClass::Allowed,
        ExprKind::Index => ExprClass::Allowed,
        ExprKind::Path => ExprClass::Allowed,
        ExprKind::Break => ExprClass::Allowed,
        ExprKind::Ret => ExprClass::Allowed,
        ExprKind::Struct => ExprClass::Allowed,
        ExprKind::Repeat => ExprClass::Allowed,
        ExprKind::Type(t) => {
            if allowed_type(t) {
                ExprClass::Allowed
            } else {
                ExprClass::Forbidden
            }
        },
        ExprKind::AddrOf => ExprClass::NeedsContext,
        ExprKind::Box => ExprClass::Forbidden,
        ExprKind::Closure => ExprClass::Forbidden,
        ExprKind::Continue => ExprClass::Forbidden,
        ExprKind::InlineAsm => ExprClass::Forbidden,
        ExprKind::Yield => ExprClass::Forbidden,
        ExprKind::Malformed => ExprClass::Forbidden,
    }
}

/// Whether a node from `o` may take a reference.
pub fn permits_reference(o: Origin) -> (r: bool)
    ensures
        r == origin_permits_reference(o),
{
    match o {
        Origin::Desugaring(DesugaringKind::ForLoop) => true,
        _ => false,
    }
}

/// Checks one expression node: forms outside the subset, references that
/// the source itself takes, and ascriptions of refused types are reported.
pub fn check_expr(e: &Expr) -> (r: Option<Violation>)
    ensures
        opt_view(r) == report_opt(e.span, expr_problem(*e)),
{
    match classify(&e.kind) {
        ExprClass::Allowed => None,
        ExprClass::NeedsContext => {
            if permits_reference(e.origin) {
                None
            } else {
                Some(violation(e.span, Problem::UnauthorizedReference))
            }
        },
        ExprClass::Forbidden => match e.kind {
            ExprKind::Type(_) => Some(violation(e.span, Problem::UnauthorizedExprType)),
            _ => Some(violation(e.span, Problem::UnauthorizedExpression)),
        },
    }
}

} // verus!
