//! The declaration validator: paths, imports, top-level items and function
//! signatures.
use vstd::prelude::*;
use crate::diag::{opt_view, report, report_opt, violation, views, Problem, Span, Violation, ViolationView};
use crate::names::{allowed_by, allowlist_view, is_allowed, name_view};
use crate::policy::{default_path_allowlist, default_paths};
use crate::shapes::{allowed_type, type_allowed, TypeShape};
use crate::syntax::{BindingMode, Item, ItemKind, Mutability, ParamType, Pattern};

verus! {

/// A path used in code is refused unless it is a single segment (an item
/// of the crate itself, or a local binding) or the allowlist covers it.
pub open spec fn path_refused(list: Seq<Seq<Seq<char>>>, q: Seq<Seq<char>>) -> bool {
    !(q.len() == 1 || allowed_by(list, q))
}

/// The report for a path `q` used at `span`, if it is refused.
pub open spec fn path_report(list: Seq<Seq<Seq<char>>>, q: Seq<Seq<char>>, span: Span) -> Option<ViolationView> {
    if path_refused(list, q) {
        Some(ViolationView { span, problem: Problem::UnauthorizedItem, name: q })
    } else {
        None
    }
}

/// The reports for the imports among `items` that the allowlist does not
/// cover, in order. A single-segment import is no exception here.
pub open spec fn import_reports(list: Seq<Seq<Seq<char>>>, items: Seq<Item>) -> Seq<ViolationView>
    decreases items.len(),
{
    if items.len() == 0 {
        Seq::empty()
    } else {
        let before = import_reports(list, items.drop_last());
        let it = items.last();
        match it.kind {
            ItemKind::Use(q) => if allowed_by(list, name_view(q@)) {
                before
            } else {
                before.push(ViolationView { span: it.span, problem: Problem::UnauthorizedImport, name: name_view(q@) })
            },
            _ => before,
        }
    }
}

/// The problem with a top-level declaration, if any. Only imports, external
/// crates, functions, and aliases, constants and immutable statics of allowed
/// type shapes belong to the subset.
pub open spec fn item_problem(it: Item) -> Option<Problem> {
    match it.kind {
        ItemKind::TyAlias(t) => if type_allowed(t) {
            None
        } else {
            Some(Problem::UnauthorizedAliasType)
        },
        ItemKind::Const(t) => if type_allowed(t) {
            None
        } else {
            Some(Problem::UnauthorizedAliasType)
        },
        ItemKind::Static(t, m) => if type_allowed(t) && m == Mutability::Not {
            None
        } else {
            Some(Problem::UnauthorizedStatic)
        },
        ItemKind::Use(_) | ItemKind::ExternCrate | ItemKind::Fn => None,
        _ => Some(Problem::UnauthorizedDeclaration),
    }
}

/// The report for a parameter pattern. The walk goes down through plain
/// bindings and stops at the first annotated binding or other pattern.
pub open spec fn param_report(p: Pattern) -> Option<ViolationView>
    decreases p,
{
    match p {
        Pattern::Binding { mode, span, sub } => if mode != BindingMode::Unannotated {
            Some(report(span, Problem::ParamMutability))
        } else {
            match sub {
                Some(s) => param_report(*s),
                None => None,
            }
        },
        Pattern::Other { span } => Some(report(span, Problem::WrongParamFormat)),
    }
}

/// The problem with a refused parameter type.
pub open spec fn param_type_problem(t: TypeShape) -> Problem {
    match t {
        TypeShape::Reference(_) | TypeShape::Pointer(_) => Problem::ParamReference,
        _ => Problem::UnsupportedParamType,
    }
}

/// The reports for the parameter types of a signature, in order.
pub open spec fn signature_reports(inputs: Seq<ParamType>) -> Seq<ViolationView>
    decreases inputs.len(),
{
    if inputs.len() == 0 {
        Seq::empty()
    } else {
        let before = signature_reports(inputs.drop_last());
        let p = inputs.last();
        if type_allowed(p.shape) {
            before
        } else {
            before.push(report(p.span, param_type_problem(p.shape)))
        }
    }
}

/// A segment-for-segment copy of a path.
fn copy_path(q: &Vec<String>) -> (r: Vec<String>)
    ensures
        name_view(r@) == name_view(q@),
{
    let mut r: Vec<String> = Vec::new();
    let mut i: usize = 0;
    while i < q.len()
        invariant
            0 <= i <= q.len(),
            name_view(r@) == name_view(q@.take(i as int)),
        decreases q.len() - i,
    {
        let s = q[i].clone();
        proof {
            crate::names::lemma_name_view_push(r@, s);
            assert(q@.take(i + 1) == q@.take(i as int).push(q@[i as int]));
            crate::names::lemma_name_view_push(q@.take(i as int), q@[i as int]);
        }
        r.push(s);
        i = i + 1;
    }
    proof {
        assert(q@.take(q.len() as int) == q@);
    }
    r
}

/// A violation of `p` at `span` concerning the path `q`.
fn path_violation(span: Span, p: Problem, q: &Vec<String>) -> (r: Violation)
    ensures
        r@ == (ViolationView { span, problem: p, name: name_view(q@) }),
{
    Violation { span, problem: p, name: copy_path(q) }
}

/// The checks that depend on the path allowlist.
pub struct Hacspec {
    allowed_paths: Vec<Vec<String>>,
}

impl Hacspec {
    /// The allowlist of paths this checker applies.
    pub closed spec fn allowlist(&self) -> Seq<Seq<Seq<char>>> {
        allowlist_view(self.allowed_paths@)
    }

    /// A checker with the subset's own path allowlist.
    pub fn new() -> (r: Hacspec)
        ensures
            r.allowlist() == default_paths(),
    {
        Hacspec { allowed_paths: default_path_allowlist() }
    }

    /// A checker with the path allowlist `paths`.
    pub fn with_allowlist(paths: Vec<Vec<String>>) -> (r: Hacspec)
        ensures
            r.allowlist() == allowlist_view(paths@),
    {
        Hacspec { allowed_paths: paths }
    }

    /// Checks a resolved path used at `span`.
    pub fn check_path(&self, path: &Vec<String>, span: Span) -> (r: Option<Violation>)
        ensures
            opt_view(r) == path_report(self.allowlist(), name_view(path@), span),
    {
        if path.len() == 1 || is_allowed(&self.allowed_paths, path) {
            None
        } else {
            Some(path_violation(span, Problem::UnauthorizedItem, path))
        }
    }

    /// Checks the imports of a module's items, in order.
    pub fn check_mod(&self, items: &Vec<Item>) -> (r: Vec<Violation>)
        ensures
            views(r@) == import_reports(self.allowlist(), items@),
    {
        let mut r: Vec<Violation> = Vec::new();
        let mut i: usize = 0;
        while i < items.len()
            invariant
                0 <= i <= items.len(),
                views(r@) == import_reports(self.allowlist(), items@.take(i as int)),
            decreases items.len() - i,
        {
            let ghost before = r@;
            proof {
                assert(items@.take(i + 1).drop_last() == items@.take(i as int));
            }
            match &items[i].kind {
                ItemKind::Use(q) => {
                    if !is_allowed(&self.allowed_paths, q) {
                        r.push(path_violation(items[i].span, Problem::UnauthorizedImport, q));
                        assert(views(r@) == views(before).push(r@.last()@)) by {
                            assert(views(r@) =~= views(before).push(r@.last()@));
                        }
                    }
                },
                _ => {},
            }
            i = i + 1;
        }
        proof {
            assert(items@.take(items.len() as int) == items@);
        }
        r
    }
}

/// Checks one top-level declaration.
pub fn check_item(it: &Item) -> (r: Option<Violation>)
    ensures
        opt_view(r) == report_opt(it.span, item_problem(*it)),
{
    match &it.kind {
        ItemKind::TyAlias(t) => {
            if allowed_type(t) {
                None
            } else {
                Some(violation(it.span, Problem::UnauthorizedAliasType))
            }
        },
        ItemKind::Const(t) => {
            if allowed_type(t) {
                None
            } else {
                Some(violation(it.span, Problem::UnauthorizedAliasType))
            }
        },
        ItemKind::Static(t, m) => {
            if allowed_type(t) && *m == Mutability::Not {
                None
            } else {
                Some(violation(it.span, Problem::UnauthorizedStatic))
            }
        },
        ItemKind::Use(_) => None,
        ItemKind::ExternCrate => None,
        ItemKind::Fn => None,
        _ => Some(violation(it.span, Problem::UnauthorizedDeclaration)),
    }
}

/// Checks the pattern of one function parameter.
pub fn check_param(p: &Pattern) -> (r: Option<Violation>)
    ensures
        opt_view(r) == param_report(*p),
    decreases p,
{
    match p {
        Pattern::Binding { mode, span, sub } => {
            if *mode != BindingMode::Unannotated {
                Some(violation(*span, Problem::ParamMutability))
            } else {
                match sub {
                    Some(s) => check_param(s),
                    None => None,
                }
            }
        },
        Pattern::Other { span } => Some(violation(*span, Problem::WrongParamFormat)),
    }
}

/// Checks the parameter types of a function signature, in order.
pub fn check_fn(inputs: &Vec<ParamType>) -> (r: Vec<Violation>)
    ensures
        views(r@) == signature_reports(inputs@),
{
    let mut r: Vec<Violation> = Vec::new();
    let mut i: usize = 0;
    while i < inputs.len()
        invariant
            0 <= i <= inputs.len(),
            views(r@) == signature_reports(inputs@.take(i as int)),
        decreases inputs.len() - i,
    {
        let ghost before = r@;
        proof {
            assert(inputs@.take(i + 1).drop_last() == inputs@.take(i as int));
        }
        let p = &inputs[i];
        if !allowed_type(&p.shape) {
            let problem = match &p.shape {
                TypeShape::Reference(_) => Problem::ParamReference,
                TypeShape::Pointer(_) => Problem::ParamReference,
                _ => Problem::UnsupportedParamType,
            };
            r.push(violation(p.span, problem));
            assert(views(r@) == views(before).push(r@.last()@)) by {
                assert(views(r@) =~= views(before).push(r@.last()@));
            }
        }
        i = i + 1;
    }
    proof {
        assert(inputs@.take(inputs.len() as int) == inputs@);
    }
    r
}

} // verus!
