//! Violations: where a non-conforming construct stands and what is wrong with it.
use vstd::prelude::*;
use vstd::string::*;
use crate::names::name_view;

verus! {

/// A source location, as byte offsets handed over by the front end.
#[derive(Clone, Copy, Debug, PartialEq, Eq, Structural)]
pub struct Span {
    pub lo: u32,
    pub hi: u32,
}

/// The two diagnostic identifiers: subset membership, and macro invocations.
#[derive(Clone, Copy, Debug, PartialEq, Eq, Structural)]
pub enum LintId {
    Hacspec,
    HacspecMacros,
}

/// What is wrong with a construct.
#[derive(Clone, Copy, Debug, PartialEq, Eq, Structural)]
pub enum Problem {
    /// A resolved path that no allowlist entry covers.
    UnauthorizedItem,
    /// An import whose path no allowlist entry covers.
    UnauthorizedImport,
    /// A type alias or constant of a refused type shape.
    UnauthorizedAliasType,
    /// A mutable static, or a static of a refused type shape.
    UnauthorizedStatic,
    /// A declaration kind outside the subset.
    UnauthorizedDeclaration,
    /// A parameter binding annotated with `mut`, `ref` or `ref mut`.
    ParamMutability,
    /// A parameter pattern that is not a plain binding.
    WrongParamFormat,
    /// A parameter of reference or raw pointer type.
    ParamReference,
    /// A parameter of another refused type shape.
    UnsupportedParamType,
    /// An address-of expression written in the source.
    UnauthorizedReference,
    /// A type ascription of a refused type shape.
    UnauthorizedExprType,
    /// An expression form outside the subset.
    UnauthorizedExpression,
    /// A macro invocation outside the subset, or a malformed type declaration.
    ForbiddenMacro,
}

/// One report: a location, what is wrong there, and the path concerned
/// (empty where the problem concerns no path).
#[derive(Clone, Debug, PartialEq, Eq)]
pub struct Violation {
    pub span: Span,
    pub problem: Problem,
    pub name: Vec<String>,
}

/// The mathematical value of a violation.
pub struct ViolationView {
    pub span: Span,
    pub problem: Problem,
    pub name: Seq<Seq<char>>,
}

impl View for Violation {
    type V = ViolationView;

    open spec fn view(&self) -> ViolationView {
        ViolationView { span: self.span, problem: self.problem, name: name_view(self.name@) }
    }
}

/// The views of a sequence of violations.
pub open spec fn views(s: Seq<Violation>) -> Seq<ViolationView> {
    s.map_values(|v: Violation| v@)
}

/// The view of a violation that may be absent.
pub open spec fn opt_view(o: Option<Violation>) -> Option<ViolationView> {
    match o {
        Some(v) => Some(v@),
        None => None,
    }
}

/// A report of `p` at `span`, concerning no path.
pub open spec fn report(span: Span, p: Problem) -> ViolationView {
    ViolationView { span, problem: p, name: Seq::empty() }
}

/// A report of the problem `p` at `span` where there is one.
pub open spec fn report_opt(span: Span, p: Option<Problem>) -> Option<ViolationView> {
    match p {
        Some(p) => Some(report(span, p)),
        None => None,
    }
}

/// A violation of `p` at `span`, concerning no path.
pub fn violation(span: Span, p: Problem) -> (r: Violation)
    ensures
        r@ == report(span, p),
{
    let r = Violation { span, problem: p, name: Vec::new() };
    assert(r@.name =~= Seq::<Seq<char>>::empty());
    r
}

/// The characters of a path, its segments separated by `::`.
pub open spec fn joined_path(q: Seq<Seq<char>>) -> Seq<char>
    decreases q.len(),
{
    if q.len() == 0 {
        Seq::empty()
    } else if q.len() == 1 {
        q[0]
    } else {
        joined_path(q.drop_last()) + "::"@ + q.last()
    }
}

/// The identifier under which each problem is reported.
pub open spec fn lint_of(p: Problem) -> LintId {
    match p {
        Problem::ForbiddenMacro => LintId::HacspecMacros,
        _ => LintId::Hacspec,
    }
}

/// The human-readable message of a violation.
pub open spec fn message_of(v: ViolationView) -> Seq<char> {
    match v.problem {
        Problem::UnauthorizedItem | Problem::UnauthorizedImport => "unauthorized item `"@
            + joined_path(v.name) + "`"@,
        Problem::UnauthorizedAliasType => "unauthorized type for alias/constant"@,
        Problem::UnauthorizedStatic => "unauthorized static item"@,
        Problem::UnauthorizedDeclaration => "unauthorized item"@,
        Problem::ParamMutability => "cannot annotate function parameter with mutability"@,
        Problem::WrongParamFormat => "wrong parameter format"@,
        Problem::ParamReference => "function parameters cannot be references"@,
        Problem::UnsupportedParamType => "unsupported type"@,
        Problem::UnauthorizedReference => "unauthorized reference expression"@,
        Problem::UnauthorizedExprType => "unauthorized type for expression"@,
        Problem::UnauthorizedExpression => "unauthorized expression"@,
        Problem::ForbiddenMacro => "forbidden macro"@,
    }
}

/// The path `q` written out with `::` between its segments.
pub fn join_path(q: &Vec<String>) -> (r: String)
    ensures
        r@ == joined_path(name_view(q@)),
{
    let ghost qv = name_view(q@);
    let mut r = String::new();
    let mut i: usize = 0;
    while i < q.len()
        invariant
            0 <= i <= q.len(),
            qv == name_view(q@),
            r@ == joined_path(qv.take(i as int)),
        decreases q.len() - i,
    {
        proof {
            assert(qv.take(i + 1).drop_last() == qv.take(i as int));
        }
        if i > 0 {
            r.append("::");
        }
        r.append(q[i].as_str());
        i = i + 1;
    }
    proof {
        assert(qv.take(q.len() as int) == qv);
    }
    r
}

impl Problem {
    /// The identifier under which this problem is reported.
    pub fn lint(&self) -> (r: LintId)
        ensures
            r == lint_of(*self),
    {
        match self {
            Problem::ForbiddenMacro => LintId::HacspecMacros,
            _ => LintId::Hacspec,
        }
    }
}

impl Violation {
    /// The message reported for this violation.
    pub fn message(&self) -> (r: String)
        ensures
            r@ == message_of(self@),
    {
        match self.problem {
            Problem::UnauthorizedItem | Problem::UnauthorizedImport => {
                let mut r = String::from_str("unauthorized item `");
                let p = join_path(&self.name);
                r.append(p.as_str());
                r.append("`");
                r
            },
            Problem::UnauthorizedAliasType => String::from_str(
                "unauthorized type for alias/constant",
            ),
            Problem::UnauthorizedStatic => String::from_str("unauthorized static item"),
            Problem::UnauthorizedDeclaration => String::from_str("unauthorized item"),
            Problem::ParamMutability => String::from_str(
                "cannot annotate function parameter with mutability",
            ),
            Problem::WrongParamFormat => String::from_str("wrong parameter format"),
            Problem::ParamReference => String::from_str("function parameters cannot be references"),
            Problem::UnsupportedParamType => String::from_str("unsupported type"),
            Problem::UnauthorizedReference => String::from_str("unauthorized reference expression"),
            Problem::UnauthorizedExprType => String::from_str("unauthorized type for expression"),
            Problem::UnauthorizedExpression => String::from_str("unauthorized expression"),
            Problem::ForbiddenMacro => String::from_str("forbidden macro"),
        }
    }
}

} // verus!
