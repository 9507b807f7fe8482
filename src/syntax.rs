//! The resolved syntax that the front end hands to the checker.
use vstd::prelude::*;
use crate::diag::Span;
use crate::shapes::TypeShape;

verus! {

/// Whether a declaration may be written through.
#[derive(Clone, Copy, Debug, PartialEq, Eq, Structural)]
pub enum Mutability {
    Not,
    Mut,
}

/// The annotation on a binding in a pattern.
#[derive(Clone, Copy, Debug, PartialEq, Eq, Structural)]
pub enum BindingMode {
    /// `x`.
    Unannotated,
    /// `mut x`.
    Mutable,
    /// `ref x`.
    Ref,
    /// `ref mut x`.
    RefMut,
}

/// A parameter pattern.
pub enum Pattern {
    /// A binding, possibly with a sub-pattern (`x @ p`).
    Binding { mode: BindingMode, span: Span, sub: Option<Box<Pattern>> },
    /// Any other pattern: a wildcard, a tuple, a struct, a literal, ...
    Other { span: Span },
}

/// A parameter type in a function signature.
pub struct ParamType {
    pub shape: TypeShape,
    pub span: Span,
}

/// The kinds of top-level declarations.
pub enum ItemKind {
    /// `use a::b::c;`, with the imported path.
    Use(Vec<String>),
    ExternCrate,
    Fn,
    TyAlias(TypeShape),
    Const(TypeShape),
    Static(TypeShape, Mutability),
    Mod,
    ForeignMod,
    GlobalAsm,
    OpaqueTy,
    Enum,
    Struct,
    Union,
    Trait,
    TraitAlias,
    Impl,
}

/// A top-level declaration.
pub struct Item {
    pub kind: ItemKind,
    pub span: Span,
}

/// The desugarings the front end performs.
#[derive(Clone, Copy, Debug, PartialEq, Eq, Structural)]
pub enum DesugaringKind {
    CondTemporary,
    QuestionMark,
    TryBlock,
    OpaqueTy,
    Async,
    Await,
    ForLoop,
}

/// Where a node comes from.
#[derive(Clone, Copy, Debug, PartialEq, Eq, Structural)]
pub enum Origin {
    /// Written in the source.
    Source,
    /// Produced by a macro expansion.
    Macro,
    /// Produced by a compiler pass over the syntax tree.
    AstPass,
    /// Produced by desugaring a higher-level construct.
    Desugaring(DesugaringKind),
}

/// The forms of expressions, without their sub-expressions.
pub enum ExprKind {
    Box,
    Array,
    Call,
    MethodCall,
    Tup,
    Binary,
    Unary,
    Lit,
    Cast,
    /// A type ascription, with the annotated type.
    Type(TypeShape),
    DropTemps,
    Loop,
    Match,
    Closure,
    Block,
    Assign,
    AssignOp,
    Field,
    Index,
    Path,
    /// `&e` or `&mut e`.
    AddrOf,
    Break,
    Continue,
    Ret,
    InlineAsm,
    Struct,
    Repeat,
    Yield,
    /// A node the front end could not make sense of.
    Malformed,
}

/// An expression node.
pub struct Expr {
    pub kind: ExprKind,
    pub origin: Origin,
    pub span: Span,
}

/// A token tree in a macro invocation's arguments.
pub enum TokenTree {
    Ident(String),
    Literal(String),
    /// Any other single token: punctuation, a lifetime, ...
    Other,
    /// A delimited group; its contents are not looked into.
    Delimited,
}

/// A macro invocation, before expansion.
pub struct MacCall {
    pub path: Vec<String>,
    pub args: Vec<TokenTree>,
    pub span: Span,
}

} // verus!
