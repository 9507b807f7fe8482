use hacspec_checker::decls::{check_fn, check_item, check_param, Hacspec};
use hacspec_checker::diag::{join_path, LintId, Problem, Span, Violation};
use hacspec_checker::exprs::{check_expr, classify, ExprClass};
use hacspec_checker::lints::{Level, LintGroup};
use hacspec_checker::macros::HacspecMacros;
use hacspec_checker::names::{entry_matches_name, is_allowed};
use hacspec_checker::policy::{default_path_allowlist, misc_macro_allowlist, type_decl_macro_allowlist};
use hacspec_checker::shapes::{allowed_type, TypeShape};
use hacspec_checker::syntax::{
    BindingMode, DesugaringKind, Expr, ExprKind, Item, ItemKind, MacCall, Mutability, Origin,
    ParamType, Pattern, TokenTree,
};
use hacspec_checker::unit::{check_unit, Checker, Node};

fn path(segs: &[&str]) -> Vec<String> {
    segs.iter().map(|s| s.to_string()).collect()
}

fn sp(lo: u32, hi: u32) -> Span {
    Span { lo, hi }
}

fn named(segs: &[&str]) -> TypeShape {
    TypeShape::Path(path(segs))
}

fn mac(segs: &[&str], args: Vec<TokenTree>, span: Span) -> MacCall {
    MacCall { path: path(segs), args, span }
}

fn ident(s: &str) -> TokenTree {
    TokenTree::Ident(s.to_string())
}

fn expr(kind: ExprKind, origin: Origin) -> Expr {
    Expr { kind, origin, span: sp(1, 2) }
}

#[test]
fn entry_is_prefix_of_longer_name() {
    assert!(entry_matches_name(&path(&["std"]), &path(&["std", "ops", "Range"])));
    assert!(entry_matches_name(&path(&["std", "ops"]), &path(&["std", "ops"])));
    assert!(!entry_matches_name(&path(&["std", "ops", "Range"]), &path(&["std", "ops"])));
    assert!(!entry_matches_name(&path(&["std", "fmt"]), &path(&["std", "ops", "Range"])));
    assert!(entry_matches_name(&path(&[]), &path(&["anything"])));
}

#[test]
fn allowlist_is_a_union_of_prefixes() {
    let list = vec![path(&["std", "ops"]), path(&["std", "cmp", "min"])];
    assert!(is_allowed(&list, &path(&["std", "ops", "Add"])));
    assert!(is_allowed(&list, &path(&["std", "cmp", "min"])));
    assert!(!is_allowed(&list, &path(&["std", "cmp", "max"])));
    assert!(!is_allowed(&list, &path(&["std", "cmp"])));
    assert!(!is_allowed(&list, &path(&["core", "ops", "Add"])));
    assert!(!is_allowed(&Vec::new(), &path(&["std"])));
}

#[test]
fn default_path_allowlist_contents() {
    let list = default_path_allowlist();
    assert_eq!(list.len(), 14);
    assert_eq!(list[0], path(&["hacspec"]));
    assert_eq!(list[13], path(&["{{root}}", "std", "ops", "RangeFull"]));
    assert!(is_allowed(&list, &path(&["std", "collections", "HashMap"])));
    assert!(is_allowed(&list, &path(&["hacspec", "prelude"])));
    assert!(!is_allowed(&list, &path(&["core", "mem"])));
}

#[test]
fn macro_allowlists_contents() {
    let decl = type_decl_macro_allowlist();
    assert_eq!(decl.len(), 8);
    assert!(is_allowed(&decl, &path(&["bytes"])));
    assert!(is_allowed(&decl, &path(&["abstract_unsigned_public_integer"])));
    assert!(!is_allowed(&decl, &path(&["println"])));
    let misc = misc_macro_allowlist();
    assert_eq!(misc.len(), 10);
    assert!(is_allowed(&misc, &path(&["assert_eq"])));
    assert!(!is_allowed(&misc, &path(&["vec"])));
}

#[test]
fn type_shape_recursion() {
    let nested = TypeShape::Array(Box::new(TypeShape::Array(Box::new(TypeShape::Tuple(vec![
        named(&["u8"]),
        named(&["u32"]),
    ])))));
    assert!(allowed_type(&nested));
    let with_ref =
        TypeShape::Array(Box::new(TypeShape::Reference(Box::new(named(&["u8"])))));
    assert!(!allowed_type(&with_ref));
    assert!(allowed_type(&TypeShape::Tuple(Vec::new())));
}

#[test]
fn type_shapes_refused() {
    assert!(!allowed_type(&TypeShape::Pointer(Box::new(named(&["u8"])))));
    assert!(!allowed_type(&TypeShape::Slice(Box::new(named(&["u8"])))));
    assert!(!allowed_type(&TypeShape::FnPointer));
    assert!(!allowed_type(&TypeShape::TraitObject));
    assert!(!allowed_type(&TypeShape::Opaque));
    assert!(!allowed_type(&TypeShape::Never));
    assert!(!allowed_type(&TypeShape::Infer));
    assert!(!allowed_type(&TypeShape::Malformed));
    let bad_tuple = TypeShape::Tuple(vec![named(&["u8"]), TypeShape::Never]);
    assert!(!allowed_type(&bad_tuple));
}

#[test]
fn expression_classes() {
    assert_eq!(classify(&ExprKind::Binary), ExprClass::Allowed);
    assert_eq!(classify(&ExprKind::Match), ExprClass::Allowed);
    assert_eq!(classify(&ExprKind::AddrOf), ExprClass::NeedsContext);
    assert_eq!(classify(&ExprKind::Closure), ExprClass::Forbidden);
    assert_eq!(classify(&ExprKind::Continue), ExprClass::Forbidden);
    assert_eq!(classify(&ExprKind::Box), ExprClass::Forbidden);
    assert_eq!(classify(&ExprKind::Type(named(&["u8"]))), ExprClass::Allowed);
    assert_eq!(classify(&ExprKind::Type(TypeShape::FnPointer)), ExprClass::Forbidden);
}

#[test]
fn reference_exception_for_loops() {
    let desugared = expr(ExprKind::AddrOf, Origin::Desugaring(DesugaringKind::ForLoop));
    assert!(check_expr(&desugared).is_none());
    let written = expr(ExprKind::AddrOf, Origin::Source);
    let v = check_expr(&written).unwrap();
    assert_eq!(v.problem, Problem::UnauthorizedReference);
    assert_eq!(v.span, sp(1, 2));
    let other = expr(ExprKind::AddrOf, Origin::Desugaring(DesugaringKind::QuestionMark));
    assert_eq!(check_expr(&other).unwrap().problem, Problem::UnauthorizedReference);
    let from_macro = expr(ExprKind::AddrOf, Origin::Macro);
    assert_eq!(check_expr(&from_macro).unwrap().problem, Problem::UnauthorizedReference);
}

#[test]
fn expression_problems() {
    let c = check_expr(&expr(ExprKind::Closure, Origin::Source)).unwrap();
    assert_eq!(c.problem, Problem::UnauthorizedExpression);
    let t = check_expr(&expr(ExprKind::Type(TypeShape::TraitObject), Origin::Source)).unwrap();
    assert_eq!(t.problem, Problem::UnauthorizedExprType);
    assert!(check_expr(&expr(ExprKind::Call, Origin::Source)).is_none());
    assert!(check_expr(&expr(ExprKind::Malformed, Origin::Source)).is_some());
}

#[test]
fn path_checks() {
    let h = Hacspec::new();
    assert!(h.check_path(&path(&["x"]), sp(0, 1)).is_none());
    assert!(h.check_path(&path(&["std", "ops", "Add"]), sp(0, 1)).is_none());
    let v = h.check_path(&path(&["core", "mem", "swap"]), sp(3, 9)).unwrap();
    assert_eq!(v.problem, Problem::UnauthorizedItem);
    assert_eq!(v.name, path(&["core", "mem", "swap"]));
    assert_eq!(v.span, sp(3, 9));
    assert_eq!(v.message(), "unauthorized item `core::mem::swap`");
}

#[test]
fn single_segment_import_needs_an_entry() {
    let h = Hacspec::new();
    let items = vec![
        Item { kind: ItemKind::Use(path(&["helper"])), span: sp(0, 5) },
        Item { kind: ItemKind::Use(path(&["hacspec", "prelude"])), span: sp(6, 9) },
        Item { kind: ItemKind::Fn, span: sp(10, 20) },
    ];
    let r = h.check_mod(&items);
    assert_eq!(r.len(), 1);
    assert_eq!(r[0].problem, Problem::UnauthorizedImport);
    assert_eq!(r[0].span, sp(0, 5));
    assert_eq!(r[0].message(), "unauthorized item `helper`");
}

#[test]
fn item_kinds() {
    let ok = |kind| check_item(&Item { kind, span: sp(0, 1) }).is_none();
    let problem = |kind| check_item(&Item { kind, span: sp(0, 1) }).unwrap().problem;
    assert!(ok(ItemKind::Fn));
    assert!(ok(ItemKind::ExternCrate));
    assert!(ok(ItemKind::Use(path(&["core"]))));
    assert!(ok(ItemKind::TyAlias(TypeShape::Array(Box::new(named(&["u8"]))))));
    assert!(ok(ItemKind::Const(named(&["u32"]))));
    assert_eq!(problem(ItemKind::TyAlias(TypeShape::FnPointer)), Problem::UnauthorizedAliasType);
    assert_eq!(
        problem(ItemKind::Const(TypeShape::Reference(Box::new(named(&["str"]))))),
        Problem::UnauthorizedAliasType
    );
    assert_eq!(problem(ItemKind::Struct), Problem::UnauthorizedDeclaration);
    assert_eq!(problem(ItemKind::Impl), Problem::UnauthorizedDeclaration);
    assert_eq!(problem(ItemKind::Trait), Problem::UnauthorizedDeclaration);
    assert_eq!(
        problem(ItemKind::Static(TypeShape::Pointer(Box::new(named(&["u8"]))), Mutability::Not)),
        Problem::UnauthorizedStatic
    );
}

#[test]
fn static_items() {
    let mutable = Item { kind: ItemKind::Static(named(&["u32"]), Mutability::Mut), span: sp(0, 30) };
    let r = check_unit(&vec![Node::Item(mutable)]);
    assert_eq!(r.len(), 1);
    assert_eq!(r[0].problem, Problem::UnauthorizedStatic);
    assert_eq!(r[0].message(), "unauthorized static item");
    let fixed = Item { kind: ItemKind::Static(named(&["u32"]), Mutability::Not), span: sp(0, 26) };
    assert!(check_unit(&vec![Node::Item(fixed)]).is_empty());
}

#[test]
fn parameter_patterns() {
    let plain = Pattern::Binding { mode: BindingMode::Unannotated, span: sp(0, 1), sub: None };
    assert!(check_param(&plain).is_none());
    let mutable = Pattern::Binding { mode: BindingMode::Mutable, span: sp(2, 7), sub: None };
    let v = check_param(&mutable).unwrap();
    assert_eq!(v.problem, Problem::ParamMutability);
    assert_eq!(v.message(), "cannot annotate function parameter with mutability");
    let by_ref = Pattern::Binding {
        mode: BindingMode::Ref,
        span: sp(2, 7),
        sub: Some(Box::new(Pattern::Other { span: sp(9, 10) })),
    };
    assert_eq!(check_param(&by_ref).unwrap().span, sp(2, 7));
    let nested = Pattern::Binding {
        mode: BindingMode::Unannotated,
        span: sp(0, 1),
        sub: Some(Box::new(Pattern::Binding { mode: BindingMode::RefMut, span: sp(4, 5), sub: None })),
    };
    assert_eq!(check_param(&nested).unwrap().span, sp(4, 5));
    let tuple = Pattern::Other { span: sp(0, 6) };
    assert_eq!(check_param(&tuple).unwrap().problem, Problem::WrongParamFormat);
}

#[test]
fn parameter_types() {
    let inputs = vec![
        ParamType { shape: named(&["u8"]), span: sp(0, 2) },
        ParamType { shape: TypeShape::Reference(Box::new(named(&["u8"]))), span: sp(3, 6) },
        ParamType { shape: TypeShape::FnPointer, span: sp(7, 12) },
        ParamType { shape: TypeShape::Pointer(Box::new(named(&["u8"]))), span: sp(13, 20) },
    ];
    let r = check_fn(&inputs);
    assert_eq!(r.len(), 3);
    assert_eq!(r[0].problem, Problem::ParamReference);
    assert_eq!(r[0].span, sp(3, 6));
    assert_eq!(r[1].problem, Problem::UnsupportedParamType);
    assert_eq!(r[1].message(), "unsupported type");
    assert_eq!(r[2].problem, Problem::ParamReference);
}

#[test]
fn reference_parameter_scenario() {
    let nodes = vec![
        Node::Item(Item { kind: ItemKind::Fn, span: sp(0, 40) }),
        Node::FnDecl(vec![ParamType {
            shape: TypeShape::Reference(Box::new(named(&["i32"]))),
            span: sp(8, 12),
        }]),
        Node::Param(Pattern::Binding { mode: BindingMode::Unannotated, span: sp(5, 6), sub: None }),
        Node::Expr(expr(ExprKind::Block, Origin::Source)),
    ];
    let r = check_unit(&nodes);
    assert_eq!(r.len(), 1);
    assert_eq!(r[0].problem, Problem::ParamReference);
    assert_eq!(r[0].message(), "function parameters cannot be references");
}

#[test]
fn declared_type_then_use() {
    let decl = mac(&["bytes"], vec![ident("Key"), TokenTree::Other, TokenTree::Literal("32".to_string())], sp(0, 16));
    let usage = mac(&["Key", "new"], Vec::new(), sp(30, 40));
    let r = check_unit(&vec![Node::Mac(decl), Node::Mac(usage)]);
    assert!(r.is_empty());
}

#[test]
fn use_before_declared_type() {
    let decl = mac(&["bytes"], vec![ident("Key"), TokenTree::Other, TokenTree::Literal("32".to_string())], sp(30, 46));
    let usage = mac(&["Key", "new"], Vec::new(), sp(0, 10));
    let r = check_unit(&vec![Node::Mac(usage), Node::Mac(decl)]);
    assert_eq!(r.len(), 1);
    assert_eq!(r[0].problem, Problem::ForbiddenMacro);
    assert_eq!(r[0].span, sp(0, 10));
    assert_eq!(r[0].problem.lint(), LintId::HacspecMacros);
}

#[test]
fn declaration_with_other_nodes_between() {
    let decl = mac(&["nat_mod"], vec![ident("FieldElement")], sp(0, 5));
    let usage = mac(&["FieldElement", "from_literal"], Vec::new(), sp(50, 60));
    let nodes = vec![
        Node::Mac(decl),
        Node::Expr(expr(ExprKind::Lit, Origin::Source)),
        Node::Mac(mac(&["assert_eq"], Vec::new(), sp(10, 20))),
        Node::Mac(usage),
    ];
    assert!(check_unit(&nodes).is_empty());
}

#[test]
fn malformed_type_declaration() {
    let mut m = HacspecMacros::new();
    let bad = mac(&["array"], vec![TokenTree::Literal("3".to_string())], sp(0, 9));
    let v = m.check_mac(&bad).unwrap();
    assert_eq!(v.problem, Problem::ForbiddenMacro);
    assert_eq!(v.message(), "forbidden macro");
    let empty = mac(&["public_bytes"], Vec::new(), sp(0, 9));
    assert!(m.check_mac(&empty).is_some());
    let group = mac(&["poly"], vec![TokenTree::Delimited], sp(0, 9));
    assert!(m.check_mac(&group).is_some());
}

#[test]
fn macro_registry() {
    let mut m = HacspecMacros::new();
    assert!(!m.check_added_macro(&path(&["State"])));
    assert!(m.check_mac(&mac(&["State"], Vec::new(), sp(0, 1))).is_some());
    assert!(m.check_mac(&mac(&["array"], vec![ident("State")], sp(0, 1))).is_none());
    assert!(m.check_added_macro(&path(&["State"])));
    assert!(m.check_added_macro(&path(&["State", "new"])));
    assert!(m.check_mac(&mac(&["State"], Vec::new(), sp(0, 1))).is_none());
    assert!(m.check_mac(&mac(&["println"], Vec::new(), sp(0, 1))).is_none());
    assert!(m.check_mac(&mac(&["vec"], Vec::new(), sp(0, 1))).is_some());
    m.reset();
    assert!(!m.check_added_macro(&path(&["State"])));
    let d = HacspecMacros::default();
    assert!(!d.check_added_macro(&path(&["State"])));
}

#[test]
fn unauthorized_import_scenario() {
    let mut c = Checker::with_allowlist(vec![path(&["std", "ops"]), path(&["std", "cmp", "min"])]);
    let nodes = vec![Node::Module(vec![Item {
        kind: ItemKind::Use(path(&["std", "collections", "HashMap"])),
        span: sp(0, 32),
    }])];
    let r = c.run(&nodes);
    assert_eq!(r.len(), 1);
    assert_eq!(r[0].problem, Problem::UnauthorizedImport);
    assert_eq!(r[0].message(), "unauthorized item `std::collections::HashMap`");
    assert_eq!(r[0].problem.lint(), LintId::Hacspec);
}

#[test]
fn running_twice_gives_the_same_reports() {
    let nodes = vec![
        Node::Mac(mac(&["Key", "new"], Vec::new(), sp(0, 10))),
        Node::Mac(mac(&["bytes"], vec![ident("Key")], sp(11, 20))),
        Node::Path(path(&["core", "mem"]), sp(21, 30)),
    ];
    let mut c = Checker::new();
    let first = c.run(&nodes);
    let second = c.run(&nodes);
    assert_eq!(first.len(), 2);
    assert_eq!(first, second);
    let fresh: Vec<Violation> = check_unit(&nodes);
    assert_eq!(first, fresh);
}

#[test]
fn path_joining() {
    assert_eq!(join_path(&path(&["a", "b", "c"])), "a::b::c");
    assert_eq!(join_path(&path(&["a"])), "a");
    assert_eq!(join_path(&Vec::new()), "");
}

#[test]
fn lint_levels() {
    assert_eq!(LintId::Hacspec.default_level(), Level::Allow);
    assert_eq!(LintId::HacspecMacros.default_level(), Level::Warn);
    assert_eq!(LintGroup::Correctness.default_level(), Level::Deny);
    assert!(Level::Allow < Level::Warn && Level::Warn < Level::Deny);
    let l = LintId::HacspecMacros.lint();
    assert_eq!(l.name, "hacspec_macros");
    assert_eq!(l.group, "hacspec_lang");
    assert_eq!(LintId::Hacspec.lint().group, "pedantic");
    assert_eq!(l.deprecation, None);
}

#[test]
fn messages_of_every_problem() {
    let msg = |problem| Violation { span: sp(0, 1), problem, name: Vec::new() }.message();
    assert_eq!(msg(Problem::UnauthorizedAliasType), "unauthorized type for alias/constant");
    assert_eq!(msg(Problem::UnauthorizedStatic), "unauthorized static item");
    assert_eq!(msg(Problem::UnauthorizedDeclaration), "unauthorized item");
    assert_eq!(msg(Problem::ParamMutability), "cannot annotate function parameter with mutability");
    assert_eq!(msg(Problem::WrongParamFormat), "wrong parameter format");
    assert_eq!(msg(Problem::ParamReference), "function parameters cannot be references");
    assert_eq!(msg(Problem::UnsupportedParamType), "unsupported type");
    assert_eq!(msg(Problem::UnauthorizedReference), "unauthorized reference expression");
    assert_eq!(msg(Problem::UnauthorizedExprType), "unauthorized type for expression");
    assert_eq!(msg(Problem::UnauthorizedExpression), "unauthorized expression");
    assert_eq!(msg(Problem::ForbiddenMacro), "forbidden macro");
    assert_eq!(Problem::UnauthorizedStatic.lint(), LintId::Hacspec);
}
