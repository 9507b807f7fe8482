//! One checking run over a compilation unit: the nodes in traversal order,
//! each handed to its check, with a registry of minted type names that
//! starts empty.
use vstd::prelude::*;
use crate::decls::{
    check_fn, check_item, check_param, import_reports, item_problem, param_report, path_report,
    signature_reports, Hacspec,
};
use crate::diag::{opt_view, report, report_opt, views, Problem, Span, Violation, ViolationView};
use crate::exprs::{check_expr, expr_problem};
use crate::macros::{first_ident, mac_step, HacspecMacros};
use crate::names::{allowed_by, allowlist_view, entry_matches, name_view};
use crate::policy::{default_paths, misc_macros, type_decl_macros};
use crate::syntax::{Expr, Item, MacCall, ParamType, Pattern};

verus! {

/// A node of the resolved tree, as the host's walk meets it.
pub enum Node {
    /// A module, with its items; its imports are checked.
    Module(Vec<Item>),
    /// A top-level declaration.
    Item(Item),
    /// The pattern of a function parameter.
    Param(Pattern),
    /// The parameter types of a function signature.
    FnDecl(Vec<ParamType>),
    /// A resolved path, where it is used.
    Path(Vec<String>, Span),
    /// An expression.
    Expr(Expr),
    /// A macro invocation.
    Mac(MacCall),
}

/// The reports of an optional report.
pub open spec fn opt_seq(o: Option<ViolationView>) -> Seq<ViolationView> {
    match o {
        Some(v) => seq![v],
        None => Seq::empty(),
    }
}

/// The registry after one node, and the node's reports.
pub open spec fn node_step(list: Seq<Seq<Seq<char>>>, reg: Seq<Seq<Seq<char>>>, n: Node) -> (Seq<Seq<Seq<char>>>, Seq<ViolationView>) {
    match n {
        Node::Module(items) => (reg, import_reports(list, items@)),
        Node::Item(it) => (reg, opt_seq(report_opt(it.span, item_problem(it)))),
        Node::Param(p) => (reg, opt_seq(param_report(p))),
        Node::FnDecl(ins) => (reg, signature_reports(ins@)),
        Node::Path(q, span) => (reg, opt_seq(path_report(list, name_view(q@), span))),
        Node::Expr(e) => (reg, opt_seq(report_opt(e.span, expr_problem(e)))),
        Node::Mac(m) => (mac_step(reg, m).0, opt_seq(mac_step(reg, m).1)),
    }
}

/// The registry after the nodes `nodes`, from the registry `reg`, and the
/// reports of all the nodes in order.
pub open spec fn run_nodes(list: Seq<Seq<Seq<char>>>, reg: Seq<Seq<Seq<char>>>, nodes: Seq<Node>) -> (Seq<Seq<Seq<char>>>, Seq<ViolationView>)
    decreases nodes.len(),
{
    if nodes.len() == 0 {
        (reg, Seq::empty())
    } else {
        let before = run_nodes(list, reg, nodes.drop_last());
        let step = node_step(list, before.0, nodes.last());
        (step.0, before.1 + step.1)
    }
}

/// The reports of one run over `nodes` with the path allowlist `list`.
pub open spec fn unit_reports(list: Seq<Seq<Seq<char>>>, nodes: Seq<Node>) -> Seq<ViolationView> {
    run_nodes(list, Seq::empty(), nodes).1
}

/// Appends an optional violation.
fn push_opt(r: &mut Vec<Violation>, o: Option<Violation>)
    ensures
        views(final(r)@) == views(old(r)@) + opt_seq(opt_view(o)),
{
    match o {
        Some(v) => {
            r.push(v);
            assert(views(final(r)@) =~= views(old(r)@) + opt_seq(opt_view(o)));
        },
        None => {
            assert(views(final(r)@) =~= views(old(r)@) + opt_seq(opt_view(o)));
        },
    }
}

/// Appends all of `more`.
fn push_all(r: &mut Vec<Violation>, more: Vec<Violation>)
    ensures
        views(final(r)@) == views(old(r)@) + views(more@),
{
    let mut more = more;
    let ghost m = more@;
    r.append(&mut more);
    assert(views(final(r)@) =~= views(old(r)@) + views(m));
}

/// The checker for whole runs.
pub struct Checker {
    paths: Hacspec,
    macros: HacspecMacros,
}

impl Checker {
    /// The path allowlist this checker applies.
    pub closed spec fn allowlist(&self) -> Seq<Seq<Seq<char>>> {
        self.paths.allowlist()
    }

    /// The macro validator's allowlists are in place.
    pub closed spec fn wf(&self) -> bool {
        self.macros.wf()
    }

    /// A checker with the subset's own path allowlist.
    pub fn new() -> (r: Checker)
        ensures
            r.wf(),
            r.allowlist() == default_paths(),
    {
        Checker { paths: Hacspec::new(), macros: HacspecMacros::new() }
    }

    /// A checker with the path allowlist `paths`.
    pub fn with_allowlist(paths: Vec<Vec<String>>) -> (r: Checker)
        ensures
            r.wf(),
            r.allowlist() == allowlist_view(paths@),
    {
        Checker { paths: Hacspec::with_allowlist(paths), macros: HacspecMacros::new() }
    }

    /// Checks `nodes` in order and returns every violation, in order. The
    /// registry of minted type names starts empty, so that nothing carries
    /// over from an earlier run: the result depends on the allowlist and
    /// the nodes alone.
    pub fn run(&mut self, nodes: &Vec<Node>) -> (r: Vec<Violation>)
        requires
            old(self).wf(),
        ensures
            final(self).wf(),
            final(self).allowlist() == old(self).allowlist(),
            views(r@) == unit_reports(old(self).allowlist(), nodes@),
    {
        self.macros.reset();
        let mut r: Vec<Violation> = Vec::new();
        let mut i: usize = 0;
        while i < nodes.len()
            invariant
                0 <= i <= nodes.len(),
                self.wf(),
                self.allowlist() == old(self).allowlist(),
                (self.macros.registry(), views(r@)) == run_nodes(
                    self.allowlist(),
                    Seq::empty(),
                    nodes@.take(i as int),
                ),
            decreases nodes.len() - i,
        {
            proof {
                assert(nodes@.take(i + 1).drop_last() == nodes@.take(i as int));
            }
            match &nodes[i] {
                Node::Module(items) => {
                    let v = self.paths.check_mod(items);
                    push_all(&mut r, v);
                },
                Node::Item(it) => {
                    let v = check_item(it);
                    push_opt(&mut r, v);
                },
                Node::Param(p) => {
                    let v = check_param(p);
                    push_opt(&mut r, v);
                },
                Node::FnDecl(ins) => {
                    let v = check_fn(ins);
                    push_all(&mut r, v);
                },
                Node::Path(q, span) => {
                    let v = self.paths.check_path(q, *span);
                    push_opt(&mut r, v);
                },
                Node::Expr(e) => {
                    let v = check_expr(e);
                    push_opt(&mut r, v);
                },
                Node::Mac(m) => {
                    let v = self.macros.check_mac(m);
                    push_opt(&mut r, v);
                },
            }
            i = i + 1;
        }
        proof {
            assert(nodes@.take(nodes.len() as int) == nodes@);
        }
        r
    }
}

/// Checks `nodes` in one run with the subset's own path allowlist.
pub fn check_unit(nodes: &Vec<Node>) -> (r: Vec<Violation>)
    ensures
        views(r@) == unit_reports(default_paths(), nodes@),
{
    let mut c = Checker::new();
    c.run(nodes)
}

/// A run over `a` followed by `b` is the run over `a`, then the run over `b`
/// from the registry that `a` left, with the reports one after the other.
pub proof fn lemma_run_concat(list: Seq<Seq<Seq<char>>>, reg: Seq<Seq<Seq<char>>>, a: Seq<Node>, b: Seq<Node>)
    ensures
        run_nodes(list, reg, a + b) == (
            run_nodes(list, run_nodes(list, reg, a).0, b).0,
            run_nodes(list, reg, a).1 + run_nodes(list, run_nodes(list, reg, a).0, b).1,
        ),
    decreases b.len(),
{
    if b.len() == 0 {
        assert(a + b =~= a);
        assert(run_nodes(list, reg, a).1 + Seq::<ViolationView>::empty() =~= run_nodes(list, reg, a).1);
    } else {
        assert((a + b).drop_last() =~= a + b.drop_last());
        assert((a + b).last() == b.last());
        lemma_run_concat(list, reg, a, b.drop_last());
        let ra = run_nodes(list, reg, a);
        let rb = run_nodes(list, ra.0, b.drop_last());
        let st = node_step(list, rb.0, b.last());
        assert(ra.1 + rb.1 + st.1 =~= ra.1 + (rb.1 + st.1));
    }
}

/// The registry only grows: every entry present before a run is still in
/// place after it.
pub proof fn lemma_registry_grows(list: Seq<Seq<Seq<char>>>, reg: Seq<Seq<Seq<char>>>, nodes: Seq<Node>)
    ensures
        reg.len() <= run_nodes(list, reg, nodes).0.len(),
        forall|i: int| 0 <= i < reg.len() ==> #[trigger] run_nodes(list, reg, nodes).0[i] == reg[i],
    decreases nodes.len(),
{
    if nodes.len() > 0 {
        lemma_registry_grows(list, reg, nodes.drop_last());
    }
}

/// Declare before use: once a type-declaring invocation `d` has minted the
/// name `t`, a later invocation `u` whose path starts with `t` is accepted,
/// whatever nodes stand between them. (An invocation `u` that is itself of a
/// type-declaring macro is checked as a declaration instead.)
pub proof fn lemma_declared_before_use(
    list: Seq<Seq<Seq<char>>>,
    reg: Seq<Seq<Seq<char>>>,
    d: MacCall,
    mid: Seq<Node>,
    u: MacCall,
)
    requires
        allowed_by(type_decl_macros(), name_view(d.path@)),
        first_ident(d.args@) is Some,
        u.path@.len() >= 1,
        u.path@[0]@ == first_ident(d.args@)->Some_0,
        !allowed_by(type_decl_macros(), name_view(u.path@)),
    ensures
        run_nodes(list, reg, seq![Node::Mac(d)] + mid + seq![Node::Mac(u)]).1
            == run_nodes(list, reg, seq![Node::Mac(d)] + mid).1,
{
    let t = first_ident(d.args@)->Some_0;
    let first = seq![Node::Mac(d)];
    assert(first.drop_last() =~= Seq::<Node>::empty());
    let r1 = run_nodes(list, reg, first);
    assert(run_nodes(list, reg, first.drop_last()) == (reg, Seq::<ViolationView>::empty()));
    assert(first.last() == Node::Mac(d));
    assert(r1.0 == reg.push(seq![t]));
    lemma_run_concat(list, reg, first, mid);
    lemma_registry_grows(list, r1.0, mid);
    let before = run_nodes(list, reg, first + mid);
    assert(before.0[reg.len() as int] == seq![t]);
    let q = name_view(u.path@);
    assert(entry_matches(seq![t], q));
    assert(allowed_by(before.0, q));
    let all = first + mid + seq![Node::Mac(u)];
    assert(all.drop_last() =~= first + mid);
    assert(before.1 + Seq::<ViolationView>::empty() =~= before.1);
}

/// Use before declaration: from an empty registry, an invocation `u` that
/// neither a utility macro nor a type-declaring macro covers is refused, even
/// where a declaration of its name follows.
pub proof fn lemma_use_before_declaration(list: Seq<Seq<Seq<char>>>, u: MacCall, d: MacCall)
    requires
        !allowed_by(type_decl_macros(), name_view(u.path@)),
        !allowed_by(misc_macros(), name_view(u.path@)),
        allowed_by(type_decl_macros(), name_view(d.path@)),
        first_ident(d.args@) is Some,
    ensures
        run_nodes(list, Seq::empty(), seq![Node::Mac(u), Node::Mac(d)]).1
            == seq![report(u.span, Problem::ForbiddenMacro)],
{
    let nodes = seq![Node::Mac(u), Node::Mac(d)];
    assert(nodes.drop_last() =~= seq![Node::Mac(u)]);
    assert(seq![Node::Mac(u)].drop_last() =~= Seq::<Node>::empty());
    assert(!allowed_by(Seq::<Seq<Seq<char>>>::empty(), name_view(u.path@)));
    let r1 = run_nodes(list, Seq::empty(), seq![Node::Mac(u)]);
    assert(run_nodes(list, Seq::empty(), seq![Node::Mac(u)].drop_last()) == (Seq::<Seq<Seq<char>>>::empty(), Seq::<ViolationView>::empty()));
    assert(seq![Node::Mac(u)].last() == Node::Mac(u));
    assert(r1.1 =~= seq![report(u.span, Problem::ForbiddenMacro)]);
    assert(r1.1 + Seq::<ViolationView>::empty() =~= r1.1);
}

} // verus!
