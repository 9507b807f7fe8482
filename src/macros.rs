//! The macro-invocation validator. It carries a registry of the type names
//! that type-declaring macros have minted so far in the current run.
use vstd::prelude::*;
use vstd::string::*;
use crate::diag::{opt_view, report, violation, Problem, ViolationView, Violation};
use crate::names::{allowed_by, allowlist_view, is_allowed, lemma_name_view_push, name_view};
use crate::policy::{misc_macro_allowlist, misc_macros, type_decl_macro_allowlist, type_decl_macros};
use crate::syntax::{MacCall, TokenTree};

verus! {

/// The identifier that the arguments start with, if they start with one.
pub open spec fn first_ident(args: Seq<TokenTree>) -> Option<Seq<char>> {
    if args.len() > 0 && args[0] is Ident {
        Some(args[0]->Ident_0@)
    } else {
        None
    }
}

/// The registry after the invocation `m`, and its report if it has one.
/// A type-declaring macro whose first argument is an identifier adds that
/// identifier to the registry; one whose first argument is anything else is
/// refused. Any other invocation is accepted when a utility macro or a name
/// already in the registry covers its path, and refused otherwise.
pub open spec fn mac_step(reg: Seq<Seq<Seq<char>>>, m: MacCall) -> (Seq<Seq<Seq<char>>>, Option<ViolationView>) {
    let q = name_view(m.path@);
    if allowed_by(type_decl_macros(), q) {
        match first_ident(m.args@) {
            Some(id) => (reg.push(seq![id]), None),
            None => (reg, Some(report(m.span, Problem::ForbiddenMacro))),
        }
    } else if allowed_by(misc_macros(), q) || allowed_by(reg, q) {
        (reg, None)
    } else {
        (reg, Some(report(m.span, Problem::ForbiddenMacro)))
    }
}

/// The validator, with its registry of minted type names.
pub struct HacspecMacros {
    type_decl: Vec<Vec<String>>,
    misc: Vec<Vec<String>>,
    added_macros: Vec<Vec<String>>,
}

impl HacspecMacros {
    /// The type names minted so far, each as a one-segment entry.
    pub closed spec fn registry(&self) -> Seq<Seq<Seq<char>>> {
        allowlist_view(self.added_macros@)
    }

    /// The fixed allowlists are those of the subset.
    pub closed spec fn wf(&self) -> bool {
        &&& allowlist_view(self.type_decl@) == type_decl_macros()
        &&& allowlist_view(self.misc@) == misc_macros()
    }

    /// A validator with an empty registry.
    pub fn new() -> (r: HacspecMacros)
        ensures
            r.wf(),
            r.registry() == Seq::<Seq<Seq<char>>>::empty(),
    {
        let r = HacspecMacros {
            type_decl: type_decl_macro_allowlist(),
            misc: misc_macro_allowlist(),
            added_macros: Vec::new(),
        };
        assert(r.registry() =~= Seq::<Seq<Seq<char>>>::empty());
        r
    }

    /// Empties the registry, as at the start of a run.
    pub fn reset(&mut self)
        requires
            old(self).wf(),
        ensures
            final(self).wf(),
            final(self).registry() == Seq::<Seq<Seq<char>>>::empty(),
    {
        self.added_macros = Vec::new();
        assert(self.registry() =~= Seq::<Seq<Seq<char>>>::empty());
    }

    /// Whether a name in the registry covers `path`.
    pub fn check_added_macro(&self, path: &Vec<String>) -> (r: bool)
        ensures
            r == allowed_by(self.registry(), name_view(path@)),
    {
        is_allowed(&self.added_macros, path)
    }

    /// Checks one macro invocation, in source order, and records the type
    /// name it mints, if any.
    pub fn check_mac(&mut self, mac: &MacCall) -> (r: Option<Violation>)
        requires
            old(self).wf(),
        ensures
            final(self).wf(),
            (final(self).registry(), opt_view(r)) == mac_step(old(self).registry(), *mac),
    {
        if is_allowed(&self.type_decl, &mac.path) {
            if mac.args.len() > 0 {
                match &mac.args[0] {
                    TokenTree::Ident(name) => {
                        let mut entry: Vec<String> = Vec::new();
                        let s = name.clone();
                        proof {
                            lemma_name_view_push(entry@, s);
                            assert(name_view(entry@) =~= Seq::<Seq<char>>::empty());
                        }
                        entry.push(s);
                        assert(name_view(entry@) =~= seq![name@]);
                        let ghost before = self.added_macros@;
                        self.added_macros.push(entry);
                        assert(allowlist_view(self.added_macros@) =~= allowlist_view(before).push(seq![name@]));
                        return None;
                    },
                    _ => {},
                }
            }
            return Some(violation(mac.span, Problem::ForbiddenMacro));
        }
        if is_allowed(&self.misc, &mac.path) || self.check_added_macro(&mac.path) {
            None
        } else {
            Some(violation(mac.span, Problem::ForbiddenMacro))
        }
    }
}

impl Default for HacspecMacros {
    fn default() -> (r: HacspecMacros)
        ensures
            r.wf(),
            r.registry() == Seq::<Seq<Seq<char>>>::empty(),
    {
        HacspecMacros::new()
    }
}

} // verus!
