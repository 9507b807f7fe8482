//! The fixed allowlists of the subset: paths, and the two families of macros.
use vstd::prelude::*;
use vstd::string::*;
use crate::names::name_view;

verus! {

/// A one-segment name.
fn path1(a: &str) -> (r: Vec<String>)
    ensures
        name_view(r@) == seq![a@],
{
    let mut r: Vec<String> = Vec::new();
    let s = String::from_str(a);
    proof {
        crate::names::lemma_name_view_push(r@, s);
    }
    r.push(s);
    assert(name_view(r@) =~= seq![a@]);
    r
}

/// A two-segment name.
fn path2(a: &str, b: &str) -> (r: Vec<String>)
    ensures
        name_view(r@) == seq![a@, b@],
{
    let mut r = path1(a);
    let s = String::from_str(b);
    proof {
        crate::names::lemma_name_view_push(r@, s);
    }
    r.push(s);
    assert(name_view(r@) =~= seq![a@, b@]);
    r
}

/// A three-segment name.
fn path3(a: &str, b: &str, c: &str) -> (r: Vec<String>)
    ensures
        name_view(r@) == seq![a@, b@, c@],
{
    let mut r = path2(a, b);
    let s = String::from_str(c);
    proof {
        crate::names::lemma_name_view_push(r@, s);
    }
    r.push(s);
    assert(name_view(r@) =~= seq![a@, b@, c@]);
    r
}

/// A four-segment name.
fn path4(a: &str, b: &str, c: &str, d: &str) -> (r: Vec<String>)
    ensures
        name_view(r@) == seq![a@, b@, c@, d@],
{
    let mut r = path3(a, b, c);
    let s = String::from_str(d);
    proof {
        crate::names::lemma_name_view_push(r@, s);
    }
    r.push(s);
    assert(name_view(r@) =~= seq![a@, b@, c@, d@]);
    r
}

/// A five-segment name.
fn path5(a: &str, b: &str, c: &str, d: &str, e: &str) -> (r: Vec<String>)
    ensures
        name_view(r@) == seq![a@, b@, c@, d@, e@],
{
    let mut r = path4(a, b, c, d);
    let s = String::from_str(e);
    proof {
        crate::names::lemma_name_view_push(r@, s);
    }
    r.push(s);
    assert(name_view(r@) =~= seq![a@, b@, c@, d@, e@]);
    r
}

/// The paths that code of the subset may use.
pub open spec fn default_paths() -> Seq<Seq<Seq<char>>> {
    seq![
        seq!["hacspec"@],
        seq!["contracts"@],
        seq!["std"@],
        seq!["std"@, "num"@, "ParseIntError"@],
        seq!["std"@, "ops"@],
        seq!["std"@, "cmp"@, "min"@],
        seq!["std"@, "cmp"@, "PartialEq"@],
        seq!["std"@, "fmt"@],
        seq!["{{root}}"@, "std"@, "prelude"@, "v1"@],
        seq!["{{root}}"@, "std"@, "iter"@, "Iterator"@, "next"@],
        seq!["{{root}}"@, "std"@, "iter"@, "IntoIterator"@, "into_iter"@],
        seq!["{{root}}"@, "std"@, "option"@, "Option"@],
        seq!["{{root}}"@, "std"@, "ops"@, "Range"@],
        seq!["{{root}}"@, "std"@, "ops"@, "RangeFull"@],
    ]
}

/// The path allowlist of the subset.
pub fn default_path_allowlist() -> (r: Vec<Vec<String>>)
    ensures
        crate::names::allowlist_view(r@) == default_paths(),
{
    let mut r: Vec<Vec<String>> = Vec::new();
    r.push(path1("hacspec"));
    r.push(path1("contracts"));
    r.push(path1("std"));
    r.push(path3("std", "num", "ParseIntError"));
    r.push(path2("std", "ops"));
    r.push(path3("std", "cmp", "min"));
    r.push(path3("std", "cmp", "PartialEq"));
    r.push(path2("std", "fmt"));
    r.push(path4("{{root}}", "std", "prelude", "v1"));
    r.push(path5("{{root}}", "std", "iter", "Iterator", "next"));
    r.push(path5("{{root}}", "std", "iter", "IntoIterator", "into_iter"));
    r.push(path4("{{root}}", "std", "option", "Option"));
    r.push(path4("{{root}}", "std", "ops", "Range"));
    r.push(path4("{{root}}", "std", "ops", "RangeFull"));
    assert(crate::names::allowlist_view(r@) =~= default_paths());
    r
}

/// The macros that declare a new type, named by their first argument.
pub open spec fn type_decl_macros() -> Seq<Seq<Seq<char>>> {
    seq![
        seq!["array"@],
        seq!["bytes"@],
        seq!["public_bytes"@],
        seq!["public_array"@],
        seq!["poly"@],
        seq!["nat_mod"@],
        seq!["public_nat_mod"@],
        seq!["abstract_unsigned_public_integer"@],
    ]
}

/// The allowlist of type-declaring macros.
pub fn type_decl_macro_allowlist() -> (r: Vec<Vec<String>>)
    ensures
        crate::names::allowlist_view(r@) == type_decl_macros(),
{
    let mut r: Vec<Vec<String>> = Vec::new();
    r.push(path1("array"));
    r.push(path1("bytes"));
    r.push(path1("public_bytes"));
    r.push(path1("public_array"));
    r.push(path1("poly"));
    r.push(path1("nat_mod"));
    r.push(path1("public_nat_mod"));
    r.push(path1("abstract_unsigned_public_integer"));
    assert(crate::names::allowlist_view(r@) =~= type_decl_macros());
    r
}

/// The utility macros that are always permitted.
pub open spec fn misc_macros() -> Seq<Seq<Seq<char>>> {
    seq![
        seq!["concat"@],
        seq!["secret_array"@],
        seq!["secret_bytes"@],
        seq!["assert"@],
        seq!["assert_ne"@],
        seq!["debug_assert"@],
        seq!["assert_bytes_eq"@],
        seq!["assert_eq"@],
        seq!["assert_secret_array_eq"@],
        seq!["println"@],
    ]
}

/// The allowlist of utility macros.
pub fn misc_macro_allowlist() -> (r: Vec<Vec<String>>)
    ensures
        crate::names::allowlist_view(r@) == misc_macros(),
{
    let mut r: Vec<Vec<String>> = Vec::new();
    r.push(path1("concat"));
    r.push(path1("secret_array"));
    r.push(path1("secret_bytes"));
    r.push(path1("assert"));
    r.push(path1("assert_ne"));
    r.push(path1("debug_assert"));
    r.push(path1("assert_bytes_eq"));
    r.push(path1("assert_eq"));
    r.push(path1("assert_secret_array_eq"));
    r.push(path1("println"));
    assert(crate::names::allowlist_view(r@) =~= misc_macros());
    r
}

} // verus!
