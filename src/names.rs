//! Qualified names and prefix-based allowlists.
use vstd::prelude::*;

verus! {

/// The characters of each segment of a qualified name.
pub open spec fn name_view(q: Seq<String>) -> Seq<Seq<char>> {
    q.map_values(|s: String| s@)
}

/// Appending a segment appends its characters to the view.
pub proof fn lemma_name_view_push(q: Seq<String>, s: String)
    ensures
        name_view(q.push(s)) == name_view(q).push(s@),
{
    assert(name_view(q.push(s)) =~= name_view(q).push(s@));
}

/// The entries of an allowlist, each as the characters of its segments.
pub open spec fn allowlist_view(a: Seq<Vec<String>>) -> Seq<Seq<Seq<char>>> {
    a.map_values(|e: Vec<String>| name_view(e@))
}

/// `entry` is a segment-wise prefix of `name`: it is no longer than `name`,
/// and each of its segments equals the segment of `name` at the same place.
pub open spec fn entry_matches(entry: Seq<Seq<char>>, name: Seq<Seq<char>>) -> bool {
    &&& entry.len() <= name.len()
    &&& forall|i: int| 0 <= i < entry.len() ==> #[trigger] entry[i] == name[i]
}

/// Some entry of `list` is a prefix of `name`.
pub open spec fn allowed_by(list: Seq<Seq<Seq<char>>>, name: Seq<Seq<char>>) -> bool {
    exists|k: int| 0 <= k < list.len() && #[trigger] entry_matches(list[k], name)
}

/// Whether `entry` is a segment-wise prefix of `name`.
pub fn entry_matches_name(entry: &Vec<String>, name: &Vec<String>) -> (r: bool)
    ensures
        r == entry_matches(name_view(entry@), name_view(name@)),
{
    if entry.len() > name.len() {
        return false;
    }
    let mut i: usize = 0;
    while i < entry.len()
        invariant
            entry.len() <= name.len(),
            0 <= i <= entry.len(),
            forall|j: int| 0 <= j < i ==> #[trigger] name_view(entry@)[j] == name_view(name@)[j],
        decreases entry.len() - i,
    {
        if entry[i] != name[i] {
            assert(name_view(entry@)[i as int] != name_view(name@)[i as int]);
            return false;
        }
        i = i + 1;
    }
    true
}

/// Whether `name` is allowed by `allowlist`: some entry is a prefix of it.
/// Redundant entries are harmless, since the entries form a union.
pub fn is_allowed(allowlist: &Vec<Vec<String>>, name: &Vec<String>) -> (r: bool)
    ensures
        r == allowed_by(allowlist_view(allowlist@), name_view(name@)),
{
    let mut k: usize = 0;
    while k < allowlist.len()
        invariant
            0 <= k <= allowlist.len(),
            forall|j: int|
                0 <= j < k ==> !#[trigger] entry_matches(
                    allowlist_view(allowlist@)[j],
                    name_view(name@),
                ),
        decreases allowlist.len() - k,
    {
        if entry_matches_name(&allowlist[k], name) {
            assert(entry_matches(allowlist_view(allowlist@)[k as int], name_view(name@)));
            return true;
        }
        k = k + 1;
    }
    false
}

} // verus!
