//! Collision-free names for imported items.

use vstd::prelude::*;
use vstd::set_lib::*;
use vstd::relations::injective_on;
use crate::text::{decimal, decimal_string, lemma_decimal_injective, owned, push_str, same_text};

verus! {

/// The characters of each name, in order.
pub open spec fn name_views(names: Seq<String>) -> Seq<Seq<char>> {
    names.map_values(|s: String| s@)
}

/// `candidate (k)`: the name tried for the `k`-th collision.
pub open spec fn suffixed(candidate: Seq<char>, k: nat) -> Seq<char> {
    candidate + seq![' ', '('] + decimal(k) + seq![')']
}

proof fn lemma_suffixed_injective(c: Seq<char>, a: nat, b: nat)
    requires
        suffixed(c, a) == suffixed(c, b),
    ensures
        a == b,
{
    let sa = suffixed(c, a);
    let sb = suffixed(c, b);
    let start = c.len() + 2;
    assert(sa.subrange(start as int, sa.len() - 1) =~= decimal(a));
    assert(sb.subrange(start as int, sb.len() - 1) =~= decimal(b));
    lemma_decimal_injective(a, b);
}

/// However many `candidate (j)` names for `2 <= j < k` a list holds, it
/// holds at least that many names: the suffixed names are pairwise distinct.
proof fn lemma_attempts_bounded(names: Seq<Seq<char>>, c: Seq<char>, k: int)
    requires
        2 <= k,
        forall|j: int| 2 <= j < k ==> names.contains(#[trigger] suffixed(c, j as nat)),
    ensures
        k - 2 <= names.len(),
{
    let x = set_int_range(2, k);
    lemma_int_range(2, k);
    let f = |j: int| suffixed(c, j as nat);
    assert(injective_on(f, x)) by {
        assert forall|j1: int, j2: int|
            x.contains(j1) && x.contains(j2) && #[trigger] f(j1) == #[trigger] f(j2) implies j1
            == j2 by {
            lemma_suffixed_injective(c, j1 as nat, j2 as nat);
        }
    }
    let y = x.map(f);
    lemma_map_size(x, y, f);
    assert(y.subset_of(names.to_set())) by {
        assert forall|s: Seq<char>| y.contains(s) implies names.to_set().contains(s) by {
            let j = choose|j: int| x.contains(j) && f(j) == s;
            assert(names.contains(suffixed(c, j as nat)));
        }
    }
    names.lemma_cardinality_of_set();
    lemma_len_subset(y, names.to_set());
}

/// Whether `names` holds a name with the characters of `s`.
pub fn contains_name(names: &Vec<String>, s: &str) -> (r: bool)
    ensures
        r == name_views(names@).contains(s@),
{
    let mut i: usize = 0;
    while i < names.len()
        invariant
            i <= names@.len(),
            forall|k: int| 0 <= k < i ==> names@[k]@ != s@,
        decreases names@.len() - i,
    {
        if same_text(names[i].as_str(), s) {
            assert(name_views(names@)[i as int] == s@);
            return true;
        }
        i = i + 1;
    }
    assert forall|k: int| 0 <= k < name_views(names@).len() implies name_views(names@)[k]
        != s@ by {
        assert(names@[k]@ != s@);
    }
    false
}

fn suffixed_name(candidate: &str, k: u64) -> (r: String)
    ensures
        r@ == suffixed(candidate@, k as nat),
{
    proof {
        reveal_strlit(" (");
        reveal_strlit(")");
    }
    let mut attempt = owned(candidate);
    push_str(&mut attempt, " (");
    let digits = decimal_string(k);
    push_str(&mut attempt, digits.as_str());
    push_str(&mut attempt, ")");
    proof {
        assert(" ("@ =~= seq![' ', '(']);
        assert(")"@ =~= seq![')']);
    }
    attempt
}

/// A name for `candidate` that no name in `existing_names` already has:
/// `candidate` itself when it is free, otherwise `candidate (k)` for the
/// smallest `k >= 2` that is free.
pub fn unique_name_against(existing_names: &Vec<String>, candidate: &str) -> (r: String)
    requires
        existing_names@.len() + 2 <= u64::MAX,
    ensures
        !name_views(existing_names@).contains(r@),
        !name_views(existing_names@).contains(candidate@) ==> r@ == candidate@,
        name_views(existing_names@).contains(candidate@) ==> exists|k: nat|
            2 <= k && r@ == suffixed(candidate@, k) && forall|j: nat|
                2 <= j < k ==> name_views(existing_names@).contains(#[trigger] suffixed(candidate@, j)),
{
    if !contains_name(existing_names, candidate) {
        return owned(candidate);
    }
    let ghost names = name_views(existing_names@);
    let n = existing_names.len();
    let mut suffix: u64 = 2;
    loop
        invariant
            n == existing_names@.len(),
            names == name_views(existing_names@),
            names.contains(candidate@),
            n + 2 <= u64::MAX,
            2 <= suffix <= n + 2,
            forall|j: nat| 2 <= j < suffix ==> names.contains(#[trigger] suffixed(candidate@, j)),
        decreases n + 2 - suffix,
    {
        let attempt = suffixed_name(candidate, suffix);
        if !contains_name(existing_names, attempt.as_str()) {
            return attempt;
        }
        proof {
            assert forall|j: int| 2 <= j < suffix + 1 implies names.contains(
                #[trigger] suffixed(candidate@, j as nat),
            ) by {
                if j < suffix {
                    assert(names.contains(suffixed(candidate@, j as nat)));
                }
            }
            lemma_attempts_bounded(names, candidate@, suffix + 1);
            assert(names.len() == n);
        }
        suffix = suffix + 1;
    }
}

} // verus!

verus! {

/// `r` is the name `unique_name_against` gives `candidate` against
/// `names`: `candidate` when free, else `candidate (k)` for the least free
/// `k >= 2`.
pub open spec fn is_unique_name_for(names: Seq<Seq<char>>, candidate: Seq<char>, r: Seq<char>) -> bool {
    &&& !names.contains(r)
    &&& !names.contains(candidate) ==> r == candidate
    &&& names.contains(candidate) ==> exists|k: nat|
        2 <= k && r == suffixed(candidate, k) && forall|j: nat|
            2 <= j < k ==> names.contains(#[trigger] suffixed(candidate, j))
}

/// The names in use while importing, growing with each name handed out.
#[derive(Debug)]
pub struct NameRegistry {
    pub names: Vec<String>,
}

impl NameRegistry {
    /// Hands out a free name for `candidate` and records it as used.
    pub fn claim(&mut self, candidate: &str) -> (r: String)
        requires
            old(self).names@.len() + 3 <= u64::MAX,
        ensures
            is_unique_name_for(name_views(old(self).names@), candidate@, r@),
            final(self).names@ == old(self).names@.push(r),
    {
        let name = unique_name_against(&self.names, candidate);
        self.names.push(name.clone());
        name
    }
}

/// Names handed out one after the other are all different, and none was
/// in use before.
pub proof fn lemma_claims_are_distinct(
    before: Seq<String>,
    first: String,
    second: String,
    c1: Seq<char>,
    c2: Seq<char>,
)
    requires
        is_unique_name_for(name_views(before), c1, first@),
        is_unique_name_for(name_views(before.push(first)), c2, second@),
    ensures
        first@ != second@,
        !name_views(before).contains(first@),
        !name_views(before).contains(second@),
{
    let after = before.push(first);
    assert(name_views(after)[before.len() as int] == first@);
    if name_views(before).contains(second@) {
        let i = choose|i: int| 0 <= i < name_views(before).len() && name_views(before)[i] == second@;
        assert(name_views(after)[i] == second@);
    }
}

/// The message of a native import: how many collections, requests and
/// environments it brought.
pub open spec fn native_import_message_spec(collections: u64, requests: u64, environments: u64) -> Seq<char> {
    "Import nativo aplicado: "@ + decimal(collections as nat) + " colección(es), "@ + decimal(
        requests as nat,
    ) + " request(s), "@ + decimal(environments as nat) + " environment(s)."@
}

pub fn native_import_message(collections: u64, requests: u64, environments: u64) -> (r: String)
    ensures
        r@ == native_import_message_spec(collections, requests, environments),
{
    let mut s = owned("Import nativo aplicado: ");
    push_str(&mut s, decimal_string(collections).as_str());
    push_str(&mut s, " colección(es), ");
    push_str(&mut s, decimal_string(requests).as_str());
    push_str(&mut s, " request(s), ");
    push_str(&mut s, decimal_string(environments).as_str());
    push_str(&mut s, " environment(s).");
    s
}

/// The message of a Postman or OpenAPI import: the collection it created
/// and how many requests and environments it brought.
pub open spec fn collection_import_message_spec(collection_name: Seq<char>, requests: u64, environments: u64) -> Seq<char> {
    "Import aplicado: colección \""@ + collection_name + "\", "@ + decimal(requests as nat)
        + " request(s), "@ + decimal(environments as nat) + " environment(s)."@
}

pub fn collection_import_message(collection_name: &str, requests: u64, environments: u64) -> (r:
    String)
    ensures
        r@ == collection_import_message_spec(collection_name@, requests, environments),
{
    let mut s = owned("Import aplicado: colección \"");
    push_str(&mut s, collection_name);
    push_str(&mut s, "\", ");
    push_str(&mut s, decimal_string(requests).as_str());
    push_str(&mut s, " request(s), ");
    push_str(&mut s, decimal_string(environments).as_str());
    push_str(&mut s, " environment(s).");
    s
}

/// The environment that holds an imported collection's variables is named
/// after it: "<collection> vars".
pub fn variables_environment_name(collection_name: &str) -> (r: String)
    ensures
        r@ == collection_name@ + " vars"@,
{
    let mut s = owned(collection_name);
    push_str(&mut s, " vars");
    s
}

} // verus!
