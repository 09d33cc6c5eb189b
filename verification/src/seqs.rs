//! Searching, updating and filtering sequences by a predicate.

use vstd::prelude::*;

verus! {

/// The index of the first element of `s` that satisfies `p`, if any.
pub open spec fn first_index<T>(s: Seq<T>, p: spec_fn(T) -> bool) -> Option<int>
    decreases s.len(),
{
    if s.len() == 0 {
        None
    } else if p(s[0]) {
        Some(0)
    } else {
        match first_index(s.drop_first(), p) {
            Some(i) => Some(i + 1),
            None => None,
        }
    }
}

pub proof fn lemma_first_index<T>(s: Seq<T>, p: spec_fn(T) -> bool)
    ensures
        match first_index(s, p) {
            Some(i) => 0 <= i < s.len() && p(s[i]) && forall|k: int| 0 <= k < i ==> !p(s[k]),
            None => forall|k: int| 0 <= k < s.len() ==> !p(s[k]),
        },
    decreases s.len(),
{
    if s.len() > 0 {
        lemma_first_index(s.drop_first(), p);
        if !p(s[0]) {
            match first_index(s.drop_first(), p) {
                Some(i) => {
                    assert forall|k: int| 0 <= k < i + 1 implies !p(s[k]) by {
                        if k > 0 {
                            assert(s[k] == s.drop_first()[k - 1]);
                        }
                    }
                },
                None => {
                    assert forall|k: int| 0 <= k < s.len() implies !p(s[k]) by {
                        if k > 0 {
                            assert(s[k] == s.drop_first()[k - 1]);
                        }
                    }
                },
            }
        }
    }
}

/// The first index at which `p` holds is the one a left-to-right scan
/// stops at.
pub proof fn lemma_first_index_at<T>(s: Seq<T>, p: spec_fn(T) -> bool, i: int)
    requires
        0 <= i < s.len(),
        p(s[i]),
        forall|k: int| 0 <= k < i ==> !p(s[k]),
    ensures
        first_index(s, p) == Some(i),
{
    lemma_first_index(s, p);
    match first_index(s, p) {
        Some(j) => {
            if j < i {
                assert(!p(s[j]));
            }
            if j > i {
                assert(!p(s[i]));
            }
        },
        None => {
            assert(!p(s[i]));
        },
    }
}

pub proof fn lemma_first_index_none<T>(s: Seq<T>, p: spec_fn(T) -> bool)
    requires
        forall|k: int| 0 <= k < s.len() ==> !p(s[k]),
    ensures
        first_index(s, p) is None,
{
    lemma_first_index(s, p);
    if let Some(j) = first_index(s, p) {
        assert(!p(s[j]));
    }
}

/// `s` with its first element that satisfies `p` replaced by `f` of it;
/// `s` itself when none does.
pub open spec fn update_first<T>(s: Seq<T>, p: spec_fn(T) -> bool, f: spec_fn(T) -> T) -> Seq<T> {
    match first_index(s, p) {
        Some(i) => s.update(i, f(s[i])),
        None => s,
    }
}

pub proof fn lemma_filter_step<T>(s: Seq<T>, p: spec_fn(T) -> bool, i: int)
    requires
        0 <= i < s.len(),
    ensures
        s.subrange(0, i + 1).filter(p) == if p(s[i]) {
            s.subrange(0, i).filter(p).push(s[i])
        } else {
            s.subrange(0, i).filter(p)
        },
{
    reveal(Seq::filter);
    let t = s.subrange(0, i + 1);
    assert(t.drop_last() =~= s.subrange(0, i));
    assert(t.last() == s[i]);
}

} // verus!
