//! Finding and removing the rows of a request (key/value rows, form
//! fields, assertions) by their id.

use vstd::prelude::*;
use crate::model::{FormDataRow, KeyValueRow, ResponseAssertion};
use crate::seqs::{first_index, lemma_filter_step, lemma_first_index_at, lemma_first_index_none};

verus! {

/// A row that carries an identifier.
pub trait Identified {
    spec fn id_view(&self) -> Seq<char>;

    fn id_text(&self) -> (r: &str)
        ensures
            r@ == self.id_view(),
    ;
}

impl Identified for KeyValueRow {
    open spec fn id_view(&self) -> Seq<char> {
        self.id@
    }

    fn id_text(&self) -> (r: &str) {
        self.id.as_str()
    }
}

impl Identified for FormDataRow {
    open spec fn id_view(&self) -> Seq<char> {
        self.id@
    }

    fn id_text(&self) -> (r: &str) {
        self.id.as_str()
    }
}

impl Identified for ResponseAssertion {
    open spec fn id_view(&self) -> Seq<char> {
        self.id@
    }

    fn id_text(&self) -> (r: &str) {
        self.id.as_str()
    }
}

/// The row has the id `id`.
pub open spec fn has_id<T: Identified>(id: Seq<char>) -> spec_fn(T) -> bool {
    |r: T| r.id_view() == id
}

/// The row does not have the id `id`.
pub open spec fn lacks_id<T: Identified>(id: Seq<char>) -> spec_fn(T) -> bool {
    |r: T| r.id_view() != id
}

/// The index of the first row with the id `id`.
pub fn find_by_id<T: Identified>(rows: &Vec<T>, id: &str) -> (r: Option<usize>)
    ensures
        match r {
            Some(i) => first_index(rows@, has_id::<T>(id@)) == Some(i as int),
            None => first_index(rows@, has_id::<T>(id@)) is None,
        },
{
    let mut i: usize = 0;
    while i < rows.len()
        invariant
            i <= rows@.len(),
            forall|k: int| 0 <= k < i ==> !(has_id::<T>(id@))(rows@[k]),
        decreases rows@.len() - i,
    {
        if crate::text::same_text(rows[i].id_text(), id) {
            proof {
                lemma_first_index_at(rows@, has_id::<T>(id@), i as int);
            }
            return Some(i);
        }
        i = i + 1;
    }
    proof {
        lemma_first_index_none(rows@, has_id::<T>(id@));
    }
    None
}

/// Removes every row with the id `id`, keeping the others in order.
pub fn remove_by_id<T: Identified>(rows: &mut Vec<T>, id: &str)
    ensures
        final(rows)@ == old(rows)@.filter(lacks_id::<T>(id@)),
{
    let mut kept: Vec<T> = Vec::new();
    let ghost pre = rows@;
    let mut rest: Vec<T> = Vec::new();
    std::mem::swap(rows, &mut rest);
    assert(rest@ == pre);
    assert(rest.len() == pre.len());
    assert(pre.subrange(0, 0).filter(lacks_id::<T>(id@)) =~= Seq::<T>::empty()) by {
        reveal(Seq::filter);
    }
    let mut i: usize = 0;
    while rest.len() > 0
        invariant
            i + rest@.len() == pre.len(),
            pre.len() <= usize::MAX,
            rest@ == pre.subrange(i as int, pre.len() as int),
            kept@ == pre.subrange(0, i as int).filter(lacks_id::<T>(id@)),
        decreases rest@.len(),
    {
        let row = rest.remove(0);
        assert(row == pre[i as int]);
        proof {
            lemma_filter_step(pre, lacks_id::<T>(id@), i as int);
        }
        if !crate::text::same_text(row.id_text(), id) {
            kept.push(row);
        }
        i = i + 1;
        assert(rest@ =~= pre.subrange(i as int, pre.len() as int));
    }
    assert(pre.subrange(0, pre.len() as int) =~= pre);
    *rows = kept;
}

} // verus!
