//! Lookups of saved requests and folders by id.

use vstd::prelude::*;
use crate::records::{Folder, SavedRequestRecord, request_has_id};
use crate::seqs::{first_index, lemma_first_index_at, lemma_first_index_none};

verus! {

/// The first saved request of `rows` with the id `id`.
pub fn find_saved_request(rows: &Vec<SavedRequestRecord>, id: &str) -> (r: Option<usize>)
    ensures
        match r {
            Some(j) => first_index(rows@, request_has_id(id@)) == Some(j as int),
            None => first_index(rows@, request_has_id(id@)) is None,
        },
{
    let mut j: usize = 0;
    while j < rows.len()
        invariant
            j <= rows@.len(),
            forall|k: int| 0 <= k < j ==> !(request_has_id(id@))(rows@[k]),
        decreases rows@.len() - j,
    {
        if crate::text::same_text(rows[j].id.as_str(), id) {
            proof {
                lemma_first_index_at(rows@, request_has_id(id@), j as int);
            }
            return Some(j);
        }
        j = j + 1;
    }
    proof {
        lemma_first_index_none(rows@, request_has_id(id@));
    }
    None
}

/// The folder has the id `id`.
pub open spec fn folder_has_id(id: Seq<char>) -> spec_fn(Folder) -> bool {
    |f: Folder| f.id@ == id
}

/// The first folder of `folders` with the id `id`.
pub fn find_folder(folders: &Vec<Folder>, id: &str) -> (r: Option<usize>)
    ensures
        match r {
            Some(j) => first_index(folders@, folder_has_id(id@)) == Some(j as int),
            None => first_index(folders@, folder_has_id(id@)) is None,
        },
{
    let mut j: usize = 0;
    while j < folders.len()
        invariant
            j <= folders@.len(),
            forall|k: int| 0 <= k < j ==> !(folder_has_id(id@))(folders@[k]),
        decreases folders@.len() - j,
    {
        if crate::text::same_text(folders[j].id.as_str(), id) {
            proof {
                lemma_first_index_at(folders@, folder_has_id(id@), j as int);
            }
            return Some(j);
        }
        j = j + 1;
    }
    proof {
        lemma_first_index_none(folders@, folder_has_id(id@));
    }
    None
}

} // verus!
