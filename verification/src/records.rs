//! What the workspace store holds (collections, folders, saved requests,
//! environments) and what a sent request brings back.

use vstd::prelude::*;
use crate::model::{HttpMethod, KeyValueRow, RequestDraft};

verus! {

#[derive(Debug)]
pub struct CollectionSummary {
    pub id: String,
    pub name: String,
    pub request_count: u64,
    pub created_at: String,
    pub updated_at: String,
}

#[derive(Debug)]
pub struct Folder {
    pub id: String,
    pub collection_id: String,
    pub parent_folder_id: Option<String>,
    pub name: String,
}

#[derive(Debug)]
pub struct SavedRequestRecord {
    pub id: String,
    pub collection_id: String,
    pub folder_id: Option<String>,
    pub name: String,
    pub draft: RequestDraft,
    pub created_at: String,
    pub updated_at: String,
}

#[derive(Debug)]
pub struct CollectionWithRequests {
    pub collection: CollectionSummary,
    pub folders: Vec<Folder>,
    pub requests: Vec<SavedRequestRecord>,
}

#[derive(Debug)]
pub struct EnvironmentRecord {
    pub id: String,
    pub name: String,
    pub variables: Vec<KeyValueRow>,
    pub created_at: String,
    pub updated_at: String,
}

impl Clone for EnvironmentRecord {
    fn clone(&self) -> (r: Self)
        ensures
            r.id == self.id,
            r.name == self.name,
            r.variables@ == self.variables@,
            r.created_at == self.created_at,
            r.updated_at == self.updated_at,
    {
        EnvironmentRecord {
            id: self.id.clone(),
            name: self.name.clone(),
            variables: crate::model::clone_kv_rows(&self.variables),
            created_at: self.created_at.clone(),
            updated_at: self.updated_at.clone(),
        }
    }
}

/// The workspace as the store last reported it.
#[derive(Debug)]
pub struct WorkspaceSnapshot {
    pub collections: Vec<CollectionWithRequests>,
    pub environments: Vec<EnvironmentRecord>,
}

impl WorkspaceSnapshot {
    /// A workspace with nothing in it.
    pub fn empty() -> (r: Self)
        ensures
            r.collections@.len() == 0,
            r.environments@.len() == 0,
    {
        WorkspaceSnapshot { collections: Vec::new(), environments: Vec::new() }
    }
}

/// Whether some collection of `cs` has the id `id`.
pub open spec fn has_collection(cs: Seq<CollectionWithRequests>, id: Seq<char>) -> bool {
    exists|i: int| 0 <= i < cs.len() && (#[trigger] cs[i]).collection.id@ == id
}

/// Whether some collection of `cs` holds a request with the id `id`.
pub open spec fn has_request(cs: Seq<CollectionWithRequests>, id: Seq<char>) -> bool {
    exists|i: int, j: int|
        0 <= i < cs.len() && 0 <= j < cs[i].requests@.len() && (
        #[trigger] cs[i].requests@[j]).id@ == id
}

/// Whether some collection of `cs` holds a folder with the id `id`.
pub open spec fn has_folder(cs: Seq<CollectionWithRequests>, id: Seq<char>) -> bool {
    exists|i: int, j: int|
        0 <= i < cs.len() && 0 <= j < cs[i].folders@.len() && (
        #[trigger] cs[i].folders@[j]).id@ == id
}

/// The index of the first collection of `cs` with the id `id`, if any.
pub open spec fn collection_index(cs: Seq<CollectionWithRequests>, id: Seq<char>) -> Option<int>
    decreases cs.len(),
{
    if cs.len() == 0 {
        None
    } else if cs[0].collection.id@ == id {
        Some(0)
    } else {
        match collection_index(cs.drop_first(), id) {
            Some(i) => Some(i + 1),
            None => None,
        }
    }
}

/// The index of the first environment of `es` with the id `id`, if any.
pub open spec fn environment_index(es: Seq<EnvironmentRecord>, id: Seq<char>) -> Option<int>
    decreases es.len(),
{
    if es.len() == 0 {
        None
    } else if es[0].id@ == id {
        Some(0)
    } else {
        match environment_index(es.drop_first(), id) {
            Some(i) => Some(i + 1),
            None => None,
        }
    }
}

pub proof fn lemma_collection_index(cs: Seq<CollectionWithRequests>, id: Seq<char>)
    ensures
        match collection_index(cs, id) {
            Some(i) => 0 <= i < cs.len() && cs[i].collection.id@ == id && forall|k: int|
                0 <= k < i ==> cs[k].collection.id@ != id,
            None => forall|k: int| 0 <= k < cs.len() ==> cs[k].collection.id@ != id,
        },
        collection_index(cs, id) is Some <==> has_collection(cs, id),
    decreases cs.len(),
{
    if cs.len() > 0 {
        lemma_collection_index(cs.drop_first(), id);
        if cs[0].collection.id@ != id {
            match collection_index(cs.drop_first(), id) {
                Some(i) => {
                    assert forall|k: int| 0 <= k < i + 1 implies cs[k].collection.id@ != id by {
                        if k > 0 {
                            assert(cs[k] == cs.drop_first()[k - 1]);
                        }
                    }
                },
                None => {
                    assert forall|k: int| 0 <= k < cs.len() implies cs[k].collection.id@ != id by {
                        if k > 0 {
                            assert(cs[k] == cs.drop_first()[k - 1]);
                        }
                    }
                },
            }
        }
    }
}

pub proof fn lemma_environment_index(es: Seq<EnvironmentRecord>, id: Seq<char>)
    ensures
        match environment_index(es, id) {
            Some(i) => 0 <= i < es.len() && es[i].id@ == id && forall|k: int|
                0 <= k < i ==> es[k].id@ != id,
            None => forall|k: int| 0 <= k < es.len() ==> es[k].id@ != id,
        },
    decreases es.len(),
{
    if es.len() > 0 {
        lemma_environment_index(es.drop_first(), id);
        if es[0].id@ != id {
            match environment_index(es.drop_first(), id) {
                Some(i) => {
                    assert forall|k: int| 0 <= k < i + 1 implies es[k].id@ != id by {
                        if k > 0 {
                            assert(es[k] == es.drop_first()[k - 1]);
                        }
                    }
                },
                None => {
                    assert forall|k: int| 0 <= k < es.len() implies es[k].id@ != id by {
                        if k > 0 {
                            assert(es[k] == es.drop_first()[k - 1]);
                        }
                    }
                },
            }
        }
    }
}

/// Finds the first collection with the id `id`.
pub fn find_collection(cs: &Vec<CollectionWithRequests>, id: &str) -> (r: Option<usize>)
    ensures
        r matches Some(i) ==> collection_index(cs@, id@) == Some(i as int),
        r is None ==> collection_index(cs@, id@) is None,
{
    proof {
        lemma_collection_index(cs@, id@);
    }
    let mut i: usize = 0;
    while i < cs.len()
        invariant
            i <= cs@.len(),
            forall|k: int| 0 <= k < i ==> cs@[k].collection.id@ != id@,
            match collection_index(cs@, id@) {
                Some(x) => 0 <= x < cs@.len() && cs@[x].collection.id@ == id@ && forall|k: int|
                    0 <= k < x ==> cs@[k].collection.id@ != id@,
                None => forall|k: int| 0 <= k < cs@.len() ==> cs@[k].collection.id@ != id@,
            },
        decreases cs@.len() - i,
    {
        if crate::text::same_text(cs[i].collection.id.as_str(), id) {
            return Some(i);
        }
        i = i + 1;
    }
    None
}

/// Finds the first environment with the id `id`.
pub fn find_environment(es: &Vec<EnvironmentRecord>, id: &str) -> (r: Option<usize>)
    ensures
        r matches Some(i) ==> environment_index(es@, id@) == Some(i as int),
        r is None ==> environment_index(es@, id@) is None,
{
    proof {
        lemma_environment_index(es@, id@);
    }
    let mut i: usize = 0;
    while i < es.len()
        invariant
            i <= es@.len(),
            forall|k: int| 0 <= k < i ==> es@[k].id@ != id@,
            match environment_index(es@, id@) {
                Some(x) => 0 <= x < es@.len() && es@[x].id@ == id@ && forall|k: int|
                    0 <= k < x ==> es@[k].id@ != id@,
                None => forall|k: int| 0 <= k < es@.len() ==> es@[k].id@ != id@,
            },
        decreases es@.len() - i,
    {
        if crate::text::same_text(es[i].id.as_str(), id) {
            return Some(i);
        }
        i = i + 1;
    }
    None
}

#[derive(Debug)]
pub struct ResponseHeader {
    pub name: String,
    pub value: String,
}

/// What the server answered.
#[derive(Debug)]
pub struct ResponseEnvelope {
    pub status: u16,
    pub status_text: String,
    pub headers: Vec<ResponseHeader>,
    pub body_text: String,
    pub duration_ms: u64,
    pub size_bytes: u64,
    pub final_url: String,
    pub received_at: String,
    pub truncated: bool,
    pub body_evicted: bool,
    pub total_size_bytes: Option<u64>,
}

/// The verdict on one assertion of a request.
#[derive(Debug)]
pub struct AssertionResult {
    pub assertion_id: String,
    pub name: String,
    pub passed: bool,
    pub message: String,
}

/// The response of a sent request and the verdicts on its assertions.
#[derive(Debug)]
pub struct ResponseOutcome {
    pub response: ResponseEnvelope,
    pub assertions: Vec<AssertionResult>,
}

/// The request as it would go out, with secrets masked.
#[derive(Debug)]
pub struct RequestPreview {
    pub method: HttpMethod,
    pub url: String,
    pub headers: Vec<ResponseHeader>,
    pub body: Option<String>,
}

} // verus!

verus! {

/// The saved request has the id `id`.
pub open spec fn request_has_id(id: Seq<char>) -> spec_fn(SavedRequestRecord) -> bool {
    |r: SavedRequestRecord| r.id@ == id
}

/// Where the first saved request with the id `id` is: the index of its
/// collection and its index within that collection.
pub open spec fn request_position(cs: Seq<CollectionWithRequests>, id: Seq<char>) -> Option<
    (int, int),
>
    decreases cs.len(),
{
    if cs.len() == 0 {
        None
    } else {
        match crate::seqs::first_index(cs[0].requests@, request_has_id(id)) {
            Some(j) => Some((0, j)),
            None => match request_position(cs.drop_first(), id) {
                Some((i, j)) => Some((i + 1, j)),
                None => None,
            },
        }
    }
}

pub proof fn lemma_request_position(cs: Seq<CollectionWithRequests>, id: Seq<char>)
    ensures
        match request_position(cs, id) {
            Some((i, j)) => 0 <= i < cs.len() && 0 <= j < cs[i].requests@.len()
                && cs[i].requests@[j].id@ == id,
            None => !has_request(cs, id),
        },
    decreases cs.len(),
{
    if cs.len() > 0 {
        crate::seqs::lemma_first_index(cs[0].requests@, request_has_id(id));
        lemma_request_position(cs.drop_first(), id);
        if request_position(cs, id) is None {
            assert forall|i: int, j: int|
                0 <= i < cs.len() && 0 <= j < cs[i].requests@.len() implies (
                #[trigger] cs[i].requests@[j]).id@ != id by {
                if i > 0 {
                    assert(cs[i] == cs.drop_first()[i - 1]);
                } else {
                    assert((request_has_id(id))(cs[0].requests@[j]) == false);
                }
            }
        }
    }
}

/// Finds the first saved request with the id `id`.
pub fn find_request(cs: &Vec<CollectionWithRequests>, id: &str) -> (r: Option<(usize, usize)>)
    ensures
        match r {
            Some((i, j)) => request_position(cs@, id@) == Some((i as int, j as int)),
            None => request_position(cs@, id@) is None,
        },
{
    let mut i: usize = 0;
    assert(cs@.subrange(0, cs@.len() as int) =~= cs@);
    while i < cs.len()
        invariant
            i <= cs@.len(),
            request_position(cs@, id@) == match request_position(
                cs@.subrange(i as int, cs@.len() as int),
                id@,
            ) {
                Some((a, b)) => Some((a + i, b)),
                None => None,
            },
        decreases cs@.len() - i,
    {
        let ghost rest = cs@.subrange(i as int, cs@.len() as int);
        assert(rest[0] == cs@[i as int]);
        assert(rest.drop_first() =~= cs@.subrange(i + 1, cs@.len() as int));
        match crate::rows_by_id::find_saved_request(&cs[i].requests, id) {
            Some(j) => {
                return Some((i, j));
            },
            None => {},
        }
        i = i + 1;
    }
    assert(cs@.subrange(i as int, cs@.len() as int).len() == 0);
    None
}

} // verus!

verus! {

/// Where the first folder with the id `id` is: the index of its collection
/// and its index within that collection.
pub open spec fn folder_position(cs: Seq<CollectionWithRequests>, id: Seq<char>) -> Option<(int, int)>
    decreases cs.len(),
{
    if cs.len() == 0 {
        None
    } else {
        match crate::seqs::first_index(cs[0].folders@, crate::rows_by_id::folder_has_id(id)) {
            Some(j) => Some((0, j)),
            None => match folder_position(cs.drop_first(), id) {
                Some((i, j)) => Some((i + 1, j)),
                None => None,
            },
        }
    }
}

pub proof fn lemma_folder_position(cs: Seq<CollectionWithRequests>, id: Seq<char>)
    ensures
        match folder_position(cs, id) {
            Some((i, j)) => 0 <= i < cs.len() && 0 <= j < cs[i].folders@.len()
                && cs[i].folders@[j].id@ == id,
            None => !has_folder(cs, id),
        },
    decreases cs.len(),
{
    if cs.len() > 0 {
        crate::seqs::lemma_first_index(cs[0].folders@, crate::rows_by_id::folder_has_id(id));
        lemma_folder_position(cs.drop_first(), id);
        if folder_position(cs, id) is None {
            assert forall|i: int, j: int|
                0 <= i < cs.len() && 0 <= j < cs[i].folders@.len() implies (
                #[trigger] cs[i].folders@[j]).id@ != id by {
                if i > 0 {
                    assert(cs[i] == cs.drop_first()[i - 1]);
                } else {
                    assert((crate::rows_by_id::folder_has_id(id))(cs[0].folders@[j]) == false);
                }
            }
        }
    }
}

/// Finds the first folder with the id `id`, over all collections.
pub fn find_folder_anywhere(cs: &Vec<CollectionWithRequests>, id: &str) -> (r: Option<(usize, usize)>)
    ensures
        match r {
            Some((i, j)) => folder_position(cs@, id@) == Some((i as int, j as int)),
            None => folder_position(cs@, id@) is None,
        },
{
    let mut i: usize = 0;
    assert(cs@.subrange(0, cs@.len() as int) =~= cs@);
    while i < cs.len()
        invariant
            i <= cs@.len(),
            folder_position(cs@, id@) == match folder_position(
                cs@.subrange(i as int, cs@.len() as int),
                id@,
            ) {
                Some((a, b)) => Some((a + i, b)),
                None => None,
            },
        decreases cs@.len() - i,
    {
        let ghost rest = cs@.subrange(i as int, cs@.len() as int);
        assert(rest[0] == cs@[i as int]);
        assert(rest.drop_first() =~= cs@.subrange(i + 1, cs@.len() as int));
        match crate::rows_by_id::find_folder(&cs[i].folders, id) {
            Some(j) => {
                return Some((i, j));
            },
            None => {},
        }
        i = i + 1;
    }
    assert(cs@.subrange(i as int, cs@.len() as int).len() == 0);
    None
}

/// Whether some collection holds a request with the id `id`.
pub fn contains_request(cs: &Vec<CollectionWithRequests>, id: &str) -> (r: bool)
    ensures
        r == has_request(cs@, id@),
{
    proof {
        lemma_request_position(cs@, id@);
    }
    find_request(cs, id).is_some()
}

/// Whether some collection holds a folder with the id `id`.
pub fn contains_folder(cs: &Vec<CollectionWithRequests>, id: &str) -> (r: bool)
    ensures
        r == has_folder(cs@, id@),
{
    proof {
        lemma_folder_position(cs@, id@);
    }
    find_folder_anywhere(cs, id).is_some()
}

} // verus!
