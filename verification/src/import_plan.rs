//! What an import brings into the workspace and under which names. The
//! store writes follow the plan in order; each imported item gets a name
//! that no item of its kind had before, nor any item imported before it.

use vstd::prelude::*;
use crate::model::{KeyValueRow, RequestDraft};
use crate::names::{
    collection_import_message, collection_import_message_spec, is_unique_name_for, name_views,
    native_import_message, native_import_message_spec, variables_environment_name, NameRegistry,
};
use crate::records::{CollectionWithRequests, EnvironmentRecord, SavedRequestRecord, WorkspaceSnapshot};

verus! {

broadcast use vstd::seq_lib::group_seq_properties;

/// `results` are the names handed out one after the other to `candidates`,
/// starting from the names in `used`, each name joining `used` once it is
/// handed out.
pub open spec fn claimed_in_turn(
    used: Seq<Seq<char>>,
    candidates: Seq<Seq<char>>,
    results: Seq<Seq<char>>,
) -> bool {
    &&& results.len() == candidates.len()
    &&& forall|i: int|
        0 <= i < candidates.len() ==> is_unique_name_for(
            used + results.take(i),
            candidates[i],
            #[trigger] results[i],
        )
}

proof fn lemma_claimed_push(
    used: Seq<Seq<char>>,
    candidates: Seq<Seq<char>>,
    results: Seq<Seq<char>>,
    c: Seq<char>,
    r: Seq<char>,
)
    requires
        claimed_in_turn(used, candidates, results),
        is_unique_name_for(used + results, c, r),
    ensures
        claimed_in_turn(used, candidates.push(c), results.push(r)),
{
    let cs = candidates.push(c);
    let rs = results.push(r);
    assert forall|i: int| 0 <= i < cs.len() implies is_unique_name_for(
        used + rs.take(i),
        cs[i],
        #[trigger] rs[i],
    ) by {
        if i < candidates.len() {
            assert(rs.take(i) =~= results.take(i));
            assert(is_unique_name_for(used + results.take(i), candidates[i], results[i]));
        } else {
            assert(rs.take(i) =~= results);
        }
    }
}

proof fn lemma_claimed_concat(
    used: Seq<Seq<char>>,
    c1: Seq<Seq<char>>,
    r1: Seq<Seq<char>>,
    c2: Seq<Seq<char>>,
    r2: Seq<Seq<char>>,
)
    requires
        claimed_in_turn(used, c1, r1),
        claimed_in_turn(used + r1, c2, r2),
    ensures
        claimed_in_turn(used, c1 + c2, r1 + r2),
{
    let cs = c1 + c2;
    let rs = r1 + r2;
    assert forall|i: int| 0 <= i < cs.len() implies is_unique_name_for(
        used + rs.take(i),
        cs[i],
        #[trigger] rs[i],
    ) by {
        if i < c1.len() {
            assert(rs.take(i) =~= r1.take(i));
            assert(is_unique_name_for(used + r1.take(i), c1[i], r1[i]));
        } else {
            let k = i - c1.len();
            assert(used + rs.take(i) =~= (used + r1) + r2.take(k));
            assert(cs[i] == c2[k]);
            assert(rs[i] == r2[k]);
            assert(is_unique_name_for((used + r1) + r2.take(k), c2[k], r2[k]));
        }
    }
}

proof fn lemma_name_views_push(names: Seq<String>, s: String)
    ensures
        name_views(names.push(s)) == name_views(names).push(s@),
{
    assert(name_views(names.push(s)) =~= name_views(names).push(s@));
}

/// Hands out, one after the other, a name for each candidate.
fn claim_all(registry: &mut NameRegistry, candidates: &Vec<String>) -> (r: Vec<String>)
    requires
        old(registry).names@.len() + candidates@.len() + 3 <= u64::MAX,
    ensures
        claimed_in_turn(name_views(old(registry).names@), name_views(candidates@), name_views(r@)),
        name_views(final(registry).names@) == name_views(old(registry).names@) + name_views(r@),
        final(registry).names@.len() == old(registry).names@.len() + candidates@.len(),
{
    let ghost used = name_views(registry.names@);
    let ghost start = registry.names@.len();
    let mut results: Vec<String> = Vec::new();
    let mut i: usize = 0;
    while i < candidates.len()
        invariant
            i <= candidates@.len(),
            results@.len() == i,
            registry.names@.len() == start + i,
            start + candidates@.len() + 3 <= u64::MAX,
            claimed_in_turn(used, name_views(candidates@).take(i as int), name_views(results@)),
            name_views(registry.names@) == used + name_views(results@),
        decreases candidates@.len() - i,
    {
        let ghost before = results@;
        let ghost registry_before = registry.names@;
        let name = registry.claim(candidates[i].as_str());
        results.push(name);
        proof {
            lemma_name_views_push(before, name);
            lemma_name_views_push(registry_before, name);
            assert(name_views(candidates@).take(i + 1) =~= name_views(candidates@).take(
                i as int,
            ).push(candidates@[i as int]@));
            lemma_claimed_push(
                used,
                name_views(candidates@).take(i as int),
                name_views(before),
                candidates@[i as int]@,
                name@,
            );
        }
        i = i + 1;
    }
    assert(name_views(candidates@).take(i as int) =~= name_views(candidates@));
    results
}

/// The names a workspace already uses, for each kind of item.
#[derive(Debug)]
pub struct UsedNames {
    pub collections: Vec<String>,
    pub requests: Vec<String>,
    pub environments: Vec<String>,
}

/// The names of the collections of `cs`, in order.
pub open spec fn collection_names(cs: Seq<CollectionWithRequests>) -> Seq<Seq<char>> {
    cs.map_values(|c: CollectionWithRequests| c.collection.name@)
}

/// The names of the saved requests of `rs`, in order.
pub open spec fn record_names(rs: Seq<SavedRequestRecord>) -> Seq<Seq<char>> {
    rs.map_values(|r: SavedRequestRecord| r.name@)
}

/// For each collection of `cs`, the names of its requests.
pub open spec fn nested_request_names(cs: Seq<CollectionWithRequests>) -> Seq<Seq<Seq<char>>> {
    cs.map_values(|c: CollectionWithRequests| record_names(c.requests@))
}

/// The names of the requests of all collections of `cs`, collection after
/// collection.
pub open spec fn all_request_names(cs: Seq<CollectionWithRequests>) -> Seq<Seq<char>> {
    nested_request_names(cs).flatten()
}

/// The names of the environments of `es`, in order.
pub open spec fn environment_names(es: Seq<EnvironmentRecord>) -> Seq<Seq<char>> {
    es.map_values(|e: EnvironmentRecord| e.name@)
}

/// The names of the drafts of `ds`, in order.
pub open spec fn draft_names(ds: Seq<RequestDraft>) -> Seq<Seq<char>> {
    ds.map_values(|d: RequestDraft| d.name@)
}

fn record_name_list(rs: &Vec<SavedRequestRecord>) -> (r: Vec<String>)
    ensures
        name_views(r@) == record_names(rs@),
{
    let mut out: Vec<String> = Vec::new();
    let mut i: usize = 0;
    while i < rs.len()
        invariant
            i <= rs@.len(),
            name_views(out@) == record_names(rs@.take(i as int)),
        decreases rs@.len() - i,
    {
        let ghost before = out@;
        let name = rs[i].name.clone();
        out.push(name);
        proof {
            lemma_name_views_push(before, name);
            assert(record_names(rs@.take(i + 1)) =~= record_names(rs@.take(i as int)).push(
                rs@[i as int].name@,
            ));
        }
        i = i + 1;
    }
    assert(rs@.take(i as int) =~= rs@);
    out
}

fn environment_name_list(es: &Vec<EnvironmentRecord>) -> (r: Vec<String>)
    ensures
        name_views(r@) == environment_names(es@),
{
    let mut out: Vec<String> = Vec::new();
    let mut i: usize = 0;
    while i < es.len()
        invariant
            i <= es@.len(),
            name_views(out@) == environment_names(es@.take(i as int)),
        decreases es@.len() - i,
    {
        let ghost before = out@;
        let name = es[i].name.clone();
        out.push(name);
        proof {
            lemma_name_views_push(before, name);
            assert(environment_names(es@.take(i + 1)) =~= environment_names(
                es@.take(i as int),
            ).push(es@[i as int].name@));
        }
        i = i + 1;
    }
    assert(es@.take(i as int) =~= es@);
    out
}

fn draft_name_list(ds: &Vec<RequestDraft>) -> (r: Vec<String>)
    ensures
        name_views(r@) == draft_names(ds@),
{
    let mut out: Vec<String> = Vec::new();
    let mut i: usize = 0;
    while i < ds.len()
        invariant
            i <= ds@.len(),
            name_views(out@) == draft_names(ds@.take(i as int)),
        decreases ds@.len() - i,
    {
        let ghost before = out@;
        let name = ds[i].name.clone();
        out.push(name);
        proof {
            lemma_name_views_push(before, name);
            assert(draft_names(ds@.take(i + 1)) =~= draft_names(ds@.take(i as int)).push(
                ds@[i as int].name@,
            ));
        }
        i = i + 1;
    }
    assert(ds@.take(i as int) =~= ds@);
    out
}

/// Appends the names of `more` to `out`.
fn append_names(out: &mut Vec<String>, more: Vec<String>)
    ensures
        name_views(final(out)@) == name_views(old(out)@) + name_views(more@),
        final(out)@.len() == old(out)@.len() + more@.len(),
{
    let ghost start = name_views(out@);
    let ghost start_len = out@.len();
    let mut i: usize = 0;
    let rest = more;
    let ghost all = rest@;
    while i < rest.len()
        invariant
            i <= all.len(),
            rest@ == all,
            out@.len() == start_len + i,
            name_views(out@) == start + name_views(all).take(i as int),
        decreases all.len() - i,
    {
        let ghost before = out@;
        let name = rest[i].clone();
        out.push(name);
        proof {
            lemma_name_views_push(before, name);
            assert(name_views(all).take(i + 1) =~= name_views(all).take(i as int).push(
                all[i as int]@,
            ));
        }
        i = i + 1;
    }
    assert(name_views(all).take(i as int) =~= name_views(all));
}

/// The names the workspace of `snapshot` uses.
pub fn used_names(snapshot: &WorkspaceSnapshot) -> (r: UsedNames)
    ensures
        name_views(r.collections@) == collection_names(snapshot.collections@),
        name_views(r.requests@) == all_request_names(snapshot.collections@),
        name_views(r.environments@) == environment_names(snapshot.environments@),
{
    let cs = &snapshot.collections;
    let mut collections: Vec<String> = Vec::new();
    let mut requests: Vec<String> = Vec::new();
    let mut i: usize = 0;
    while i < cs.len()
        invariant
            i <= cs@.len(),
            name_views(collections@) == collection_names(cs@.take(i as int)),
            name_views(requests@) == nested_request_names(cs@.take(i as int)).flatten(),
        decreases cs@.len() - i,
    {
        let ghost before = collections@;
        let ghost requests_before = name_views(requests@);
        let name = cs[i].collection.name.clone();
        collections.push(name);
        let names_here = record_name_list(&cs[i].requests);
        append_names(&mut requests, names_here);
        proof {
            lemma_name_views_push(before, name);
            let taken = cs@.take(i as int);
            assert(cs@.take(i + 1) =~= taken.push(cs@[i as int]));
            assert(collection_names(taken.push(cs@[i as int])) =~= collection_names(taken).push(
                cs@[i as int].collection.name@,
            ));
            assert(nested_request_names(taken.push(cs@[i as int])) =~= nested_request_names(
                taken,
            ).push(record_names(cs@[i as int].requests@)));
            nested_request_names(taken).lemma_flatten_push(record_names(cs@[i as int].requests@));
        }
        i = i + 1;
    }
    assert(cs@.take(i as int) =~= cs@);
    let environments = environment_name_list(&snapshot.environments);
    UsedNames { collections, requests, environments }
}

/// The names of `cs` before `i`, flattened, are no more than all of them.
proof fn lemma_prefix_request_names(cs: Seq<CollectionWithRequests>, i: int)
    requires
        0 <= i <= cs.len(),
    ensures
        nested_request_names(cs.take(i)).flatten().len() <= all_request_names(cs).len(),
        nested_request_names(cs.take(i)).flatten().len() + record_names(cs[i].requests@).len()
            <= all_request_names(cs).len() || i == cs.len(),
{
    assert(nested_request_names(cs) =~= nested_request_names(cs.take(i)) + nested_request_names(
        cs.skip(i),
    ));
    vstd::seq_lib::lemma_flatten_concat(nested_request_names(cs.take(i)), nested_request_names(cs.skip(i)));
    if i < cs.len() {
        let rest = nested_request_names(cs.skip(i));
        assert(rest =~= seq![rest[0]] + rest.drop_first());
        vstd::seq_lib::lemma_flatten_concat(seq![rest[0]], rest.drop_first());
        seq![rest[0]].lemma_flatten_singleton();
        assert(rest[0] == record_names(cs[i].requests@));
    }
}

/// A collection an import brings in: its name in the workspace and the
/// names of its requests.
#[derive(Debug)]
pub struct PlannedCollection {
    pub name: String,
    pub request_names: Vec<String>,
}

/// What a native workspace import writes: each environment under its new
/// name, each collection with its requests under their new names, and the
/// message shown when it is done.
#[derive(Debug)]
pub struct NativeImportPlan {
    pub environment_names: Vec<String>,
    pub collections: Vec<PlannedCollection>,
    pub message: String,
}

pub open spec fn planned_names(ps: Seq<PlannedCollection>) -> Seq<Seq<char>> {
    ps.map_values(|p: PlannedCollection| p.name@)
}

pub open spec fn planned_request_names(ps: Seq<PlannedCollection>) -> Seq<Seq<Seq<char>>> {
    ps.map_values(|p: PlannedCollection| name_views(p.request_names@))
}

/// Plans a native workspace import against the names already in use:
/// environments first, then each collection followed by its requests, each
/// kind of item named against the names of its kind.
pub fn plan_native_import(used: UsedNames, bundle: &WorkspaceSnapshot) -> (r: NativeImportPlan)
    requires
        used.environments@.len() + bundle.environments@.len() + 3 <= u64::MAX,
        used.collections@.len() + bundle.collections@.len() + 3 <= u64::MAX,
        used.requests@.len() + all_request_names(bundle.collections@).len() + 3 <= u64::MAX,
    ensures
        claimed_in_turn(
            name_views(used.environments@),
            environment_names(bundle.environments@),
            name_views(r.environment_names@),
        ),
        claimed_in_turn(
            name_views(used.collections@),
            collection_names(bundle.collections@),
            planned_names(r.collections@),
        ),
        r.collections@.len() == bundle.collections@.len(),
        forall|k: int|
            0 <= k < r.collections@.len() ==> (#[trigger] r.collections@[k]).request_names@.len()
                == bundle.collections@[k].requests@.len(),
        claimed_in_turn(
            name_views(used.requests@),
            all_request_names(bundle.collections@),
            planned_request_names(r.collections@).flatten(),
        ),
        r.message@ == native_import_message_spec(
            bundle.collections@.len() as u64,
            all_request_names(bundle.collections@).len() as u64,
            bundle.environments@.len() as u64,
        ),
{
    let ghost used_c = name_views(used.collections@);
    let ghost used_r = name_views(used.requests@);
    let UsedNames { collections, requests, environments } = used;
    let mut environment_registry = NameRegistry { names: environments };
    let environment_candidates = environment_name_list(&bundle.environments);
    let environment_names = claim_all(&mut environment_registry, &environment_candidates);

    let mut collection_registry = NameRegistry { names: collections };
    let mut request_registry = NameRegistry { names: requests };
    let cs = &bundle.collections;
    let mut planned: Vec<PlannedCollection> = Vec::new();
    let mut request_count: u64 = 0;
    let mut i: usize = 0;
    while i < cs.len()
        invariant
            i <= cs@.len(),
            planned@.len() == i,
            used_c.len() + cs@.len() + 3 <= u64::MAX,
            used_r.len() + all_request_names(cs@).len() + 3 <= u64::MAX,
            name_views(collection_registry.names@) == used_c + planned_names(planned@),
            collection_registry.names@.len() == used_c.len() + i,
            claimed_in_turn(used_c, collection_names(cs@).take(i as int), planned_names(planned@)),
            name_views(request_registry.names@) == used_r + planned_request_names(
                planned@,
            ).flatten(),
            request_registry.names@.len() == used_r.len() + request_count,
            request_count == nested_request_names(cs@.take(i as int)).flatten().len(),
            claimed_in_turn(
                used_r,
                nested_request_names(cs@.take(i as int)).flatten(),
                planned_request_names(planned@).flatten(),
            ),
            forall|k: int|
                0 <= k < i ==> (#[trigger] planned@[k]).request_names@.len()
                    == cs@[k].requests@.len(),
        decreases cs@.len() - i,
    {
        let ghost planned_before = planned@;
        let ghost registry_before = collection_registry.names@;
        let ghost requests_before = name_views(request_registry.names@);
        proof {
            lemma_prefix_request_names(cs@, i as int);
        }
        let name = collection_registry.claim(cs[i].collection.name.as_str());
        let candidates = record_name_list(&cs[i].requests);
        let names = claim_all(&mut request_registry, &candidates);
        request_count = request_count + names.len() as u64;
        let ghost names_view = name_views(names@);
        planned.push(PlannedCollection { name, request_names: names });
        proof {
            let taken = cs@.take(i as int);
            let here = record_names(cs@[i as int].requests@);
            lemma_name_views_push(registry_before, name);
            assert(collection_names(cs@).take(i + 1) =~= collection_names(cs@).take(i as int).push(
                cs@[i as int].collection.name@,
            ));
            assert(planned_names(planned@) =~= planned_names(planned_before).push(name@));
            lemma_claimed_push(
                used_c,
                collection_names(cs@).take(i as int),
                planned_names(planned_before),
                cs@[i as int].collection.name@,
                name@,
            );
            assert(cs@.take(i + 1) =~= taken.push(cs@[i as int]));
            assert(nested_request_names(taken.push(cs@[i as int])) =~= nested_request_names(
                taken,
            ).push(here));
            nested_request_names(taken).lemma_flatten_push(here);
            assert(name_views(planned@[i as int].request_names@) == names_view);
            assert(planned_request_names(planned@) =~= planned_request_names(planned_before).push(
                names_view,
            ));
            planned_request_names(planned_before).lemma_flatten_push(names_view);
            lemma_claimed_concat(
                used_r,
                nested_request_names(taken).flatten(),
                planned_request_names(planned_before).flatten(),
                here,
                names_view,
            );
            assert forall|k: int| 0 <= k < i + 1 implies (#[trigger] planned@[k]).request_names@.len()
                == cs@[k].requests@.len() by {
                if k < i {
                    assert(planned@[k] == planned_before[k]);
                }
            }
        }
        i = i + 1;
    }
    proof {
        assert(cs@.take(i as int) =~= cs@);
        assert(collection_names(cs@).take(i as int) =~= collection_names(cs@));
    }
    let message = native_import_message(
        cs.len() as u64,
        request_count,
        bundle.environments.len() as u64,
    );
    NativeImportPlan { environment_names, collections: planned, message }
}

/// What a Postman or OpenAPI import writes: one collection under its new
/// name, its requests under their new names, an environment for the
/// document's variables when it has any, and the message shown when done.
#[derive(Debug)]
pub struct HttpImportPlan {
    pub collection_name: String,
    pub request_names: Vec<String>,
    pub environment_name: Option<String>,
    pub message: String,
}

/// Plans the import of a parsed Postman or OpenAPI document against the
/// names already in use: the collection is named after the document, each
/// request after its draft, and the variables, if any, go to an
/// environment named after the collection.
pub fn plan_http_import(
    used: UsedNames,
    default_collection_name: &str,
    requests: &Vec<RequestDraft>,
    variables: &Vec<KeyValueRow>,
) -> (r: HttpImportPlan)
    requires
        used.collections@.len() + 3 <= u64::MAX,
        used.requests@.len() + requests@.len() + 3 <= u64::MAX,
        used.environments@.len() + 3 <= u64::MAX,
    ensures
        is_unique_name_for(
            name_views(used.collections@),
            default_collection_name@,
            r.collection_name@,
        ),
        claimed_in_turn(
            name_views(used.requests@),
            draft_names(requests@),
            name_views(r.request_names@),
        ),
        variables@.len() == 0 ==> r.environment_name is None,
        variables@.len() > 0 ==> (r.environment_name matches Some(e) && is_unique_name_for(
            name_views(used.environments@),
            r.collection_name@ + " vars"@,
            e@,
        )),
        r.message@ == collection_import_message_spec(
            r.collection_name@,
            requests@.len() as u64,
            if variables@.len() == 0 {
                0u64
            } else {
                1u64
            },
        ),
{
    let UsedNames { collections, requests: request_names_in_use, environments } = used;
    let mut collection_registry = NameRegistry { names: collections };
    let collection_name = collection_registry.claim(default_collection_name);

    let mut request_registry = NameRegistry { names: request_names_in_use };
    let candidates = draft_name_list(requests);
    assert(name_views(candidates@).len() == draft_names(requests@).len());
    let request_names = claim_all(&mut request_registry, &candidates);

    let environment_name = if variables.len() == 0 {
        None
    } else {
        let mut environment_registry = NameRegistry { names: environments };
        let wanted = variables_environment_name(collection_name.as_str());
        Some(environment_registry.claim(wanted.as_str()))
    };
    let environments_imported: u64 = if variables.len() == 0 {
        0
    } else {
        1
    };
    let message = collection_import_message(
        collection_name.as_str(),
        requests.len() as u64,
        environments_imported,
    );
    HttpImportPlan { collection_name, request_names, environment_name, message }
}

} // verus!
