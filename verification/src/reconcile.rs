//! Bringing the tabs, prompts and tree in line with a workspace reloaded
//! after a create, rename or delete.

use vstd::prelude::*;
use std::collections::VecDeque;
use crate::model::opt_view;
use crate::navigation::{resolve_startup_collection, startup_collection};
use crate::records::{
    CollectionWithRequests, WorkspaceSnapshot, contains_folder, contains_request, has_folder,
    has_request,
};
use crate::seqs::lemma_filter_step;
use crate::state::{
    Midway, RequestTabState, SessionStoreState, TabSnapshot, TopBarMode, TreeViewState, find_tab,
    is_fresh_tab, is_fresh_tree, tab_index,
};

verus! {

/// The request with the id `rid` was in the old workspace and is not in
/// the new one.
pub open spec fn request_deleted(
    old_cs: Seq<CollectionWithRequests>,
    new_cs: Seq<CollectionWithRequests>,
    rid: Seq<char>,
) -> bool {
    has_request(old_cs, rid) && !has_request(new_cs, rid)
}

/// A tab survives unless it shows a request that was deleted.
pub open spec fn keeps_tab(
    old_cs: Seq<CollectionWithRequests>,
    new_cs: Seq<CollectionWithRequests>,
) -> spec_fn(RequestTabState) -> bool {
    |t: RequestTabState|
        match t.draft.id {
            Some(r) => !request_deleted(old_cs, new_cs, r@),
            None => true,
        }
}

/// A closed tab survives unless it shows a request that was deleted.
pub open spec fn keeps_snapshot(
    old_cs: Seq<CollectionWithRequests>,
    new_cs: Seq<CollectionWithRequests>,
) -> spec_fn(TabSnapshot) -> bool {
    |t: TabSnapshot|
        match t.draft.id {
            Some(r) => !request_deleted(old_cs, new_cs, r@),
            None => true,
        }
}

/// A collapsed folder stays collapsed while it exists.
pub open spec fn keeps_folder(new_cs: Seq<CollectionWithRequests>) -> spec_fn(String) -> bool {
    |f: String| has_folder(new_cs, f@)
}

fn is_deleted(
    old_cs: &Vec<CollectionWithRequests>,
    new_cs: &Vec<CollectionWithRequests>,
    id: &Option<String>,
) -> (r: bool)
    ensures
        r == match *id {
            Some(x) => request_deleted(old_cs@, new_cs@, x@),
            None => false,
        },
{
    match id {
        Some(x) => contains_request(old_cs, x.as_str()) && !contains_request(new_cs, x.as_str()),
        None => false,
    }
}

fn retain_tabs(
    tabs: &mut Vec<RequestTabState>,
    old_cs: &Vec<CollectionWithRequests>,
    new_cs: &Vec<CollectionWithRequests>,
)
    ensures
        final(tabs)@ == old(tabs)@.filter(keeps_tab(old_cs@, new_cs@)),
{
    let ghost pre = tabs@;
    let ghost p = keeps_tab(old_cs@, new_cs@);
    let mut kept: Vec<RequestTabState> = Vec::new();
    let mut rest: Vec<RequestTabState> = Vec::new();
    std::mem::swap(tabs, &mut rest);
    assert(rest.len() == pre.len());
    assert(pre.subrange(0, 0).filter(p) =~= Seq::<RequestTabState>::empty()) by {
        reveal(Seq::filter);
    }
    let mut i: usize = 0;
    while rest.len() > 0
        invariant
            i + rest@.len() == pre.len(),
            pre.len() <= usize::MAX,
            rest@ == pre.subrange(i as int, pre.len() as int),
            kept@ == pre.subrange(0, i as int).filter(p),
            p == keeps_tab(old_cs@, new_cs@),
        decreases rest@.len(),
    {
        let tab = rest.remove(0);
        proof {
            lemma_filter_step(pre, p, i as int);
        }
        if !is_deleted(old_cs, new_cs, &tab.draft.id) {
            kept.push(tab);
        }
        i = i + 1;
        assert(rest@ =~= pre.subrange(i as int, pre.len() as int));
    }
    assert(pre.subrange(0, pre.len() as int) =~= pre);
    *tabs = kept;
}

fn retain_closed(
    closed: &mut VecDeque<TabSnapshot>,
    old_cs: &Vec<CollectionWithRequests>,
    new_cs: &Vec<CollectionWithRequests>,
)
    ensures
        final(closed)@ == old(closed)@.filter(keeps_snapshot(old_cs@, new_cs@)),
{
    let ghost pre = closed@;
    let ghost p = keeps_snapshot(old_cs@, new_cs@);
    let n = closed.len();
    let mut kept: VecDeque<TabSnapshot> = VecDeque::new();
    assert(pre.subrange(0, 0).filter(p) =~= Seq::<TabSnapshot>::empty()) by {
        reveal(Seq::filter);
    }
    assert(closed@ =~= pre.subrange(0, n as int));
    let mut i: usize = 0;
    while i < n
        invariant
            n == pre.len(),
            i <= n,
            closed@ == pre.subrange(i as int, n as int),
            kept@ == pre.subrange(0, i as int).filter(p),
            p == keeps_snapshot(old_cs@, new_cs@),
        decreases n - i,
    {
        let snapshot = closed.pop_front().unwrap();
        proof {
            lemma_filter_step(pre, p, i as int);
        }
        if !is_deleted(old_cs, new_cs, &snapshot.draft.id) {
            kept.push_back(snapshot);
        }
        i = i + 1;
        assert(closed@ =~= pre.subrange(i as int, n as int));
    }
    assert(pre.subrange(0, n as int) =~= pre);
    *closed = kept;
}

fn retain_folders(ids: &mut Vec<String>, new_cs: &Vec<CollectionWithRequests>)
    ensures
        final(ids)@ == old(ids)@.filter(keeps_folder(new_cs@)),
{
    let ghost pre = ids@;
    let ghost p = keeps_folder(new_cs@);
    let mut kept: Vec<String> = Vec::new();
    let mut rest: Vec<String> = Vec::new();
    std::mem::swap(ids, &mut rest);
    assert(rest.len() == pre.len());
    assert(pre.subrange(0, 0).filter(p) =~= Seq::<String>::empty()) by {
        reveal(Seq::filter);
    }
    let mut i: usize = 0;
    while rest.len() > 0
        invariant
            i + rest@.len() == pre.len(),
            pre.len() <= usize::MAX,
            rest@ == pre.subrange(i as int, pre.len() as int),
            kept@ == pre.subrange(0, i as int).filter(p),
            p == keeps_folder(new_cs@),
        decreases rest@.len(),
    {
        let id = rest.remove(0);
        proof {
            lemma_filter_step(pre, p, i as int);
        }
        if contains_folder(new_cs, id.as_str()) {
            kept.push(id);
        }
        i = i + 1;
        assert(rest@ =~= pre.subrange(i as int, pre.len() as int));
    }
    assert(pre.subrange(0, pre.len() as int) =~= pre);
    *ids = kept;
}

/// The active tab after the reconciliation: the tab that was active, if it
/// survived; otherwise the tab now at its position, or the last one.
pub open spec fn reconciled_active(pre: Midway, kept: Seq<RequestTabState>) -> Option<usize> {
    let prev_id = match pre.active_tab {
        Some(a) if a < pre.tabs@.len() => Some(pre.tabs@[a as int].id@),
        _ => None,
    };
    match prev_id {
        Some(id) if tab_index(kept, id) is Some => Some(tab_index(kept, id).unwrap() as usize),
        _ => {
            let p = match pre.active_tab {
                Some(a) => a as int,
                None => 0,
            };
            Some(
                (if p < kept.len() - 1 {
                    p
                } else {
                    kept.len() - 1
                }) as usize,
            )
        },
    }
}

/// What reconciling with the reloaded workspace `ws` does. Tabs and closed
/// tabs of deleted requests go (an emptied tab list gets one blank tab);
/// the active tab follows `reconciled_active`; prompts whose tab is gone
/// close; collapsed folders that no longer exist are forgotten; the active
/// collection is re-resolved (a change resets the tree; Test mode falls
/// back to Debug without one); the workspace is replaced, the dialog
/// closes and the session is dirty.
pub open spec fn reconcile_spec(pre: Midway, post: Midway, ws: WorkspaceSnapshot) -> bool {
    let old_cs = pre.workspace.collections@;
    let new_cs = ws.collections@;
    let kept = pre.tabs@.filter(keeps_tab(old_cs, new_cs));
    let new_active = startup_collection(new_cs, opt_view(pre.active_collection_id));
    &&& if kept.len() == 0 {
        &&& post.tabs@.len() == 1
        &&& crate::model::is_blank_draft(post.tabs@[0].draft@)
        &&& is_fresh_tab(post.tabs@[0])
        &&& post.active_tab == Some(0usize)
    } else {
        &&& post.tabs@ == kept
        &&& post.active_tab == reconciled_active(pre, kept)
    }
    &&& post.closed_tabs@ == pre.closed_tabs@.filter(keeps_snapshot(old_cs, new_cs))
    &&& post.save_request_prompt == match pre.save_request_prompt {
        Some(p) if tab_index(post.tabs@, p.tab_id@) is None => None,
        other => other,
    }
    &&& post.unsaved_changes_prompt == match pre.unsaved_changes_prompt {
        Some(p) if tab_index(post.tabs@, p.tab_id@) is None => None,
        other => other,
    }
    &&& opt_view(post.active_collection_id) == new_active
    &&& if new_active != opt_view(pre.active_collection_id) {
        is_fresh_tree(post.tree)
    } else {
        &&& post.tree.collapsed@ == pre.tree.collapsed@.filter(keeps_folder(new_cs))
        &&& match pre.tree.collapsed_snapshot {
            None => post.tree.collapsed_snapshot is None,
            Some(v) => post.tree.collapsed_snapshot matches Some(w) && w@ == v@.filter(
                keeps_folder(new_cs),
            ),
        }
        &&& post.tree == TreeViewState {
            collapsed: post.tree.collapsed,
            collapsed_snapshot: post.tree.collapsed_snapshot,
            error: None,
            ..pre.tree
        }
    }
    &&& post.top_bar_mode == if new_active is None {
        TopBarMode::Debug
    } else {
        pre.top_bar_mode
    }
    &&& post == Midway {
        tabs: post.tabs,
        active_tab: post.active_tab,
        closed_tabs: post.closed_tabs,
        save_request_prompt: post.save_request_prompt,
        unsaved_changes_prompt: post.unsaved_changes_prompt,
        active_collection_id: post.active_collection_id,
        tree: post.tree,
        top_bar_mode: post.top_bar_mode,
        workspace: ws,
        workspace_crud_dialog: None,
        session: SessionStoreState { dirty: true, ..pre.session },
        ..pre
    }
}

#[verifier::rlimit(40)]
pub fn reconcile_workspace_after_crud(state: &mut Midway, workspace: WorkspaceSnapshot)
    ensures
        reconcile_spec(*old(state), *final(state), workspace),
{
    let ghost pre = *state;
    let previous_active_collection = crate::model::clone_opt(&state.active_collection_id);
    let previous_active_index = state.active_tab;
    let previous_active_tab_id = match previous_active_index {
        Some(index) => if index < state.tabs.len() {
            Some(state.tabs[index].id.clone())
        } else {
            None
        },
        None => None,
    };
    retain_tabs(&mut state.tabs, &state.workspace.collections, &workspace.collections);
    retain_closed(&mut state.closed_tabs, &state.workspace.collections, &workspace.collections);
    let ghost kept = state.tabs@;
    if state.tabs.len() == 0 {
        state.tabs.push(RequestTabState::blank());
        state.active_tab = Some(0);
    } else {
        let found = match &previous_active_tab_id {
            Some(tab_id) => {
                proof {
                    crate::state::lemma_tab_index(state.tabs@, tab_id@);
                }
                find_tab(&state.tabs, tab_id.as_str())
            },
            None => None,
        };
        state.active_tab = match found {
            Some(j) => Some(j),
            None => {
                let p = match previous_active_index {
                    Some(a) => a,
                    None => 0,
                };
                let last = state.tabs.len() - 1;
                Some(
                    if p < last {
                        p
                    } else {
                        last
                    },
                )
            },
        };
    }
    let save_orphaned = match &state.save_request_prompt {
        Some(prompt) => find_tab(&state.tabs, prompt.tab_id.as_str()).is_none(),
        None => false,
    };
    if save_orphaned {
        state.save_request_prompt = None;
    }
    let unsaved_orphaned = match &state.unsaved_changes_prompt {
        Some(prompt) => find_tab(&state.tabs, prompt.tab_id.as_str()).is_none(),
        None => false,
    };
    if unsaved_orphaned {
        state.unsaved_changes_prompt = None;
    }
    retain_folders(&mut state.tree.collapsed, &workspace.collections);
    if let Some(snapshot) = state.tree.collapsed_snapshot.as_mut() {
        retain_folders(snapshot, &workspace.collections);
    }
    let previous_ref = match &previous_active_collection {
        Some(id) => Some(id.as_str()),
        None => None,
    };
    state.active_collection_id = resolve_startup_collection(&workspace.collections, previous_ref);
    if !crate::model::opt_text_eq(&state.active_collection_id, &previous_active_collection) {
        state.tree = TreeViewState::default();
    } else {
        state.tree.error = None;
    }
    if state.active_collection_id.is_none() {
        state.top_bar_mode = TopBarMode::Debug;
    }
    state.workspace = workspace;
    state.workspace_crud_dialog = None;
    state.session.dirty = true;
}

} // verus!
