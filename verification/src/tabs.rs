//! Request tabs: which configuration tab a method opens on, when a tab has
//! unsaved changes, closing and reopening tabs, and the results of sending
//! a request or computing its preview.

use vstd::prelude::*;
use crate::model::{AuthView, BodyMode, HttpMethod, RequestDraft, RequestDraftView};
use crate::records::{RequestPreview, ResponseEnvelope, ResponseOutcome};
use crate::state::{
    CLOSED_TABS_LIMIT, Midway, RequestTab, RequestTabState, SessionStoreState, TabSnapshot,
    UnsavedChangesPromptState,
    find_tab, tab_index,
};
use crate::text::{is_blank, blank};

verus! {

/// The configuration tab a method opens on: Params for GET, HEAD and
/// OPTIONS; Body for POST, PUT, PATCH and DELETE.
pub open spec fn default_tab_spec(method: HttpMethod) -> RequestTab {
    match method {
        HttpMethod::GET | HttpMethod::HEAD | HttpMethod::OPTIONS => RequestTab::Params,
        _ => RequestTab::Body,
    }
}

pub fn default_tab_for_method(method: HttpMethod) -> (r: RequestTab)
    ensures
        r == default_tab_spec(method),
{
    match method {
        HttpMethod::GET | HttpMethod::HEAD | HttpMethod::OPTIONS => RequestTab::Params,
        HttpMethod::POST | HttpMethod::PUT | HttpMethod::PATCH | HttpMethod::DELETE => {
            RequestTab::Body
        },
    }
}

/// An empty draft: GET, a blank URL, no params, headers, auth or body.
pub open spec fn draft_is_empty(d: RequestDraftView) -> bool {
    &&& d.method == HttpMethod::GET
    &&& is_blank(d.url)
    &&& d.query.len() == 0
    &&& d.headers.len() == 0
    &&& d.auth is NoAuth
    &&& d.body_mode == BodyMode::NoBody
}

pub fn is_draft_empty(draft: &RequestDraft) -> (r: bool)
    ensures
        r == draft_is_empty(draft@),
{
    draft.method == HttpMethod::GET && blank(draft.url.as_str()) && draft.query.len() == 0
        && draft.headers.len() == 0 && matches!(draft.auth, crate::model::AuthConfig::NoAuth)
        && draft.body.mode == BodyMode::NoBody
}

/// A tab has unsaved changes when its draft differs from the one last
/// saved, or, never saved, when it is not empty.
pub open spec fn tab_dirty_spec(t: RequestTabState) -> bool {
    match t.saved_draft {
        Some(saved) => saved@ != t.draft@,
        None => !draft_is_empty(t.draft@),
    }
}

pub fn tab_is_dirty(tab: &RequestTabState) -> (r: bool)
    ensures
        r == tab_dirty_spec(*tab),
{
    match &tab.saved_draft {
        Some(saved_draft) => !saved_draft.same_as(&tab.draft),
        None => !is_draft_empty(&tab.draft),
    }
}

/// The snapshot a closed tab leaves on the stack.
pub open spec fn snapshot_of(t: RequestTabState) -> TabSnapshot {
    TabSnapshot { id: t.id, draft: t.draft, active_request_tab: t.active_request_tab }
}

/// The closed-tab stack after pushing `snap`: it goes in front, and the
/// oldest entries beyond the limit fall off the back.
pub open spec fn push_closed(stack: Seq<TabSnapshot>, snap: TabSnapshot) -> Seq<TabSnapshot> {
    let pushed = seq![snap] + stack;
    if pushed.len() > CLOSED_TABS_LIMIT {
        pushed.subrange(0, CLOSED_TABS_LIMIT as int)
    } else {
        pushed
    }
}

/// The active tab after the tab at `closed` is removed, leaving `remaining`
/// tabs: a tab before it stays, a tab after it shifts down, and the closed
/// tab itself is replaced by the one that took its place, or the last one.
pub open spec fn active_after_close(active: Option<usize>, closed: int, remaining: int) -> Option<
    usize,
> {
    match active {
        None => None,
        Some(a) => if a < closed {
            Some(a)
        } else if a == closed {
            if remaining == 0 {
                None
            } else if closed < remaining {
                Some(closed as usize)
            } else {
                Some((remaining - 1) as usize)
            }
        } else {
            Some((a - 1) as usize)
        },
    }
}

/// Closing the tab with id `tab_id`: it leaves the tab list, its snapshot
/// goes on the closed stack, the active tab follows `active_after_close`
/// and the session is marked dirty. Without such a tab nothing changes.
pub open spec fn closed_tab_spec(pre: Midway, post: Midway, tab_id: Seq<char>) -> bool {
    match tab_index(pre.tabs@, tab_id) {
        None => post == pre,
        Some(i) => {
            &&& post.tabs@ == pre.tabs@.remove(i)
            &&& post.closed_tabs@ == push_closed(pre.closed_tabs@, snapshot_of(pre.tabs@[i]))
            &&& post.active_tab == active_after_close(pre.active_tab, i, pre.tabs@.len() - 1)
            &&& post.session.dirty
            &&& post == Midway {
                tabs: post.tabs,
                closed_tabs: post.closed_tabs,
                active_tab: post.active_tab,
                session: SessionStoreState { dirty: true, ..pre.session },
                ..pre
            }
        },
    }
}

pub fn handle_tab_closed(state: &mut Midway, tab_id: &str)
    ensures
        closed_tab_spec(*old(state), *final(state), tab_id@),
{
    proof {
        crate::state::lemma_tab_index(state.tabs@, tab_id@);
    }
    let Some(closed_index) = find_tab(&state.tabs, tab_id) else {
        return ;
    };
    let ghost pre_tabs = state.tabs@;
    let closed_tab = state.tabs.remove(closed_index);
    let snapshot = TabSnapshot {
        id: closed_tab.id,
        draft: closed_tab.draft,
        active_request_tab: closed_tab.active_request_tab,
    };
    let ghost before = state.closed_tabs@;
    state.closed_tabs.push_front(snapshot);
    assert(state.closed_tabs@ =~= seq![snapshot] + before);
    if state.closed_tabs.len() > CLOSED_TABS_LIMIT {
        state.closed_tabs.truncate(CLOSED_TABS_LIMIT);
    }
    let remaining = state.tabs.len();
    state.active_tab = match state.active_tab {
        None => None,
        Some(active_index) => {
            if active_index < closed_index {
                Some(active_index)
            } else if active_index == closed_index {
                if remaining == 0 {
                    None
                } else if closed_index < remaining {
                    Some(closed_index)
                } else {
                    Some(remaining - 1)
                }
            } else {
                Some(active_index - 1)
            }
        },
    };
    state.session.dirty = true;
    assert(state.tabs@ =~= pre_tabs.remove(closed_index as int));
}

} // verus!

verus! {

/// A tab reopened from `snap`: its id, draft and configuration tab, and
/// nothing else carried over.
pub open spec fn reopened_from(t: RequestTabState, snap: TabSnapshot) -> bool {
    &&& t.id == snap.id
    &&& t.draft == snap.draft
    &&& t.active_request_tab == snap.active_request_tab
    &&& crate::state::is_fresh_tab(t)
}

/// Reopening the most recently closed tab: it comes back at the end of the
/// tab list and becomes active; with no closed tab nothing changes.
pub open spec fn reopen_spec(pre: Midway, post: Midway) -> bool {
    if pre.closed_tabs@.len() == 0 {
        post == pre
    } else {
            &&& post.tabs@.len() == pre.tabs@.len() + 1
            &&& post.tabs@.subrange(0, pre.tabs@.len() as int) == pre.tabs@
            &&& reopened_from(post.tabs@.last(), pre.closed_tabs@[0])
            &&& post.closed_tabs@ == pre.closed_tabs@.drop_first()
            &&& post.active_tab == Some(pre.tabs@.len() as usize)
            &&& post == Midway {
                tabs: post.tabs,
                closed_tabs: post.closed_tabs,
                active_tab: post.active_tab,
                session: SessionStoreState { dirty: true, ..pre.session },
                ..pre
            }
    }
}

/// Reopens the most recently closed tab at the end of the tab list and
/// activates it; with no closed tab, nothing changes.
pub fn handle_closed_tab_reopened(state: &mut Midway)
    ensures
        reopen_spec(*old(state), *final(state)),
{
    if state.closed_tabs.len() == 0 {
        return ;
    }
    let Some(snapshot) = state.closed_tabs.pop_front() else {
        return ;
    };
    let ghost pre_tabs = state.tabs@;
    state.tabs.push(RequestTabState::from_snapshot(snapshot));
    assert(state.tabs@.subrange(0, pre_tabs.len() as int) =~= pre_tabs);
    state.active_tab = Some(state.tabs.len() - 1);
    state.session.dirty = true;
}

/// Asking to close a tab: a tab with unsaved changes gets the prompt, any other closes.
pub open spec fn close_request_spec(pre: Midway, post: Midway, tab_id: String) -> bool {
        ({
            match tab_index(pre.tabs@, tab_id@) {
                Some(i) => if tab_dirty_spec(pre.tabs@[i]) {
                    post == Midway {
                        unsaved_changes_prompt: Some(
                            UnsavedChangesPromptState { tab_id: tab_id, saving: false, error: None },
                        ),
                        ..pre
                    }
                } else {
                    closed_tab_spec(pre, post, tab_id@)
                },
                None => post == pre,
            }
        })
}

/// Asks to close the tab with id `tab_id`: a tab with unsaved changes gets
/// the save/discard/cancel prompt instead; any other tab closes at once.
pub fn close_tab_or_prompt_unsaved_changes(state: &mut Midway, tab_id: String)
    ensures
        close_request_spec(*old(state), *final(state), tab_id),
{
    proof {
        crate::state::lemma_tab_index(state.tabs@, tab_id@);
    }
    let is_dirty = match find_tab(&state.tabs, tab_id.as_str()) {
        Some(i) => tab_is_dirty(&state.tabs[i]),
        None => false,
    };
    if is_dirty {
        state.unsaved_changes_prompt = Some(
            UnsavedChangesPromptState { tab_id, saving: false, error: None },
        );
        return ;
    }
    handle_tab_closed(state, tab_id.as_str());
}

/// "Discard": the prompt goes and its tab closes unsaved.
pub open spec fn discard_spec(pre: Midway, post: Midway) -> bool {
        (match pre.unsaved_changes_prompt {
            None => post == pre,
            Some(p) => closed_tab_spec(
                (Midway { unsaved_changes_prompt: None, ..pre }),
                post,
                p.tab_id@,
            ),
        })
}

/// "Discard" on the unsaved-changes prompt: the prompt goes and its tab
/// closes without saving.
pub fn handle_unsaved_changes_discard_requested(state: &mut Midway)
    ensures
        discard_spec(*old(state), *final(state)),
{
    let Some(prompt) = state.unsaved_changes_prompt.take() else {
        return ;
    };
    handle_tab_closed(state, prompt.tab_id.as_str());
}

/// "Cancel" on the unsaved-changes prompt: the prompt goes, nothing else
/// changes.
pub fn handle_unsaved_changes_cancel_requested(state: &mut Midway)
    ensures
        *final(state) == (Midway { unsaved_changes_prompt: None, ..*old(state) }),
{
    state.unsaved_changes_prompt = None;
}

/// The outcome of saving a tab from the unsaved-changes prompt.
#[derive(Debug)]
pub struct SavedRequestSaveOutcome {
    pub tab_id: String,
    pub saved_draft: RequestDraft,
}

/// The result of saving from the unsaved-changes prompt.
pub open spec fn unsaved_save_completed_spec(pre: Midway, post: Midway, result: Result<SavedRequestSaveOutcome, String>) -> bool {
        ({
            match result {
                Ok(outcome) => match tab_index(pre.tabs@, outcome.tab_id@) {
                    None => post == Midway { unsaved_changes_prompt: None, ..pre },
                    Some(i) => {
                        &&& post.tabs@ == pre.tabs@.remove(i)
                        &&& post.closed_tabs@ == push_closed(
                            pre.closed_tabs@,
                            TabSnapshot {
                                id: pre.tabs@[i].id,
                                draft: outcome.saved_draft,
                                active_request_tab: pre.tabs@[i].active_request_tab,
                            },
                        )
                        &&& post.active_tab == active_after_close(
                            pre.active_tab,
                            i,
                            pre.tabs@.len() - 1,
                        )
                        &&& post == Midway {
                            tabs: post.tabs,
                            closed_tabs: post.closed_tabs,
                            active_tab: post.active_tab,
                            unsaved_changes_prompt: None,
                            session: SessionStoreState { dirty: true, ..pre.session },
                            ..pre
                        }
                    },
                },
                Err(e) => match pre.unsaved_changes_prompt {
                    Some(p) => post == Midway {
                        unsaved_changes_prompt: Some(
                            UnsavedChangesPromptState { saving: false, error: Some(e), ..p },
                        ),
                        ..pre
                    },
                    None => post == pre,
                },
            }
        })
}

/// The result of saving from the unsaved-changes prompt. On success the
/// prompt goes and the tab closes with the saved draft on the closed stack;
/// on failure the prompt stays, no longer saving, with the error.
pub fn handle_unsaved_changes_save_completed(
    state: &mut Midway,
    result: Result<SavedRequestSaveOutcome, String>,
)
    ensures
        unsaved_save_completed_spec(*old(state), *final(state), result),
{
    match result {
        Ok(outcome) => {
            proof {
                crate::state::lemma_tab_index(state.tabs@, outcome.tab_id@);
            }
            let ghost pre = *state;
            let tab_id = outcome.tab_id;
            if let Some(i) = find_tab(&state.tabs, tab_id.as_str()) {
                let saved_copy = outcome.saved_draft.clone();
                state.tabs[i].draft = outcome.saved_draft;
                state.tabs[i].saved_draft = Some(saved_copy);
                proof {
                    crate::state::lemma_tab_index(state.tabs@, tab_id@);
                    assert forall|k: int| 0 <= k < state.tabs@.len() implies state.tabs@[k].id
                        == pre.tabs@[k].id by {}
                    lemma_same_ids_same_index(pre.tabs@, state.tabs@, tab_id@);
                    assert(state.tabs@.remove(i as int) =~= pre.tabs@.remove(i as int));
                }
            }
            state.unsaved_changes_prompt = None;
            handle_tab_closed(state, tab_id.as_str());
        },
        Err(error) => {
            if let Some(prompt) = state.unsaved_changes_prompt.as_mut() {
                prompt.saving = false;
                prompt.error = Some(error);
            }
        },
    }
}

proof fn lemma_same_ids_same_index(a: Seq<RequestTabState>, b: Seq<RequestTabState>, id: Seq<char>)
    requires
        a.len() == b.len(),
        forall|k: int| 0 <= k < a.len() ==> a[k].id == b[k].id,
    ensures
        tab_index(a, id) == tab_index(b, id),
    decreases a.len(),
{
    if a.len() > 0 {
        lemma_same_ids_same_index(a.drop_first(), b.drop_first(), id);
    }
}

} // verus!

verus! {

/// What evicting the body of an inactive tab's response does: a response
/// with a body loses it, is marked evicted and keeps its total size (taken
/// from its size when unset); everything else stays.
pub open spec fn evicted_tab(pre: RequestTabState, post: RequestTabState) -> bool {
    match pre.response {
        None => post == pre,
        Some(o) => if o.response.body_text@.len() == 0 {
            post == pre
        } else {
            post.response matches Some(p) && {
                &&& p.response.body_text@.len() == 0
                &&& p.response == ResponseEnvelope {
                    body_text: p.response.body_text,
                    body_evicted: true,
                    total_size_bytes: if o.response.total_size_bytes is None {
                        Some(o.response.size_bytes)
                    } else {
                        o.response.total_size_bytes
                    },
                    ..o.response
                }
                &&& p.assertions == o.assertions
                &&& post == RequestTabState { response: post.response, ..pre }
            }
        },
    }
}

/// Drops the response bodies of every tab but the one at `keep_index`,
/// keeping their status, timing, size, headers and assertion verdicts.
pub fn evict_inactive_response_bodies(tabs: &mut Vec<RequestTabState>, keep_index: usize)
    ensures
        final(tabs)@.len() == old(tabs)@.len(),
        forall|k: int|
            0 <= k < old(tabs)@.len() ==> if k == keep_index {
                #[trigger] final(tabs)@[k] == old(tabs)@[k]
            } else {
                evicted_tab(old(tabs)@[k], final(tabs)@[k])
            },
{
    let ghost pre = tabs@;
    let mut i: usize = 0;
    while i < tabs.len()
        invariant
            tabs@.len() == pre.len(),
            i <= pre.len(),
            forall|k: int| i <= k < pre.len() ==> tabs@[k] == pre[k],
            forall|k: int|
                0 <= k < i ==> if k == keep_index {
                    #[trigger] tabs@[k] == pre[k]
                } else {
                    evicted_tab(pre[k], tabs@[k])
                },
        decreases pre.len() - i,
    {
        if i != keep_index {
            let has_body = match &tabs[i].response {
                Some(outcome) => !outcome.response.body_text.as_str().is_empty(),
                None => false,
            };
            if has_body {
                let Some(mut outcome) = tabs[i].response.take() else {
                    return ;
                };
                if outcome.response.total_size_bytes.is_none() {
                    outcome.response.total_size_bytes = Some(outcome.response.size_bytes);
                }
                outcome.response.body_text = String::new();
                outcome.response.body_evicted = true;
                tabs[i].response = Some(outcome);
            }
        }
        i = i + 1;
    }
}

/// The result of a send for the tab with id `tab_id`.
pub open spec fn send_completed_spec(pre: Midway, post: Midway, tab_id: String, result: Result<ResponseOutcome, String>) -> bool {
        ({
            match tab_index(pre.tabs@, tab_id@) {
                None => post == pre,
                Some(i) => {
                    let t = pre.tabs@[i];
                    &&& post.tabs@.len() == pre.tabs@.len()
                    &&& post == Midway { tabs: post.tabs, ..pre }
                    &&& match result {
                        Ok(outcome) => {
                            &&& post.tabs@[i] == RequestTabState {
                                sending: false,
                                execution_id: None,
                                response: Some(outcome),
                                send_error: None,
                                ..t
                            }
                            &&& forall|k: int|
                                0 <= k < pre.tabs@.len() && k != i ==> evicted_tab(
                                    #[trigger] pre.tabs@[k],
                                    post.tabs@[k],
                                )
                        },
                        Err(e) => {
                            &&& post.tabs@[i] == RequestTabState {
                                sending: false,
                                execution_id: None,
                                send_error: Some(e),
                                ..t
                            }
                            &&& forall|k: int|
                                0 <= k < pre.tabs@.len() && k != i ==> #[trigger] post.tabs@[k]
                                    == pre.tabs@[k]
                        },
                    }
                },
            }
        })
}

/// The result of a send arrives for the tab with id `tab_id`, active or
/// not: it stops sending; a response is stored (and the other tabs'
/// bodies are evicted), an error is shown. Without such a tab nothing
/// changes.
pub fn handle_send_completed(
    state: &mut Midway,
    tab_id: String,
    result: Result<ResponseOutcome, String>,
)
    ensures
        send_completed_spec(*old(state), *final(state), tab_id, result),
{
    proof {
        crate::state::lemma_tab_index(state.tabs@, tab_id@);
    }
    let Some(position) = find_tab(&state.tabs, tab_id.as_str()) else {
        return ;
    };
    state.tabs[position].sending = false;
    state.tabs[position].execution_id = None;
    match result {
        Ok(outcome) => {
            state.tabs[position].response = Some(outcome);
            state.tabs[position].send_error = None;
            evict_inactive_response_bodies(&mut state.tabs, position);
        },
        Err(message) => {
            state.tabs[position].send_error = Some(message);
        },
    }
}

/// The result of a preview for the tab with id `tab_id`.
pub open spec fn preview_loaded_spec(pre: Midway, post: Midway, tab_id: String, result: Result<RequestPreview, String>) -> bool {
        ({
            match tab_index(pre.tabs@, tab_id@) {
                None => post == pre,
                Some(i) => {
                    &&& post.tabs@ =~= pre.tabs@.update(
                        i,
                        match result {
                            Ok(p) => RequestTabState {
                                preview: Some(p),
                                preview_error: None,
                                ..pre.tabs@[i]
                            },
                            Err(e) => RequestTabState {
                                preview: None,
                                preview_error: Some(e),
                                ..pre.tabs@[i]
                            },
                        },
                    )
                    &&& post == Midway { tabs: post.tabs, ..pre }
                },
            }
        })
}

/// The result of a preview arrives for the tab with id `tab_id`: a preview
/// is shown, or the error is. Without such a tab nothing changes.
pub fn handle_preview_loaded(
    state: &mut Midway,
    tab_id: String,
    result: Result<RequestPreview, String>,
)
    ensures
        preview_loaded_spec(*old(state), *final(state), tab_id, result),
{
    proof {
        crate::state::lemma_tab_index(state.tabs@, tab_id@);
    }
    let Some(position) = find_tab(&state.tabs, tab_id.as_str()) else {
        return ;
    };
    match result {
        Ok(preview) => {
            state.tabs[position].preview = Some(preview);
            state.tabs[position].preview_error = None;
        },
        Err(message) => {
            state.tabs[position].preview = None;
            state.tabs[position].preview_error = Some(message);
        },
    }
}

} // verus!
