//! The request composer: edits of the active tab, sending, the preview
//! drawer and pasting into the URL bar.

use vstd::prelude::*;
use crate::editing::{TabEdit, apply_tab_edit, tab_edit_spec};
use crate::effects::Effect;
use crate::model::RequestDraft;
use crate::records::{EnvironmentRecord, environment_index, find_environment};
use crate::state::{Midway, RequestTabState, is_fresh_tab};
use crate::tabs::{draft_is_empty, is_draft_empty};

verus! {

/// Whether `pre` has an active tab that is open.
pub open spec fn has_active_tab(pre: Midway) -> bool {
    pre.active_tab matches Some(a) && a < pre.tabs@.len()
}

/// The index of the active tab.
pub open spec fn active_index(pre: Midway) -> int {
    pre.active_tab.unwrap() as int
}

/// `post` is `pre` with only the tab at `a` changed.
pub open spec fn only_tab_changed(pre: Midway, post: Midway, a: int) -> bool {
    &&& post.tabs@.len() == pre.tabs@.len()
    &&& forall|k: int| 0 <= k < pre.tabs@.len() && k != a ==> #[trigger] post.tabs@[k] == pre.tabs@[k]
    &&& post == Midway { tabs: post.tabs, ..pre }
}

/// An edit goes to the active tab; with no active tab nothing changes.
pub open spec fn active_tab_edited(pre: Midway, post: Midway, edit: TabEdit) -> bool {
    if has_active_tab(pre) {
        let a = active_index(pre);
        only_tab_changed(pre, post, a) && tab_edit_spec(pre.tabs@[a], post.tabs@[a], edit)
    } else {
        post == pre
    }
}

pub fn edit_active_tab(state: &mut Midway, edit: TabEdit)
    ensures
        active_tab_edited(*old(state), *final(state), edit),
{
    let Some(a) = state.active_tab else {
        return ;
    };
    if a >= state.tabs.len() {
        return ;
    }
    apply_tab_edit(&mut state.tabs[a], edit);
}

/// `e` copies `src`: same id, name, variables and timestamps.
pub open spec fn environment_copy(e: EnvironmentRecord, src: EnvironmentRecord) -> bool {
    &&& e.id == src.id
    &&& e.name == src.name
    &&& e.variables@ == src.variables@
    &&& e.created_at == src.created_at
    &&& e.updated_at == src.updated_at
}

/// `env` is the copy of the environment a draft selects, if it exists.
pub open spec fn selected_environment(
    envs: Seq<EnvironmentRecord>,
    draft: RequestDraft,
    env: Option<EnvironmentRecord>,
) -> bool {
    match draft.environment_id {
        None => env is None,
        Some(id) => match environment_index(envs, id@) {
            None => env is None,
            Some(j) => env matches Some(e) && environment_copy(e, envs[j]),
        },
    }
}

fn environment_for(envs: &Vec<EnvironmentRecord>, draft: &RequestDraft) -> (r: Option<
    EnvironmentRecord,
>)
    ensures
        selected_environment(envs@, *draft, r),
{
    match &draft.environment_id {
        None => None,
        Some(id) => {
            proof {
                crate::records::lemma_environment_index(envs@, id@);
            }
            match find_environment(envs, id.as_str()) {
                Some(j) => Some(envs[j].clone()),
                None => None,
            }
        },
    }
}

/// Send on the active tab: it is marked sending under a fresh execution
/// id, its last error is cleared, and the send of its draft (with the
/// environment it selects) is asked for.
pub open spec fn send_pressed_spec(pre: Midway, post: Midway, eff: Effect) -> bool {
    if has_active_tab(pre) {
        let a = active_index(pre);
        let t = pre.tabs@[a];
        eff matches Effect::SendRequest { tab_id, draft, environment, execution_id } && {
            &&& tab_id == t.id
            &&& draft@ == t.draft@
            &&& selected_environment(pre.workspace.environments@, t.draft, environment)
            &&& execution_id@.len() == 36
            &&& only_tab_changed(pre, post, a)
            &&& post.tabs@[a] == RequestTabState {
                sending: true,
                execution_id: Some(execution_id),
                send_error: None,
                ..t
            }
        }
    } else {
        post == pre && eff is Nothing
    }
}

pub fn handle_send_pressed(state: &mut Midway) -> (eff: Effect)
    ensures
        send_pressed_spec(*old(state), *final(state), eff),
{
    let Some(a) = state.active_tab else {
        return Effect::Nothing;
    };
    if a >= state.tabs.len() {
        return Effect::Nothing;
    }
    let tab_id = state.tabs[a].id.clone();
    let draft = state.tabs[a].draft.clone();
    let execution_id = crate::external::new_identifier();
    let environment = environment_for(&state.workspace.environments, &state.tabs[a].draft);
    state.tabs[a].sending = true;
    state.tabs[a].execution_id = Some(execution_id.clone());
    state.tabs[a].send_error = None;
    Effect::SendRequest { tab_id, draft, environment, execution_id }
}

/// The settings button toggles the preview drawer of the active tab: an
/// open preview closes; otherwise its computation is asked for.
pub open spec fn settings_pressed_spec(pre: Midway, post: Midway, eff: Effect) -> bool {
    if has_active_tab(pre) {
        let a = active_index(pre);
        let t = pre.tabs@[a];
        &&& only_tab_changed(pre, post, a)
        &&& if t.preview is Some {
            &&& eff is Nothing
            &&& post.tabs@[a] == RequestTabState { preview: None, preview_error: None, ..t }
        } else {
            &&& post.tabs@[a] == RequestTabState { preview_error: None, ..t }
            &&& eff matches Effect::ComputePreview { tab_id, draft, environment } && tab_id
                == t.id && draft@ == t.draft@ && selected_environment(
                pre.workspace.environments@,
                t.draft,
                environment,
            )
        }
    } else {
        post == pre && eff is Nothing
    }
}

pub fn handle_settings_pressed(state: &mut Midway) -> (eff: Effect)
    ensures
        settings_pressed_spec(*old(state), *final(state), eff),
{
    let Some(a) = state.active_tab else {
        return Effect::Nothing;
    };
    if a >= state.tabs.len() {
        return Effect::Nothing;
    }
    if state.tabs[a].preview.is_some() {
        state.tabs[a].preview = None;
        state.tabs[a].preview_error = None;
        return Effect::Nothing;
    }
    let tab_id = state.tabs[a].id.clone();
    let draft = state.tabs[a].draft.clone();
    let environment = environment_for(&state.workspace.environments, &state.tabs[a].draft);
    state.tabs[a].preview_error = None;
    Effect::ComputePreview { tab_id, draft, environment }
}

/// What the cURL importer made of pasted text.
#[derive(Debug)]
pub enum CurlPaste {
    /// The text is not a cURL command.
    NotCurl,
    /// It looks like one but does not parse; the message says why.
    Failed(String),
    /// It parsed into this draft.
    Parsed(RequestDraft),
}

/// Pasting into the URL bar of the active tab: plain text becomes the URL;
/// a cURL command that fails to parse shows its error and changes nothing
/// else; a parsed one fills the active tab if it is empty, or opens in a
/// new active tab otherwise.
pub open spec fn url_pasted_spec(pre: Midway, post: Midway, text: String, parsed: CurlPaste) -> bool {
    if has_active_tab(pre) {
        let a = active_index(pre);
        let t = pre.tabs@[a];
        match parsed {
            CurlPaste::NotCurl => only_tab_changed(pre, post, a) && post.tabs@[a]
                == RequestTabState {
                draft: RequestDraft { url: text, ..t.draft },
                curl_paste_error: None,
                ..t
            },
            CurlPaste::Failed(m) => only_tab_changed(pre, post, a) && post.tabs@[a]
                == RequestTabState { curl_paste_error: Some(m), ..t },
            CurlPaste::Parsed(d) => if draft_is_empty(t.draft@) {
                only_tab_changed(pre, post, a) && post.tabs@[a] == RequestTabState {
                    draft: d,
                    curl_paste_error: None,
                    ..t
                }
            } else {
                &&& post.tabs@.len() == pre.tabs@.len() + 1
                &&& post.tabs@.subrange(0, pre.tabs@.len() as int) == pre.tabs@
                &&& post.tabs@.last().draft == d
                &&& is_fresh_tab(post.tabs@.last())
                &&& post.active_tab == Some(pre.tabs@.len() as usize)
                &&& post == Midway { tabs: post.tabs, active_tab: post.active_tab, ..pre }
            },
        }
    } else {
        post == pre
    }
}

pub fn handle_url_pasted(state: &mut Midway, pasted_text: String, parsed: CurlPaste)
    ensures
        url_pasted_spec(*old(state), *final(state), pasted_text, parsed),
{
    let Some(a) = state.active_tab else {
        return ;
    };
    if a >= state.tabs.len() {
        return ;
    }
    match parsed {
        CurlPaste::NotCurl => {
            state.tabs[a].draft.url = pasted_text;
            state.tabs[a].curl_paste_error = None;
        },
        CurlPaste::Failed(message) => {
            state.tabs[a].curl_paste_error = Some(message);
        },
        CurlPaste::Parsed(new_draft) => {
            if is_draft_empty(&state.tabs[a].draft) {
                state.tabs[a].draft = new_draft;
                state.tabs[a].curl_paste_error = None;
            } else {
                let ghost pre_tabs = state.tabs@;
                state.tabs.push(RequestTabState::from_draft(new_draft));
                assert(state.tabs@.subrange(0, pre_tabs.len() as int) =~= pre_tabs);
                state.active_tab = Some(state.tabs.len() - 1);
            }
        },
    }
}

} // verus!
