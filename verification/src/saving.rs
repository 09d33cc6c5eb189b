//! Saving requests: the save dialog of the composer and the save path of
//! the unsaved-changes prompt.

use vstd::prelude::*;
use crate::composer::{active_index, has_active_tab};
use crate::effects::Effect;
use crate::model::{RequestDraft, blank_request_name, clone_opt, opt_view};
use crate::records::{
    CollectionWithRequests, WorkspaceSnapshot, collection_index, find_collection, find_request,
    has_collection, request_position,
};
use crate::rows_by_id::{find_folder, folder_has_id};
use crate::seqs::first_index;
use crate::state::{
    Midway, RequestTabState, SaveRequestPromptState, SessionStoreState, TreeViewState,
    UnsavedChangesPromptState, find_tab, is_fresh_tree, tab_index,
};
use crate::text::{is_blank, trimmed};

verus! {

/// The collection (and folder) that hold the saved request with the id
/// `request_id`, if any.
pub open spec fn location_spec(cs: Seq<CollectionWithRequests>, request_id: Option<Seq<char>>) -> Option<(String, Option<String>)> {
    match request_id {
        None => None,
        Some(id) => match request_position(cs, id) {
            Some((i, j)) => Some((cs[i].collection.id, cs[i].requests@[j].folder_id)),
            None => None,
        },
    }
}

pub fn saved_request_location(workspace: &WorkspaceSnapshot, request_id: Option<&str>) -> (r:
    Option<(String, Option<String>)>)
    ensures
        r == location_spec(workspace.collections@, match request_id {
            Some(s) => Some(s@),
            None => None,
        }),
{
    let id = match request_id {
        Some(id) => id,
        None => return None,
    };
    proof {
        crate::records::lemma_request_position(workspace.collections@, id@);
    }
    match find_request(&workspace.collections, id) {
        Some((i, j)) => Some(
            (
                workspace.collections[i].collection.id.clone(),
                clone_opt(&workspace.collections[i].requests[j].folder_id),
            ),
        ),
        None => None,
    }
}

/// The collection the save dialog proposes: the one already holding the
/// request, else the active collection if it still exists, else the
/// first collection.
pub open spec fn proposed_collection(pre: Midway, t: RequestTabState) -> Option<String> {
    match location_spec(pre.workspace.collections@, opt_view(t.draft.id)) {
        Some((c, _)) => Some(c),
        None => match pre.active_collection_id {
            Some(id) if has_collection(pre.workspace.collections@, id@) => Some(id),
            _ => if pre.workspace.collections@.len() > 0 {
                Some(pre.workspace.collections@[0].collection.id)
            } else {
                None
            },
        },
    }
}

/// Opening the save dialog for the active tab: its name, the proposed
/// collection and the folder the request is already in.
pub open spec fn save_prompt_opened(pre: Midway, post: Midway) -> bool {
    if has_active_tab(pre) {
        let t = pre.tabs@[active_index(pre)];
        post == Midway {
            save_request_prompt: Some(
                SaveRequestPromptState {
                    tab_id: t.id,
                    name_input: t.draft.name,
                    collection_id: proposed_collection(pre, t),
                    folder_id: match location_spec(pre.workspace.collections@, opt_view(t.draft.id)) {
                        Some((_, f)) => f,
                        None => None,
                    },
                    saving: false,
                    error: None,
                },
            ),
            ..pre
        }
    } else {
        post == pre
    }
}

pub fn open_save_request_prompt(state: &mut Midway)
    ensures
        save_prompt_opened(*old(state), *final(state)),
{
    let Some(a) = state.active_tab else {
        return ;
    };
    if a >= state.tabs.len() {
        return ;
    }
    let request_id = match &state.tabs[a].draft.id {
        Some(id) => Some(id.as_str()),
        None => None,
    };
    let existing_location = saved_request_location(&state.workspace, request_id);
    let (collection_id, folder_id) = match existing_location {
        Some((collection_id, folder_id)) => (Some(collection_id), folder_id),
        None => {
            let from_active = match &state.active_collection_id {
                Some(active_id) => {
                    proof {
                        crate::records::lemma_collection_index(
                            state.workspace.collections@,
                            active_id@,
                        );
                    }
                    if find_collection(&state.workspace.collections, active_id.as_str()).is_some() {
                        Some(active_id.clone())
                    } else {
                        None
                    }
                },
                None => None,
            };
            let collection_id = match from_active {
                Some(id) => Some(id),
                None => if state.workspace.collections.len() > 0 {
                    Some(state.workspace.collections[0].collection.id.clone())
                } else {
                    None
                },
            };
            (collection_id, None)
        },
    };
    state.save_request_prompt = Some(
        SaveRequestPromptState {
            tab_id: state.tabs[a].id.clone(),
            name_input: state.tabs[a].draft.name.clone(),
            collection_id,
            folder_id,
            saving: false,
            error: None,
        },
    );
}

/// Editing the name in the save dialog clears its error.
pub open spec fn save_name_changed_spec(pre: Midway, post: Midway, name: String) -> bool {
        ({
            match pre.save_request_prompt {
                Some(p) => post == Midway {
                    save_request_prompt: Some(
                        SaveRequestPromptState { name_input: name, error: None, ..p },
                    ),
                    ..pre
                },
                None => post == pre,
            }
        })
}

/// Editing the name in the save dialog clears its error.
pub fn handle_save_name_changed(state: &mut Midway, name: String)
    ensures
        save_name_changed_spec(*old(state), *final(state), name),
{
    if let Some(prompt) = state.save_request_prompt.as_mut() {
        prompt.name_input = name;
        prompt.error = None;
    }
}

/// Picking an existing collection resets the folder to the root; an unknown one is ignored.
pub open spec fn save_collection_changed_spec(pre: Midway, post: Midway, collection_id: String) -> bool {
        ({
            match pre.save_request_prompt {
                Some(p) if has_collection(pre.workspace.collections@, collection_id@) =>
                    post == Midway {
                    save_request_prompt: Some(
                        SaveRequestPromptState {
                            collection_id: Some(collection_id),
                            folder_id: None,
                            error: None,
                            ..p
                        },
                    ),
                    ..pre
                },
                _ => post == pre,
            }
        })
}

/// Picking an existing collection in the save dialog resets its folder to
/// the root; an unknown collection is ignored.
pub fn handle_save_collection_changed(state: &mut Midway, collection_id: String)
    ensures
        save_collection_changed_spec(*old(state), *final(state), collection_id),
{
    proof {
        crate::records::lemma_collection_index(state.workspace.collections@, collection_id@);
    }
    if find_collection(&state.workspace.collections, collection_id.as_str()).is_some() {
        if let Some(prompt) = state.save_request_prompt.as_mut() {
            prompt.collection_id = Some(collection_id);
            prompt.folder_id = None;
            prompt.error = None;
        }
    }
}

/// Some collection with the id `collection_id` has a folder with the id
/// `folder_id`.
pub open spec fn collection_has_folder(
    cs: Seq<CollectionWithRequests>,
    collection_id: Option<Seq<char>>,
    folder_id: Seq<char>,
) -> bool {
    exists|i: int, j: int|
        0 <= i < cs.len() && 0 <= j < cs[i].folders@.len() && collection_id == Some(
            cs[i].collection.id@,
        ) && (#[trigger] cs[i].folders@[j]).id@ == folder_id
}

fn folder_in_collection(
    cs: &Vec<CollectionWithRequests>,
    collection_id: &Option<String>,
    folder_id: &str,
) -> (r: bool)
    ensures
        r == collection_has_folder(cs@, opt_view(*collection_id), folder_id@),
{
    let mut i: usize = 0;
    while i < cs.len()
        invariant
            i <= cs@.len(),
            forall|x: int, y: int|
                0 <= x < i && 0 <= y < cs@[x].folders@.len() ==> !(opt_view(*collection_id)
                    == Some(cs@[x].collection.id@) && (#[trigger] cs@[x].folders@[y]).id@
                    == folder_id@),
        decreases cs@.len() - i,
    {
        if crate::model::opt_is(collection_id, &cs[i].collection.id) {
            proof {
                crate::seqs::lemma_first_index(cs@[i as int].folders@, folder_has_id(folder_id@));
            }
            if let Some(j) = find_folder(&cs[i].folders, folder_id) {
                return true;
            }
        }
        i = i + 1;
    }
    false
}

/// Picking a folder of the chosen collection, or the root.
pub open spec fn save_folder_changed_spec(pre: Midway, post: Midway, folder_id: Option<String>) -> bool {
        ({
            match pre.save_request_prompt {
                Some(p) if (match folder_id {
                    None => true,
                    Some(f) => collection_has_folder(
                        pre.workspace.collections@,
                        opt_view(p.collection_id),
                        f@,
                    ),
                }) => post == Midway {
                    save_request_prompt: Some(
                        SaveRequestPromptState { folder_id: folder_id, error: None, ..p },
                    ),
                    ..pre
                },
                _ => post == pre,
            }
        })
}

/// Picking a folder (or the root, `None`) in the save dialog; a folder
/// that is not in the chosen collection is ignored.
pub fn handle_save_folder_changed(state: &mut Midway, folder_id: Option<String>)
    ensures
        save_folder_changed_spec(*old(state), *final(state), folder_id),
{
    let is_valid = match &state.save_request_prompt {
        Some(prompt) => match &folder_id {
            None => true,
            Some(f) => folder_in_collection(
                &state.workspace.collections,
                &prompt.collection_id,
                f.as_str(),
            ),
        },
        None => false,
    };
    if is_valid {
        if let Some(prompt) = state.save_request_prompt.as_mut() {
            prompt.folder_id = folder_id;
            prompt.error = None;
        }
    }
}

/// Closing the save dialog unless it is saving.
pub open spec fn save_cancelled_spec(pre: Midway, post: Midway) -> bool {
        ({
            match pre.save_request_prompt {
                Some(p) if !p.saving => post == Midway {
                    save_request_prompt: None,
                    ..pre
                },
                _ => post == pre,
            }
        })
}

/// Closing the save dialog, unless it is saving.
pub fn handle_save_cancelled(state: &mut Midway)
    ensures
        save_cancelled_spec(*old(state), *final(state)),
{
    let closable = match &state.save_request_prompt {
        Some(prompt) => !prompt.saving,
        None => false,
    };
    if closable {
        state.save_request_prompt = None;
    }
}

} // verus!

verus! {

/// `post` is `pre` with the save dialog `p` showing the error `msg`.
pub open spec fn save_prompt_error(pre: Midway, post: Midway, p: SaveRequestPromptState, msg: Seq<char>) -> bool {
    post.save_request_prompt matches Some(q) && q.error matches Some(e) && e@ == msg && post
        == Midway {
        save_request_prompt: Some(SaveRequestPromptState { error: q.error, ..p }),
        ..pre
    }
}

/// Confirming the save dialog. It needs a non-blank name, a collection
/// that exists and, if a folder is chosen, a folder of that collection;
/// each failure shows its message and keeps the dialog. When its tab is
/// gone the dialog closes. Otherwise the dialog is marked saving and the
/// save of the tab's draft, renamed to the trimmed name, is asked for.
pub open spec fn save_confirmed_spec(pre: Midway, post: Midway, eff: Effect) -> bool {
    match pre.save_request_prompt {
        None => post == pre && eff is Nothing,
        Some(p) => if p.saving {
            post == pre && eff is Nothing
        } else if is_blank(p.name_input@) {
            eff is Nothing && save_prompt_error(pre, post, p, "El request necesita un nombre."@)
        } else if p.collection_id is None {
            eff is Nothing && save_prompt_error(
                pre,
                post,
                p,
                "Seleccioná una colección de destino."@,
            )
        } else if !has_collection(pre.workspace.collections@, p.collection_id.unwrap()@) {
            eff is Nothing && save_prompt_error(
                pre,
                post,
                p,
                "La colección seleccionada ya no existe."@,
            )
        } else if p.folder_id is Some && first_index(
            pre.workspace.collections@[collection_index(
                pre.workspace.collections@,
                p.collection_id.unwrap()@,
            ).unwrap()].folders@,
            folder_has_id(p.folder_id.unwrap()@),
        ) is None {
            eff is Nothing && save_prompt_error(
                pre,
                post,
                p,
                "La carpeta seleccionada ya no existe."@,
            )
        } else {
            match tab_index(pre.tabs@, p.tab_id@) {
                None => eff is Nothing && post == Midway { save_request_prompt: None, ..pre },
                Some(i) => {
                    &&& post == Midway {
                        save_request_prompt: Some(
                            SaveRequestPromptState { saving: true, error: None, ..p },
                        ),
                        ..pre
                    }
                    &&& eff matches Effect::SaveRequest { tab_id, draft, collection_id, folder_id }
                        && {
                        &&& tab_id == p.tab_id
                        &&& draft.name@ == trimmed(p.name_input@)
                        &&& draft@ == RequestDraft { name: draft.name, ..pre.tabs@[i].draft }@
                        &&& Some(collection_id) == p.collection_id
                        &&& folder_id == p.folder_id
                    }
                },
            }
        },
    }
}

fn set_save_prompt_error(state: &mut Midway, message: &str)
    requires
        old(state).save_request_prompt is Some,
    ensures
        save_prompt_error(*old(state), *final(state), old(state).save_request_prompt.unwrap(), message@),
{
    if let Some(prompt) = state.save_request_prompt.as_mut() {
        prompt.error = Some(crate::text::owned(message));
    }
}

pub fn handle_save_request_confirmed(state: &mut Midway) -> (eff: Effect)
    ensures
        save_confirmed_spec(*old(state), *final(state), eff),
{
    let (saving, name_input) = match &state.save_request_prompt {
        None => return Effect::Nothing,
        Some(prompt) => (prompt.saving, &prompt.name_input),
    };
    if saving {
        return Effect::Nothing;
    }
    let name = crate::text::trim(name_input.as_str());
    if name.as_str().is_empty() {
        set_save_prompt_error(state, "El request necesita un nombre.");
        return Effect::Nothing;
    }
    let (tab_id, collection_id, folder_id) = match &state.save_request_prompt {
        None => return Effect::Nothing,
        Some(prompt) => (
            prompt.tab_id.clone(),
            clone_opt(&prompt.collection_id),
            clone_opt(&prompt.folder_id),
        ),
    };
    let Some(collection_id) = collection_id else {
        set_save_prompt_error(state, "Seleccioná una colección de destino.");
        return Effect::Nothing;
    };
    proof {
        crate::records::lemma_collection_index(state.workspace.collections@, collection_id@);
    }
    let Some(c) = find_collection(&state.workspace.collections, collection_id.as_str()) else {
        set_save_prompt_error(state, "La colección seleccionada ya no existe.");
        return Effect::Nothing;
    };
    if let Some(f) = &folder_id {
        if find_folder(&state.workspace.collections[c].folders, f.as_str()).is_none() {
            set_save_prompt_error(state, "La carpeta seleccionada ya no existe.");
            return Effect::Nothing;
        }
    }
    proof {
        crate::state::lemma_tab_index(state.tabs@, tab_id@);
    }
    let Some(i) = find_tab(&state.tabs, tab_id.as_str()) else {
        state.save_request_prompt = None;
        return Effect::Nothing;
    };
    let mut draft = state.tabs[i].draft.clone();
    draft.name = name;
    if let Some(prompt) = state.save_request_prompt.as_mut() {
        prompt.saving = true;
        prompt.error = None;
    }
    Effect::SaveRequest { tab_id, draft, collection_id, folder_id }
}

/// The outcome of saving from the save dialog.
#[derive(Debug)]
pub struct RequestSaveOutcome {
    pub tab_id: String,
    pub saved_draft: RequestDraft,
    pub workspace: WorkspaceSnapshot,
    pub collection_id: String,
}

/// The result of saving from the save dialog. On success the tab takes the
/// saved draft (and remembers it as saved), the workspace is replaced, the
/// collection becomes active (resetting the tree when it changes), the
/// dialog closes and the session is dirty. On failure the dialog stays,
/// no longer saving, with the error.
pub open spec fn save_completed_spec(pre: Midway, post: Midway, result: Result<RequestSaveOutcome, String>) -> bool {
    match result {
        Ok(o) => {
            &&& post.tabs@.len() == pre.tabs@.len()
            &&& match tab_index(pre.tabs@, o.tab_id@) {
                Some(i) => {
                    &&& post.tabs@[i].draft@ == o.saved_draft@
                    &&& post.tabs@[i] == RequestTabState {
                        draft: post.tabs@[i].draft,
                        saved_draft: Some(o.saved_draft),
                        ..pre.tabs@[i]
                    }
                    &&& forall|k: int|
                        0 <= k < pre.tabs@.len() && k != i ==> #[trigger] post.tabs@[k]
                            == pre.tabs@[k]
                },
                None => post.tabs@ == pre.tabs@,
            }
            &&& if opt_view(pre.active_collection_id) == Some(o.collection_id@) {
                post.tree == pre.tree
            } else {
                is_fresh_tree(post.tree)
            }
            &&& post == Midway {
                tabs: post.tabs,
                workspace: o.workspace,
                active_collection_id: Some(o.collection_id),
                tree: post.tree,
                save_request_prompt: None,
                session: SessionStoreState { dirty: true, ..pre.session },
                ..pre
            }
        },
        Err(e) => match pre.save_request_prompt {
            Some(p) => post == Midway {
                save_request_prompt: Some(
                    SaveRequestPromptState { saving: false, error: Some(e), ..p },
                ),
                ..pre
            },
            None => post == pre,
        },
    }
}

pub fn handle_save_request_completed(state: &mut Midway, result: Result<RequestSaveOutcome, String>)
    ensures
        save_completed_spec(*old(state), *final(state), result),
{
    match result {
        Ok(outcome) => {
            proof {
                crate::state::lemma_tab_index(state.tabs@, outcome.tab_id@);
            }
            if let Some(i) = find_tab(&state.tabs, outcome.tab_id.as_str()) {
                let copy = outcome.saved_draft.clone();
                state.tabs[i].draft = copy;
                state.tabs[i].saved_draft = Some(outcome.saved_draft);
            }
            let unchanged = crate::model::opt_is(&state.active_collection_id, &outcome.collection_id);
            state.workspace = outcome.workspace;
            state.active_collection_id = Some(outcome.collection_id);
            if !unchanged {
                state.tree = TreeViewState::default();
            }
            state.save_request_prompt = None;
            state.session.dirty = true;
        },
        Err(error) => {
            if let Some(prompt) = state.save_request_prompt.as_mut() {
                prompt.saving = false;
                prompt.error = Some(error);
            }
        },
    }
}

/// The collection that holds the saved request with the id `id`, if any.
pub open spec fn holding_collection(cs: Seq<CollectionWithRequests>, id: Option<Seq<char>>) -> Option<String> {
    match location_spec(cs, id) {
        Some((c, _)) => Some(c),
        None => None,
    }
}

/// "Save" on the unsaved-changes prompt: while its tab is open, the prompt
/// is marked saving and the persisting of the tab's draft is asked for,
/// into the collection that already holds it if the tab was saved before.
/// With no prompt, or with its tab gone, nothing happens.
pub open spec fn unsaved_save_requested_spec(pre: Midway, post: Midway, eff: Effect) -> bool {
    match pre.unsaved_changes_prompt {
        None => post == pre && eff is Nothing,
        Some(p) => match tab_index(pre.tabs@, p.tab_id@) {
            None => post == pre && eff is Nothing,
            Some(i) => {
                &&& post == Midway {
                    unsaved_changes_prompt: Some(
                        UnsavedChangesPromptState { saving: true, error: None, ..p },
                    ),
                    ..pre
                }
                &&& eff matches Effect::PersistTabDraft {
                    tab_id,
                    draft,
                    existing_collection_id,
                } && {
                    &&& tab_id == p.tab_id
                    &&& draft@ == pre.tabs@[i].draft@
                    &&& existing_collection_id == if pre.tabs@[i].saved_draft is Some {
                        holding_collection(
                            pre.workspace.collections@,
                            opt_view(pre.tabs@[i].draft.id),
                        )
                    } else {
                        None
                    }
                }
            },
        },
    }
}

pub fn handle_unsaved_changes_save_requested(state: &mut Midway) -> (eff: Effect)
    ensures
        unsaved_save_requested_spec(*old(state), *final(state), eff),
{
    let tab_id = match &state.unsaved_changes_prompt {
        None => return Effect::Nothing,
        Some(prompt) => prompt.tab_id.clone(),
    };
    proof {
        crate::state::lemma_tab_index(state.tabs@, tab_id@);
    }
    let Some(i) = find_tab(&state.tabs, tab_id.as_str()) else {
        return Effect::Nothing;
    };
    if let Some(prompt) = state.unsaved_changes_prompt.as_mut() {
        prompt.saving = true;
        prompt.error = None;
    }
    let draft = state.tabs[i].draft.clone();
    let existing_collection_id = if state.tabs[i].saved_draft.is_some() {
        let request_id = match &state.tabs[i].draft.id {
            Some(id) => Some(id.as_str()),
            None => None,
        };
        match saved_request_location(&state.workspace, request_id) {
            Some((collection_id, _)) => Some(collection_id),
            None => None,
        }
    } else {
        None
    };
    Effect::PersistTabDraft { tab_id, draft, existing_collection_id }
}

/// The name of the collection that receives tabs saved from the
/// unsaved-changes prompt when they belong to none.
pub open spec fn default_collection_name() -> Seq<char> {
    "Sin categoría"@
}

/// The name of that collection, for the store to create it when it has
/// none.
pub fn unsaved_default_collection_name() -> (r: String)
    ensures
        r@ == default_collection_name(),
{
    crate::text::owned("Sin categoría")
}

/// The collection named "Sin categoría" that receives tabs saved from the
/// unsaved-changes prompt: the first one with that name, if any (when
/// there is none, the store is asked to create it).
pub fn default_collection_for_unsaved(workspace: &WorkspaceSnapshot) -> (r: Option<String>)
    ensures
        match r {
            Some(id) => exists|i: int|
                0 <= i < workspace.collections@.len()
                    && workspace.collections@[i].collection.name@ == default_collection_name()
                    && workspace.collections@[i].collection.id == id && forall|k: int|
                    0 <= k < i ==> workspace.collections@[k].collection.name@
                        != default_collection_name(),
            None => forall|k: int|
                0 <= k < workspace.collections@.len()
                    ==> workspace.collections@[k].collection.name@ != default_collection_name(),
        },
{
    let name = "Sin categoría";
    let mut i: usize = 0;
    while i < workspace.collections.len()
        invariant
            i <= workspace.collections@.len(),
            name@ == default_collection_name(),
            forall|k: int|
                0 <= k < i ==> workspace.collections@[k].collection.name@
                    != default_collection_name(),
        decreases workspace.collections@.len() - i,
    {
        if crate::text::same_text(workspace.collections[i].collection.name.as_str(), name) {
            return Some(workspace.collections[i].collection.id.clone());
        }
        i = i + 1;
    }
    None
}

/// A draft saved from the unsaved-changes prompt with a blank name is
/// named "Nueva petición"; any other name is kept.
pub fn name_draft_for_unsaved_save(draft: &mut RequestDraft)
    ensures
        if is_blank(old(draft).name@) {
            final(draft).name@ == blank_request_name() && *final(draft) == RequestDraft {
                name: final(draft).name,
                ..*old(draft)
            }
        } else {
            *final(draft) == *old(draft)
        },
{
    if crate::text::blank(draft.name.as_str()) {
        proof {
            reveal_strlit("Nueva petición");
        }
        let name = crate::text::owned("Nueva petición");
        assert(name@ =~= blank_request_name());
        draft.name = name;
    }
}

} // verus!
