//! Navigation: the activity bar, the top bar, and which collection is
//! active.

use vstd::prelude::*;
use crate::effects::Effect;
use crate::records::{
    CollectionSummary, CollectionWithRequests, find_collection, has_collection,
    lemma_collection_index,
};
use crate::state::{
    CreateCollectionPromptState, MainContentFocus, Midway, SessionStoreState, TopBarMode,
    TreeViewState, WorkspacePanelSection, WorkspacePanelState, is_fresh_tree,
};
use crate::model::opt_view;
use crate::text::{is_blank, trimmed};

verus! {

/// The collection active at startup: the session's when it still exists,
/// else the first collection, else none.
pub open spec fn startup_collection(cs: Seq<CollectionWithRequests>, session_id: Option<Seq<char>>) -> Option<Seq<char>> {
    match session_id {
        Some(id) if has_collection(cs, id) => Some(id),
        _ => if cs.len() > 0 {
            Some(cs[0].collection.id@)
        } else {
            None
        },
    }
}

pub fn resolve_startup_collection(
    collections: &Vec<CollectionWithRequests>,
    session_id: Option<&str>,
) -> (r: Option<String>)
    ensures
        opt_view(r) == startup_collection(collections@, match session_id {
            Some(s) => Some(s@),
            None => None,
        }),
{
    if let Some(sid) = session_id {
        proof {
            lemma_collection_index(collections@, sid@);
        }
        if find_collection(collections, sid).is_some() {
            return Some(crate::text::owned(sid));
        }
    }
    if collections.len() > 0 {
        Some(collections[0].collection.id.clone())
    } else {
        None
    }
}

/// When the active collection no longer exists it is cleared, and the Test
/// mode (which needs one) falls back to Debug.
pub open spec fn enforced_spec(pre: Midway, post: Midway) -> bool {
    match pre.active_collection_id {
        Some(id) if !has_collection(pre.workspace.collections@, id@) => post == Midway {
            active_collection_id: None,
            top_bar_mode: TopBarMode::Debug,
            ..pre
        },
        _ => post == pre,
    }
}

pub fn enforce_top_bar_mode_after_collection_change(state: &mut Midway)
    ensures
        enforced_spec(*old(state), *final(state)),
{
    let still_exists = match &state.active_collection_id {
        Some(active_id) => {
            proof {
                lemma_collection_index(state.workspace.collections@, active_id@);
            }
            find_collection(&state.workspace.collections, active_id.as_str()).is_some()
        },
        None => true,
    };
    if !still_exists {
        state.active_collection_id = None;
        if state.top_bar_mode == TopBarMode::Test {
            state.top_bar_mode = TopBarMode::Debug;
        }
    }
}

#[derive(Debug)]
pub enum TopBarMessage {
    ModeSelected(TopBarMode),
    BreadcrumbRootClicked,
    BackToComposer,
}

/// The top bar: a mode tab shows the request area in that mode (Test only
/// with an active collection); the breadcrumb root goes back to the
/// request area in Debug; Back returns to the request area.
pub open spec fn top_bar_spec(pre: Midway, post: Midway, msg: TopBarMessage) -> bool {
    match msg {
        TopBarMessage::ModeSelected(mode) => if mode == TopBarMode::Test
            && pre.active_collection_id is None {
            post == pre
        } else {
            post == Midway {
                top_bar_mode: mode,
                main_content_focus: MainContentFocus::RequestTab,
                ..pre
            }
        },
        TopBarMessage::BreadcrumbRootClicked => post == Midway {
            top_bar_mode: TopBarMode::Debug,
            main_content_focus: MainContentFocus::RequestTab,
            ..pre
        },
        TopBarMessage::BackToComposer => post == Midway {
            main_content_focus: MainContentFocus::RequestTab,
            ..pre
        },
    }
}

pub fn update_top_bar(state: &mut Midway, message: TopBarMessage)
    ensures
        top_bar_spec(*old(state), *final(state), message),
{
    match message {
        TopBarMessage::ModeSelected(mode) => {
            if mode == TopBarMode::Test && state.active_collection_id.is_none() {
                return ;
            }
            state.top_bar_mode = mode;
            state.main_content_focus = MainContentFocus::RequestTab;
        },
        TopBarMessage::BreadcrumbRootClicked => {
            state.main_content_focus = MainContentFocus::RequestTab;
            state.top_bar_mode = TopBarMode::Debug;
        },
        TopBarMessage::BackToComposer => {
            state.main_content_focus = MainContentFocus::RequestTab;
        },
    }
}

#[derive(Debug)]
pub enum ActivityBarMessage {
    CollectionSelected(String),
    HomePressed,
    ActivityPressed,
    CreateCollectionPressed,
    CreateCollectionNameChanged(String),
    CreateCollectionConfirmed,
    CreateCollectionCancelled,
    CollectionCreated(Result<CollectionSummary, String>),
}

/// The other focus of the main pane.
pub open spec fn toggled_focus(f: MainContentFocus) -> MainContentFocus {
    match f {
        MainContentFocus::RequestTab => MainContentFocus::WorkspaceSection,
        MainContentFocus::WorkspaceSection => MainContentFocus::RequestTab,
    }
}

/// The activity bar. Home toggles between the request area and the panel
/// section; Activity opens History, or goes back to the request area when
/// History is already shown; selecting a collection makes it active with a
/// fresh tree and shows the request area; "+" opens the prompt that names
/// a new collection, whose confirmation needs a non-blank name and asks the
/// store to create it; the created collection is added and made active.
pub open spec fn activity_bar_spec(pre: Midway, post: Midway, msg: ActivityBarMessage, eff: Effect) -> bool {
    match msg {
        ActivityBarMessage::HomePressed => eff is Nothing && post == Midway {
            main_content_focus: toggled_focus(pre.main_content_focus),
            workspace_panel: WorkspacePanelState { navigation_error: None, ..pre.workspace_panel },
            ..pre
        },
        ActivityBarMessage::CollectionSelected(id) => eff is Nothing && is_fresh_tree(post.tree)
            && post == Midway {
            main_content_focus: MainContentFocus::RequestTab,
            active_collection_id: Some(id),
            tree: post.tree,
            ..pre
        },
        ActivityBarMessage::ActivityPressed => eff is Nothing && if pre.main_content_focus
            == MainContentFocus::WorkspaceSection && pre.workspace_panel.active_section
            == WorkspacePanelSection::History {
            post == Midway { main_content_focus: MainContentFocus::RequestTab, ..pre }
        } else {
            post == Midway {
                main_content_focus: MainContentFocus::WorkspaceSection,
                workspace_panel: WorkspacePanelState {
                    active_section: WorkspacePanelSection::History,
                    ..pre.workspace_panel
                },
                ..pre
            }
        },
        ActivityBarMessage::CreateCollectionPressed => {
            &&& eff is Nothing
            &&& post.create_collection_prompt matches Some(p) && p.name_input@.len() == 0
                && p.error is None
            &&& post == Midway { create_collection_prompt: post.create_collection_prompt, ..pre }
        },
        ActivityBarMessage::CreateCollectionNameChanged(name) => eff is Nothing
            && match pre.create_collection_prompt {
            Some(p) => post == Midway {
                create_collection_prompt: Some(
                    CreateCollectionPromptState { name_input: name, error: None },
                ),
                ..pre
            },
            None => post == pre,
        },
        ActivityBarMessage::CreateCollectionConfirmed => match pre.create_collection_prompt {
            None => eff is Nothing && post == pre,
            Some(p) => if is_blank(p.name_input@) {
                &&& eff is Nothing
                &&& post.create_collection_prompt matches Some(q) && q.error matches Some(e) && e@
                    == "La colección necesita un nombre."@ && q.name_input == p.name_input
                &&& post == Midway { create_collection_prompt: post.create_collection_prompt, ..pre }
            } else {
                &&& post == pre
                &&& eff matches Effect::CreateCollection { name } && name@ == trimmed(p.name_input@)
            },
        },
        ActivityBarMessage::CreateCollectionCancelled => eff is Nothing && post == Midway {
            create_collection_prompt: None,
            ..pre
        },
        ActivityBarMessage::CollectionCreated(result) => eff is Nothing && match result {
            Ok(summary) => {
                &&& post.workspace.collections@.len() == pre.workspace.collections@.len() + 1
                &&& post.workspace.collections@.subrange(0, pre.workspace.collections@.len() as int)
                    == pre.workspace.collections@
                &&& post.workspace.collections@.last().collection == summary
                &&& post.workspace.collections@.last().folders@.len() == 0
                &&& post.workspace.collections@.last().requests@.len() == 0
                &&& post.workspace.environments == pre.workspace.environments
                &&& post.active_collection_id == Some(summary.id)
                &&& is_fresh_tree(post.tree)
                &&& post == Midway {
                    workspace: post.workspace,
                    create_collection_prompt: None,
                    active_collection_id: post.active_collection_id,
                    tree: post.tree,
                    session: SessionStoreState { dirty: true, ..pre.session },
                    ..pre
                }
            },
            Err(e) => match pre.create_collection_prompt {
                Some(p) => post == Midway {
                    create_collection_prompt: Some(
                        CreateCollectionPromptState { error: Some(e), ..p },
                    ),
                    ..pre
                },
                None => post == pre,
            },
        },
    }
}

pub fn update_activity_bar(state: &mut Midway, message: ActivityBarMessage) -> (eff: Effect)
    ensures
        activity_bar_spec(*old(state), *final(state), message, eff),
{
    match message {
        ActivityBarMessage::HomePressed => {
            state.workspace_panel.navigation_error = None;
            state.main_content_focus = match state.main_content_focus {
                MainContentFocus::RequestTab => MainContentFocus::WorkspaceSection,
                MainContentFocus::WorkspaceSection => MainContentFocus::RequestTab,
            };
            Effect::Nothing
        },
        ActivityBarMessage::CollectionSelected(id) => {
            if state.main_content_focus == MainContentFocus::WorkspaceSection {
                state.main_content_focus = MainContentFocus::RequestTab;
            }
            state.active_collection_id = Some(id);
            state.tree = TreeViewState::default();
            Effect::Nothing
        },
        ActivityBarMessage::ActivityPressed => {
            match state.main_content_focus {
                MainContentFocus::RequestTab => {
                    state.main_content_focus = MainContentFocus::WorkspaceSection;
                    state.workspace_panel.active_section = WorkspacePanelSection::History;
                },
                MainContentFocus::WorkspaceSection => {
                    if state.workspace_panel.active_section == WorkspacePanelSection::History {
                        state.main_content_focus = MainContentFocus::RequestTab;
                    } else {
                        state.workspace_panel.active_section = WorkspacePanelSection::History;
                    }
                },
            }
            Effect::Nothing
        },
        ActivityBarMessage::CreateCollectionPressed => {
            state.create_collection_prompt = Some(
                CreateCollectionPromptState { name_input: String::new(), error: None },
            );
            Effect::Nothing
        },
        ActivityBarMessage::CreateCollectionNameChanged(name) => {
            if let Some(prompt) = state.create_collection_prompt.as_mut() {
                prompt.name_input = name;
                prompt.error = None;
            }
            Effect::Nothing
        },
        ActivityBarMessage::CreateCollectionConfirmed => {
            let trimmed_name = match &state.create_collection_prompt {
                None => return Effect::Nothing,
                Some(prompt) => crate::text::trim(prompt.name_input.as_str()),
            };
            if trimmed_name.as_str().is_empty() {
                if let Some(prompt) = state.create_collection_prompt.as_mut() {
                    prompt.error = Some(crate::text::owned("La colección necesita un nombre."));
                }
                return Effect::Nothing;
            }
            Effect::CreateCollection { name: trimmed_name }
        },
        ActivityBarMessage::CreateCollectionCancelled => {
            state.create_collection_prompt = None;
            Effect::Nothing
        },
        ActivityBarMessage::CollectionCreated(result) => {
            match result {
                Ok(summary) => {
                    state.create_collection_prompt = None;
                    let id = summary.id.clone();
                    let ghost pre = state.workspace.collections@;
                    state.workspace.collections.push(
                        CollectionWithRequests {
                            collection: summary,
                            folders: Vec::new(),
                            requests: Vec::new(),
                        },
                    );
                    assert(state.workspace.collections@.subrange(0, pre.len() as int) =~= pre);
                    state.active_collection_id = Some(id);
                    state.tree = TreeViewState::default();
                    state.session.dirty = true;
                },
                Err(message) => {
                    if let Some(prompt) = state.create_collection_prompt.as_mut() {
                        prompt.error = Some(message);
                    }
                },
            }
            Effect::Nothing
        },
    }
}

} // verus!
