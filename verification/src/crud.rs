//! The create/rename/delete dialog of the request tree.

use vstd::prelude::*;
use crate::effects::Effect;
use crate::model::opt_view;
use crate::records::{
    WorkspaceSnapshot, collection_index, find_collection, find_folder_anywhere, find_request,
    folder_position, lemma_collection_index, lemma_folder_position, lemma_request_position,
    request_position,
};
use crate::reconcile::{reconcile_spec, reconcile_workspace_after_crud};
use crate::rows_by_id::{find_folder, folder_has_id};
use crate::seqs::first_index;
use crate::state::{
    Midway, TreeViewState, WorkspaceCrudDialogState, WorkspaceCrudKind, run_in_progress,
};
use crate::text::{is_blank, trimmed};

verus! {

#[derive(Debug)]
pub enum WorkspaceCrudMessage {
    CreateFolderRequested { parent_folder_id: Option<String> },
    RenameCollectionRequested(String),
    DeleteCollectionRequested(String),
    RenameFolderRequested(String),
    DeleteFolderRequested(String),
    DeleteRequestRequested(String),
    NameChanged(String),
    Confirmed,
    Cancelled,
    Completed(Result<WorkspaceSnapshot, String>),
}

/// `post` is `pre` with the tree showing the error `msg`.
pub open spec fn tree_error(pre: Midway, post: Midway, msg: Seq<char>) -> bool {
    post.tree.error matches Some(e) && e@ == msg && post == Midway {
        tree: TreeViewState { error: post.tree.error, ..pre.tree },
        ..pre
    }
}

/// `post` is `pre` with the dialog `d` open and the tree error cleared.
pub open spec fn dialog_opened(pre: Midway, post: Midway, d: WorkspaceCrudDialogState) -> bool {
    post == Midway {
        workspace_crud_dialog: Some(d),
        tree: TreeViewState { error: None, ..pre.tree },
        ..pre
    }
}

/// A dialog over an entity, with its name as the proposed input.
pub open spec fn entity_dialog(post: Midway, kind: WorkspaceCrudKind, name: String) -> bool {
    post.workspace_crud_dialog matches Some(d) && d.kind == kind && d.entity_name == name
        && d.name_input == name && !d.busy && d.error is None
}

/// The error shown when deleting during a collection run.
pub open spec fn busy_run_message() -> Seq<char> {
    "Cancelá o esperá a que termine la ejecución antes de borrar."@
}

/// The kinds of dialog that need a name.
pub open spec fn needs_name(kind: WorkspaceCrudKind) -> bool {
    kind is CreateFolder || kind is RenameCollection || kind is RenameFolder
}

/// What the tree dialog does with each message. A request names its entity
/// (which must exist; deleting also needs no collection run in progress)
/// and opens the dialog on it; confirming checks the name and asks the
/// store to apply the operation; its completion reconciles the state with
/// the reloaded workspace, or shows the error.
pub open spec fn crud_spec(pre: Midway, post: Midway, msg: WorkspaceCrudMessage, eff: Effect) -> bool {
    let cs = pre.workspace.collections@;
    match msg {
        WorkspaceCrudMessage::CreateFolderRequested { parent_folder_id } => eff is Nothing
            && match pre.active_collection_id {
            None => tree_error(
                pre,
                post,
                "Seleccioná una colección antes de crear una carpeta."@,
            ),
            Some(cid) => {
                let parent_name: Option<String> = match parent_folder_id {
                    None => None,
                    Some(f) => match collection_index(cs, cid@) {
                        None => None,
                        Some(c) => match first_index(cs[c].folders@, folder_has_id(f@)) {
                            Some(j) => Some(cs[c].folders@[j].name),
                            None => None,
                        },
                    },
                };
                if parent_folder_id is Some && parent_name is None {
                    tree_error(pre, post, "No se pudo encontrar la carpeta padre."@)
                } else {
                    post.workspace_crud_dialog matches Some(d) && d.kind
                        == WorkspaceCrudKind::CreateFolder {
                        collection_id: cid,
                        parent_folder_id: parent_folder_id,
                    } && d.name_input@.len() == 0 && !d.busy && d.error is None && (match parent_name {
                        Some(n) => d.entity_name == n,
                        None => d.entity_name@ == "raíz de la colección"@,
                    }) && dialog_opened(pre, post, d)
                }
            },
        },
        WorkspaceCrudMessage::RenameCollectionRequested(id) => eff is Nothing
            && match collection_index(cs, id@) {
            None => tree_error(pre, post, "No se pudo encontrar la colección."@),
            Some(c) => post.workspace_crud_dialog matches Some(d) && entity_dialog(
                post,
                WorkspaceCrudKind::RenameCollection { collection_id: id },
                cs[c].collection.name,
            ) && dialog_opened(pre, post, d),
        },
        WorkspaceCrudMessage::DeleteCollectionRequested(id) => eff is Nothing
            && match collection_index(cs, id@) {
            None => tree_error(pre, post, "No se pudo encontrar la colección."@),
            Some(c) => if run_in_progress(pre) {
                tree_error(pre, post, busy_run_message())
            } else {
                post.workspace_crud_dialog matches Some(d) && entity_dialog(
                    post,
                    WorkspaceCrudKind::DeleteCollection { collection_id: id },
                    cs[c].collection.name,
                ) && dialog_opened(pre, post, d)
            },
        },
        WorkspaceCrudMessage::RenameFolderRequested(id) => eff is Nothing
            && match folder_position(cs, id@) {
            None => tree_error(pre, post, "No se pudo encontrar la carpeta."@),
            Some((c, j)) => post.workspace_crud_dialog matches Some(d) && entity_dialog(
                post,
                WorkspaceCrudKind::RenameFolder { folder_id: id },
                cs[c].folders@[j].name,
            ) && dialog_opened(pre, post, d),
        },
        WorkspaceCrudMessage::DeleteFolderRequested(id) => eff is Nothing
            && match folder_position(cs, id@) {
            None => tree_error(pre, post, "No se pudo encontrar la carpeta."@),
            Some((c, j)) => if run_in_progress(pre) {
                tree_error(pre, post, busy_run_message())
            } else {
                post.workspace_crud_dialog matches Some(d) && entity_dialog(
                    post,
                    WorkspaceCrudKind::DeleteFolder { folder_id: id },
                    cs[c].folders@[j].name,
                ) && dialog_opened(pre, post, d)
            },
        },
        WorkspaceCrudMessage::DeleteRequestRequested(id) => eff is Nothing && if run_in_progress(
            pre,
        ) {
            tree_error(pre, post, busy_run_message())
        } else {
            match request_position(cs, id@) {
                None => tree_error(pre, post, "No se pudo encontrar el request."@),
                Some((c, j)) => post.workspace_crud_dialog matches Some(d) && entity_dialog(
                    post,
                    WorkspaceCrudKind::DeleteRequest { request_id: id },
                    cs[c].requests@[j].name,
                ) && dialog_opened(pre, post, d),
            }
        },
        WorkspaceCrudMessage::NameChanged(name) => eff is Nothing && match pre.workspace_crud_dialog {
            Some(d) if !d.busy => post == Midway {
                workspace_crud_dialog: Some(
                    WorkspaceCrudDialogState { name_input: name, error: None, ..d },
                ),
                ..pre
            },
            _ => post == pre,
        },
        WorkspaceCrudMessage::Confirmed => match pre.workspace_crud_dialog {
            None => eff is Nothing && post == pre,
            Some(d) => if d.busy {
                eff is Nothing && post == pre
            } else if needs_name(d.kind) && is_blank(d.name_input@) {
                &&& eff is Nothing
                &&& post.workspace_crud_dialog matches Some(q) && q.error matches Some(e) && e@
                    == "El nombre no puede quedar vacío."@ && q == WorkspaceCrudDialogState {
                    error: q.error,
                    ..d
                }
                &&& post == Midway { workspace_crud_dialog: post.workspace_crud_dialog, ..pre }
            } else {
                &&& post == Midway {
                    workspace_crud_dialog: Some(
                        WorkspaceCrudDialogState { busy: true, error: None, ..d },
                    ),
                    ..pre
                }
                &&& eff matches Effect::ApplyCrud { kind, name } && kind == d.kind && name@
                    == trimmed(d.name_input@)
            },
        },
        WorkspaceCrudMessage::Cancelled => eff is Nothing && match pre.workspace_crud_dialog {
            Some(d) if !d.busy => post == Midway { workspace_crud_dialog: None, ..pre },
            _ => post == pre,
        },
        WorkspaceCrudMessage::Completed(result) => eff is Nothing && match result {
            Ok(ws) => reconcile_spec(pre, post, ws),
            Err(e) => match pre.workspace_crud_dialog {
                Some(d) => post == Midway {
                    workspace_crud_dialog: Some(
                        WorkspaceCrudDialogState { busy: false, error: Some(e), ..d },
                    ),
                    ..pre
                },
                None => post == pre,
            },
        },
    }
}

fn set_tree_error(state: &mut Midway, message: &str)
    ensures
        tree_error(*old(state), *final(state), message@),
{
    state.tree.error = Some(crate::text::owned(message));
}

fn run_busy(state: &Midway) -> (r: bool)
    ensures
        r == run_in_progress(*state),
{
    match &state.runner {
        Some(runner) => runner.running,
        None => false,
    }
}

fn open_dialog(state: &mut Midway, kind: WorkspaceCrudKind, name: String)
    ensures
        final(state).workspace_crud_dialog matches Some(d) && entity_dialog(*final(state), kind, name)
            && dialog_opened(*old(state), *final(state), d),
{
    state.workspace_crud_dialog = Some(
        WorkspaceCrudDialogState {
            kind,
            entity_name: name.clone(),
            name_input: name,
            busy: false,
            error: None,
        },
    );
    state.tree.error = None;
}

#[verifier::rlimit(40)]
pub fn update_workspace_crud(state: &mut Midway, message: WorkspaceCrudMessage) -> (eff: Effect)
    ensures
        crud_spec(*old(state), *final(state), message, eff),
{
    match message {
        WorkspaceCrudMessage::CreateFolderRequested { parent_folder_id } => {
            let Some(collection_id) = crate::model::clone_opt(&state.active_collection_id) else {
                set_tree_error(state, "Seleccioná una colección antes de crear una carpeta.");
                return Effect::Nothing;
            };
            proof {
                lemma_collection_index(state.workspace.collections@, collection_id@);
            }
            let parent_name = match &parent_folder_id {
                None => None,
                Some(folder_id) => match find_collection(
                    &state.workspace.collections,
                    collection_id.as_str(),
                ) {
                    None => None,
                    Some(c) => {
                        proof {
                            crate::seqs::lemma_first_index(
                                state.workspace.collections@[c as int].folders@,
                                folder_has_id(folder_id@),
                            );
                        }
                        match find_folder(&state.workspace.collections[c].folders, folder_id.as_str()) {
                            Some(j) => Some(state.workspace.collections[c].folders[j].name.clone()),
                            None => None,
                        }
                    },
                },
            };
            if parent_folder_id.is_some() && parent_name.is_none() {
                set_tree_error(state, "No se pudo encontrar la carpeta padre.");
                return Effect::Nothing;
            }
            let entity_name = match parent_name {
                Some(name) => name,
                None => crate::text::owned("raíz de la colección"),
            };
            state.workspace_crud_dialog = Some(
                WorkspaceCrudDialogState {
                    kind: WorkspaceCrudKind::CreateFolder { collection_id, parent_folder_id },
                    entity_name,
                    name_input: String::new(),
                    busy: false,
                    error: None,
                },
            );
            state.tree.error = None;
            Effect::Nothing
        },
        WorkspaceCrudMessage::RenameCollectionRequested(collection_id) => {
            proof {
                lemma_collection_index(state.workspace.collections@, collection_id@);
            }
            let Some(c) = find_collection(&state.workspace.collections, collection_id.as_str()) else {
                set_tree_error(state, "No se pudo encontrar la colección.");
                return Effect::Nothing;
            };
            let name = state.workspace.collections[c].collection.name.clone();
            open_dialog(state, WorkspaceCrudKind::RenameCollection { collection_id }, name);
            Effect::Nothing
        },
        WorkspaceCrudMessage::DeleteCollectionRequested(collection_id) => {
            proof {
                lemma_collection_index(state.workspace.collections@, collection_id@);
            }
            let Some(c) = find_collection(&state.workspace.collections, collection_id.as_str()) else {
                set_tree_error(state, "No se pudo encontrar la colección.");
                return Effect::Nothing;
            };
            if run_busy(state) {
                set_tree_error(state, "Cancelá o esperá a que termine la ejecución antes de borrar.");
                return Effect::Nothing;
            }
            let name = state.workspace.collections[c].collection.name.clone();
            open_dialog(state, WorkspaceCrudKind::DeleteCollection { collection_id }, name);
            Effect::Nothing
        },
        WorkspaceCrudMessage::RenameFolderRequested(folder_id) => {
            proof {
                lemma_folder_position(state.workspace.collections@, folder_id@);
            }
            let Some((c, j)) = find_folder_anywhere(&state.workspace.collections, folder_id.as_str()) else {
                set_tree_error(state, "No se pudo encontrar la carpeta.");
                return Effect::Nothing;
            };
            let name = state.workspace.collections[c].folders[j].name.clone();
            open_dialog(state, WorkspaceCrudKind::RenameFolder { folder_id }, name);
            Effect::Nothing
        },
        WorkspaceCrudMessage::DeleteFolderRequested(folder_id) => {
            proof {
                lemma_folder_position(state.workspace.collections@, folder_id@);
            }
            let Some((c, j)) = find_folder_anywhere(&state.workspace.collections, folder_id.as_str()) else {
                set_tree_error(state, "No se pudo encontrar la carpeta.");
                return Effect::Nothing;
            };
            if run_busy(state) {
                set_tree_error(state, "Cancelá o esperá a que termine la ejecución antes de borrar.");
                return Effect::Nothing;
            }
            let name = state.workspace.collections[c].folders[j].name.clone();
            open_dialog(state, WorkspaceCrudKind::DeleteFolder { folder_id }, name);
            Effect::Nothing
        },
        WorkspaceCrudMessage::DeleteRequestRequested(request_id) => {
            if run_busy(state) {
                set_tree_error(state, "Cancelá o esperá a que termine la ejecución antes de borrar.");
                return Effect::Nothing;
            }
            proof {
                lemma_request_position(state.workspace.collections@, request_id@);
            }
            let Some((c, j)) = find_request(&state.workspace.collections, request_id.as_str()) else {
                set_tree_error(state, "No se pudo encontrar el request.");
                return Effect::Nothing;
            };
            let name = state.workspace.collections[c].requests[j].name.clone();
            open_dialog(state, WorkspaceCrudKind::DeleteRequest { request_id }, name);
            Effect::Nothing
        },
        WorkspaceCrudMessage::NameChanged(name) => {
            if let Some(dialog) = state.workspace_crud_dialog.as_mut() {
                if !dialog.busy {
                    dialog.name_input = name;
                    dialog.error = None;
                }
            }
            Effect::Nothing
        },
        WorkspaceCrudMessage::Confirmed => {
            let Some(dialog) = state.workspace_crud_dialog.as_mut() else {
                return Effect::Nothing;
            };
            if dialog.busy {
                return Effect::Nothing;
            }
            let needs = match &dialog.kind {
                WorkspaceCrudKind::CreateFolder { .. } | WorkspaceCrudKind::RenameCollection { .. }
                | WorkspaceCrudKind::RenameFolder { .. } => true,
                _ => false,
            };
            let name = crate::text::trim(dialog.name_input.as_str());
            if needs && name.as_str().is_empty() {
                dialog.error = Some(crate::text::owned("El nombre no puede quedar vacío."));
                return Effect::Nothing;
            }
            dialog.busy = true;
            dialog.error = None;
            let kind = dialog.kind.clone();
            Effect::ApplyCrud { kind, name }
        },
        WorkspaceCrudMessage::Cancelled => {
            let closable = match &state.workspace_crud_dialog {
                Some(dialog) => !dialog.busy,
                None => false,
            };
            if closable {
                state.workspace_crud_dialog = None;
            }
            Effect::Nothing
        },
        WorkspaceCrudMessage::Completed(result) => {
            match result {
                Ok(workspace) => reconcile_workspace_after_crud(state, workspace),
                Err(error) => {
                    if let Some(dialog) = state.workspace_crud_dialog.as_mut() {
                        dialog.busy = false;
                        dialog.error = Some(error);
                    }
                },
            }
            Effect::Nothing
        },
    }
}

} // verus!
