//! The side panel: sections, environments, history loading, and the
//! export/import forms of the Data section.

use vstd::prelude::*;
use crate::effects::Effect;
use crate::environments::{
    environment_deleted_spec, environment_saved_spec, environment_submitted_spec,
    handle_environment_deleted_result, handle_environment_saved_result,
    handle_environment_submitted,
};
use crate::model::{RequestDraft, opt_view};
use crate::navigation::{
    enforce_top_bar_mode_after_collection_change, enforced_spec, resolve_startup_collection,
    startup_collection,
};
use crate::records::{
    EnvironmentRecord, WorkspaceSnapshot, environment_index, find_environment, find_request,
    lemma_environment_index, lemma_request_position, request_position,
};
use crate::state::{
    EnvironmentFormState, ExportFormState, ImportFormState, MainContentFocus, Midway,
    RequestTabState, WorkspaceExportFormat, WorkspaceImportFormat, WorkspacePanelSection,
    WorkspacePanelState, is_fresh_environment_form,
};
use crate::text::{decimal, decimal_string, is_blank, owned, push_str, trimmed};

verus! {

/// How large an import payload may be, in bytes of UTF-8.
pub const MAX_IMPORT_PAYLOAD_BYTES: usize = 10485760;

#[derive(Debug)]
pub enum WorkspaceMessage {
    SectionSelected(WorkspacePanelSection),
    ToggleCollapsed,
    EnvironmentNameInputChanged(String),
    EnvironmentCreateOrUpdateSubmitted,
    EnvironmentEditRequested(String),
    EnvironmentEditCancelled,
    EnvironmentDeleteRequested(String),
    EnvironmentSavedResult(Result<EnvironmentRecord, String>),
    EnvironmentDeletedResult { environment_id: String, result: Result<(), String> },
    WorkspaceSnapshotLoaded(Result<WorkspaceSnapshot, String>),
    ExportFormatChanged(WorkspaceExportFormat),
    ExportPathInputChanged(String),
    ExportCollectionIdInputChanged(String),
    ExportSubmitted,
    ExportCompleted(Result<String, String>),
    ImportPayloadInputChanged(String),
    ImportFormatChanged(WorkspaceImportFormat),
    ImportSubmitted,
    ImportCompleted(Result<(WorkspaceSnapshot, String), String>),
}

/// `post` is `pre` with only the side panel changed, to `panel`.
pub open spec fn panel_set(pre: Midway, post: Midway, panel: WorkspacePanelState) -> bool {
    post == Midway { workspace_panel: panel, ..pre }
}

/// A tab's saved draft after the workspace reloads: the draft of the saved
/// request it shows, if that still exists; tabs of unsaved requests keep
/// theirs.
pub open spec fn resynced_tab(t: RequestTabState, u: RequestTabState, ws: WorkspaceSnapshot) -> bool {
    match t.draft.id {
        None => u == t,
        Some(rid) => {
            &&& u == RequestTabState { saved_draft: u.saved_draft, ..t }
            &&& match request_position(ws.collections@, rid@) {
                None => u.saved_draft is None,
                Some((c, j)) => u.saved_draft matches Some(d) && d@
                    == ws.collections@[c].requests@[j].draft@,
            }
        },
    }
}

/// The workspace reloaded from the store: the tabs re-learn their saved
/// drafts, the workspace is replaced and marked loaded, and the active
/// collection is re-resolved; an error shows in the History section.
pub open spec fn snapshot_loaded_spec(pre: Midway, post: Midway, result: Result<WorkspaceSnapshot, String>) -> bool {
    match result {
        Ok(ws) => {
            &&& post.tabs@.len() == pre.tabs@.len()
            &&& forall|k: int|
                0 <= k < pre.tabs@.len() ==> resynced_tab(#[trigger] pre.tabs@[k], post.tabs@[k], ws)
            &&& opt_view(post.active_collection_id) == startup_collection(
                ws.collections@,
                opt_view(pre.active_collection_id),
            )
            &&& post == Midway {
                tabs: post.tabs,
                workspace: ws,
                active_collection_id: post.active_collection_id,
                workspace_panel: WorkspacePanelState {
                    history_loading: false,
                    history_loaded: true,
                    ..pre.workspace_panel
                },
                ..pre
            }
        },
        Err(e) => panel_set(
            pre,
            post,
            WorkspacePanelState {
                history_loading: false,
                history_error: Some(e),
                ..pre.workspace_panel
            },
        ),
    }
}

pub fn handle_workspace_snapshot_loaded(state: &mut Midway, result: Result<WorkspaceSnapshot, String>)
    ensures
        snapshot_loaded_spec(*old(state), *final(state), result),
{
    state.workspace_panel.history_loading = false;
    match result {
        Ok(snapshot) => {
            let ghost pre_tabs = state.tabs@;
            let ghost before = *state;
            let mut k: usize = 0;
            while k < state.tabs.len()
                invariant
                    *state == (Midway { tabs: state.tabs, ..before }),
                    state.tabs@.len() == pre_tabs.len(),
                    k <= pre_tabs.len(),
                    forall|m: int| k <= m < pre_tabs.len() ==> state.tabs@[m] == pre_tabs[m],
                    forall|m: int|
                        0 <= m < k ==> resynced_tab(#[trigger] pre_tabs[m], state.tabs@[m], snapshot),
                decreases pre_tabs.len() - k,
            {
                let saved = match &state.tabs[k].draft.id {
                    None => None,
                    Some(rid) => {
                        proof {
                            lemma_request_position(snapshot.collections@, rid@);
                        }
                        match find_request(&snapshot.collections, rid.as_str()) {
                            Some((c, j)) => Some(snapshot.collections[c].requests[j].draft.clone()),
                            None => None,
                        }
                    },
                };
                if state.tabs[k].draft.id.is_some() {
                    state.tabs[k].saved_draft = saved;
                }
                k = k + 1;
            }
            let previous = crate::model::clone_opt(&state.active_collection_id);
            let previous_ref = match &previous {
                Some(id) => Some(id.as_str()),
                None => None,
            };
            state.active_collection_id = resolve_startup_collection(&snapshot.collections, previous_ref);
            state.workspace = snapshot;
            state.workspace_panel.history_loaded = true;
            proof {
                if state.workspace.collections@.len() > 0 {
                    assert(crate::records::has_collection(
                        state.workspace.collections@,
                        state.workspace.collections@[0].collection.id@,
                    ));
                }
            }
            enforce_top_bar_mode_after_collection_change(state);
        },
        Err(message) => {
            state.workspace_panel.history_error = Some(message);
        },
    }
}

/// Asking for the workspace (and its history) to load.
pub open spec fn history_requested_spec(pre: Midway, post: Midway, eff: Effect) -> bool {
    eff is LoadWorkspaceSnapshot && panel_set(
        pre,
        post,
        WorkspacePanelState { history_loading: true, history_error: None, ..pre.workspace_panel },
    )
}

pub fn handle_history_requested(state: &mut Midway) -> (eff: Effect)
    ensures
        history_requested_spec(*old(state), *final(state), eff),
{
    state.workspace_panel.history_loading = true;
    state.workspace_panel.history_error = None;
    Effect::LoadWorkspaceSnapshot
}

/// `post` is `pre` with the export form showing `msg` as a result, an
/// error or not.
pub open spec fn export_result(pre: Midway, post: Midway, msg: Seq<char>, is_error: bool) -> bool {
    post.workspace_panel.export_form.result_message matches Some(m) && m@ == msg && panel_set(
        pre,
        post,
        WorkspacePanelState {
            export_form: ExportFormState {
                result_message: post.workspace_panel.export_form.result_message,
                result_is_error: is_error,
                ..pre.workspace_panel.export_form
            },
            ..pre.workspace_panel
        },
    )
}

/// `post` is `pre` with the import form showing `msg` as a result, an
/// error or not.
pub open spec fn import_result(pre: Midway, post: Midway, msg: Seq<char>, is_error: bool) -> bool {
    post.workspace_panel.import_form.result_message matches Some(m) && m@ == msg && panel_set(
        pre,
        post,
        WorkspacePanelState {
            import_form: ImportFormState {
                result_message: post.workspace_panel.import_form.result_message,
                result_is_error: is_error,
                ..pre.workspace_panel.import_form
            },
            ..pre.workspace_panel
        },
    )
}

/// Submitting the export form: it needs a destination path, and for the
/// Postman format a collection id; then the form is busy and the export
/// is asked for (the collection id only when given).
pub open spec fn export_submitted_spec(pre: Midway, post: Midway, eff: Effect) -> bool {
    let form = pre.workspace_panel.export_form;
    let path = trimmed(form.path_input@);
    let cid = trimmed(form.collection_id_input@);
    if path.len() == 0 {
        eff is Nothing && export_result(
            pre,
            post,
            "Necesitás indicar una ruta de archivo de destino."@,
            true,
        )
    } else if form.export_format == WorkspaceExportFormat::PostmanCollectionV21 && cid.len() == 0 {
        eff is Nothing && export_result(
            pre,
            post,
            "Para exportar Postman v2.1 necesitás indicar el id de la collection."@,
            true,
        )
    } else {
        &&& panel_set(
            pre,
            post,
            WorkspacePanelState {
                export_form: ExportFormState { busy: true, result_message: None, ..form },
                ..pre.workspace_panel
            },
        )
        &&& eff matches Effect::ExportWorkspace { path: p, format, collection_id } && p@ == path
            && format == form.export_format && opt_view(collection_id) == if cid.len() == 0 {
            None
        } else {
            Some(cid)
        }
    }
}

pub fn handle_export_submitted(state: &mut Midway) -> (eff: Effect)
    ensures
        export_submitted_spec(*old(state), *final(state), eff),
{
    let path = crate::text::trim(state.workspace_panel.export_form.path_input.as_str());
    let format = state.workspace_panel.export_form.export_format;
    let collection_id = crate::text::trim(
        state.workspace_panel.export_form.collection_id_input.as_str(),
    );
    if path.as_str().is_empty() {
        state.workspace_panel.export_form.result_message = Some(
            owned("Necesitás indicar una ruta de archivo de destino."),
        );
        state.workspace_panel.export_form.result_is_error = true;
        return Effect::Nothing;
    }
    if format == WorkspaceExportFormat::PostmanCollectionV21 && collection_id.as_str().is_empty() {
        state.workspace_panel.export_form.result_message = Some(
            owned("Para exportar Postman v2.1 necesitás indicar el id de la collection."),
        );
        state.workspace_panel.export_form.result_is_error = true;
        return Effect::Nothing;
    }
    state.workspace_panel.export_form.busy = true;
    state.workspace_panel.export_form.result_message = None;
    let collection_id = if collection_id.as_str().is_empty() {
        None
    } else {
        Some(collection_id)
    };
    Effect::ExportWorkspace { path, format, collection_id }
}

/// The UTF-8 size of a text, in bytes.
pub open spec fn utf8_size(s: Seq<char>) -> nat {
    vstd::utf8::encode_utf8(s).len()
}

/// Submitting the import form: it needs a payload that is not blank and
/// not larger than the limit; then the form is busy and the import is
/// asked for.
pub open spec fn import_submitted_spec(pre: Midway, post: Midway, eff: Effect) -> bool {
    let form = pre.workspace_panel.import_form;
    if is_blank(form.payload_input@) {
        eff is Nothing && import_result(pre, post, "Necesitás pegar el contenido a importar."@, true)
    } else if utf8_size(form.payload_input@) > MAX_IMPORT_PAYLOAD_BYTES {
        eff is Nothing && import_result(
            pre,
            post,
            "El contenido a importar supera el límite de 10 MB."@,
            true,
        )
    } else {
        &&& panel_set(
            pre,
            post,
            WorkspacePanelState {
                import_form: ImportFormState { busy: true, result_message: None, ..form },
                ..pre.workspace_panel
            },
        )
        &&& eff matches Effect::ImportWorkspace { payload, format } && payload == form.payload_input
            && format == form.import_format
    }
}

pub fn handle_import_submitted(state: &mut Midway) -> (eff: Effect)
    ensures
        import_submitted_spec(*old(state), *final(state), eff),
{
    let payload = state.workspace_panel.import_form.payload_input.clone();
    let format = state.workspace_panel.import_form.import_format;
    if crate::text::blank(payload.as_str()) {
        state.workspace_panel.import_form.result_message = Some(
            owned("Necesitás pegar el contenido a importar."),
        );
        state.workspace_panel.import_form.result_is_error = true;
        return Effect::Nothing;
    }
    if payload.as_str().as_bytes().len() > MAX_IMPORT_PAYLOAD_BYTES {
        state.workspace_panel.import_form.result_message = Some(
            owned("El contenido a importar supera el límite de 10 MB."),
        );
        state.workspace_panel.import_form.result_is_error = true;
        return Effect::Nothing;
    }
    state.workspace_panel.import_form.busy = true;
    state.workspace_panel.import_form.result_message = None;
    Effect::ImportWorkspace { payload, format }
}

} // verus!

verus! {

/// What the side panel does with each message.
pub open spec fn workspace_spec(pre: Midway, post: Midway, msg: WorkspaceMessage, eff: Effect) -> bool {
    let panel = pre.workspace_panel;
    match msg {
        WorkspaceMessage::SectionSelected(section) => {
            let mid = Midway {
                main_content_focus: MainContentFocus::WorkspaceSection,
                workspace_panel: WorkspacePanelState {
                    navigation_error: None,
                    active_section: section,
                    ..panel
                },
                ..pre
            };
            if section == WorkspacePanelSection::History && !panel.history_loaded {
                history_requested_spec(mid, post, eff)
            } else if section == WorkspacePanelSection::Diagnostics {
                post == mid && eff is ReadCrashRecords
            } else {
                post == mid && eff is Nothing
            }
        },
        WorkspaceMessage::ToggleCollapsed => eff is Nothing && panel_set(
            pre,
            post,
            WorkspacePanelState { collapsed: !panel.collapsed, ..panel },
        ),
        WorkspaceMessage::EnvironmentNameInputChanged(name) => eff is Nothing && panel_set(
            pre,
            post,
            WorkspacePanelState {
                environment_form: EnvironmentFormState {
                    name_input: name,
                    error: None,
                    ..panel.environment_form
                },
                ..panel
            },
        ),
        WorkspaceMessage::EnvironmentEditRequested(id) => eff is Nothing && match environment_index(
            pre.workspace.environments@,
            id@,
        ) {
            Some(j) => panel_set(
                pre,
                post,
                WorkspacePanelState {
                    environment_form: EnvironmentFormState {
                        editing_id: Some(pre.workspace.environments@[j].id),
                        name_input: pre.workspace.environments@[j].name,
                        error: None,
                    },
                    ..panel
                },
            ),
            None => post == pre,
        },
        WorkspaceMessage::EnvironmentEditCancelled => {
            &&& eff is Nothing
            &&& is_fresh_environment_form(post.workspace_panel.environment_form)
            &&& panel_set(
                pre,
                post,
                WorkspacePanelState {
                    environment_form: post.workspace_panel.environment_form,
                    ..panel
                },
            )
        },
        WorkspaceMessage::EnvironmentCreateOrUpdateSubmitted => environment_submitted_spec(
            pre,
            post,
            eff,
        ),
        WorkspaceMessage::EnvironmentDeleteRequested(id) => (eff matches Effect::DeleteEnvironment {
            environment_id,
        } && environment_id == id) && panel_set(
            pre,
            post,
            WorkspacePanelState { environment_busy: true, ..panel },
        ),
        WorkspaceMessage::EnvironmentSavedResult(result) => eff is Nothing
            && environment_saved_spec(pre, post, result),
        WorkspaceMessage::EnvironmentDeletedResult { environment_id, result } => eff is Nothing
            && environment_deleted_spec(pre, post, environment_id, result),
        WorkspaceMessage::WorkspaceSnapshotLoaded(result) => eff is Nothing
            && snapshot_loaded_spec(pre, post, result),
        WorkspaceMessage::ExportFormatChanged(format) => eff is Nothing && panel_set(
            pre,
            post,
            WorkspacePanelState {
                export_form: ExportFormState {
                    export_format: format,
                    result_message: None,
                    ..panel.export_form
                },
                ..panel
            },
        ),
        WorkspaceMessage::ExportPathInputChanged(path) => eff is Nothing && panel_set(
            pre,
            post,
            WorkspacePanelState {
                export_form: ExportFormState {
                    path_input: path,
                    result_message: None,
                    ..panel.export_form
                },
                ..panel
            },
        ),
        WorkspaceMessage::ExportCollectionIdInputChanged(id) => eff is Nothing && panel_set(
            pre,
            post,
            WorkspacePanelState {
                export_form: ExportFormState {
                    collection_id_input: id,
                    result_message: None,
                    ..panel.export_form
                },
                ..panel
            },
        ),
        WorkspaceMessage::ExportSubmitted => export_submitted_spec(pre, post, eff),
        WorkspaceMessage::ExportCompleted(result) => eff is Nothing && panel_set(
            pre,
            post,
            WorkspacePanelState {
                export_form: ExportFormState {
                    busy: false,
                    result_message: Some(
                        match result {
                            Ok(m) => m,
                            Err(m) => m,
                        },
                    ),
                    result_is_error: result is Err,
                    ..panel.export_form
                },
                ..panel
            },
        ),
        WorkspaceMessage::ImportPayloadInputChanged(payload) => eff is Nothing && panel_set(
            pre,
            post,
            WorkspacePanelState {
                import_form: ImportFormState {
                    payload_input: payload,
                    result_message: None,
                    ..panel.import_form
                },
                ..panel
            },
        ),
        WorkspaceMessage::ImportFormatChanged(format) => eff is Nothing && panel_set(
            pre,
            post,
            WorkspacePanelState {
                import_form: ImportFormState {
                    import_format: format,
                    result_message: None,
                    ..panel.import_form
                },
                ..panel
            },
        ),
        WorkspaceMessage::ImportSubmitted => import_submitted_spec(pre, post, eff),
        WorkspaceMessage::ImportCompleted(result) => eff is Nothing && match result {
            Ok((ws, m)) => {
                let mid = Midway {
                    workspace: ws,
                    workspace_panel: WorkspacePanelState {
                        import_form: ImportFormState {
                            busy: false,
                            payload_input: post.workspace_panel.import_form.payload_input,
                            result_message: Some(m),
                            result_is_error: false,
                            ..panel.import_form
                        },
                        ..panel
                    },
                    ..pre
                };
                post.workspace_panel.import_form.payload_input@.len() == 0 && enforced_spec(
                    mid,
                    post,
                )
            },
            Err(m) => panel_set(
                pre,
                post,
                WorkspacePanelState {
                    import_form: ImportFormState {
                        busy: false,
                        result_message: Some(m),
                        result_is_error: true,
                        ..panel.import_form
                    },
                    ..panel
                },
            ),
        },
    }
}

#[verifier::spinoff_prover]
fn update_workspace_navigation(state: &mut Midway, message: WorkspaceMessage) -> (eff: Effect)
    requires
        message is SectionSelected || message is ToggleCollapsed,
    ensures
        workspace_spec(*old(state), *final(state), message, eff),
{
    match message {
        WorkspaceMessage::SectionSelected(section) => {
            state.workspace_panel.navigation_error = None;
            state.main_content_focus = MainContentFocus::WorkspaceSection;
            state.workspace_panel.active_section = section;
            if section == WorkspacePanelSection::History && !state.workspace_panel.history_loaded {
                return handle_history_requested(state);
            }
            if section == WorkspacePanelSection::Diagnostics {
                return Effect::ReadCrashRecords;
            }
            Effect::Nothing
        },
        WorkspaceMessage::ToggleCollapsed => {
            state.workspace_panel.collapsed = !state.workspace_panel.collapsed;
            Effect::Nothing
        },
        _ => Effect::Nothing,
    }
}

#[verifier::spinoff_prover]
fn update_workspace_environments(state: &mut Midway, message: WorkspaceMessage) -> (eff: Effect)
    requires
        message is EnvironmentNameInputChanged || message is EnvironmentEditRequested || message is EnvironmentEditCancelled || message is EnvironmentCreateOrUpdateSubmitted || message is EnvironmentDeleteRequested || message is EnvironmentSavedResult || message is EnvironmentDeletedResult || message is WorkspaceSnapshotLoaded,
    ensures
        workspace_spec(*old(state), *final(state), message, eff),
{
    match message {
        WorkspaceMessage::EnvironmentNameInputChanged(name) => {
            state.workspace_panel.environment_form.name_input = name;
            state.workspace_panel.environment_form.error = None;
            Effect::Nothing
        },
        WorkspaceMessage::EnvironmentEditRequested(environment_id) => {
            proof {
                lemma_environment_index(state.workspace.environments@, environment_id@);
            }
            if let Some(j) = find_environment(
                &state.workspace.environments,
                environment_id.as_str(),
            ) {
                state.workspace_panel.environment_form = EnvironmentFormState {
                    editing_id: Some(state.workspace.environments[j].id.clone()),
                    name_input: state.workspace.environments[j].name.clone(),
                    error: None,
                };
            }
            Effect::Nothing
        },
        WorkspaceMessage::EnvironmentEditCancelled => {
            state.workspace_panel.environment_form = EnvironmentFormState::default();
            Effect::Nothing
        },
        WorkspaceMessage::EnvironmentCreateOrUpdateSubmitted => handle_environment_submitted(state),
        WorkspaceMessage::EnvironmentDeleteRequested(environment_id) => {
            state.workspace_panel.environment_busy = true;
            Effect::DeleteEnvironment { environment_id }
        },
        WorkspaceMessage::EnvironmentSavedResult(result) => {
            handle_environment_saved_result(state, result);
            Effect::Nothing
        },
        WorkspaceMessage::EnvironmentDeletedResult { environment_id, result } => {
            handle_environment_deleted_result(state, environment_id, result);
            Effect::Nothing
        },
        WorkspaceMessage::WorkspaceSnapshotLoaded(result) => {
            handle_workspace_snapshot_loaded(state, result);
            Effect::Nothing
        },
        _ => Effect::Nothing,
    }
}

#[verifier::spinoff_prover]
fn update_workspace_export(state: &mut Midway, message: WorkspaceMessage) -> (eff: Effect)
    requires
        message is ExportFormatChanged || message is ExportPathInputChanged || message is ExportCollectionIdInputChanged || message is ExportSubmitted || message is ExportCompleted,
    ensures
        workspace_spec(*old(state), *final(state), message, eff),
{
    match message {
        WorkspaceMessage::ExportFormatChanged(format) => {
            state.workspace_panel.export_form.export_format = format;
            state.workspace_panel.export_form.result_message = None;
            Effect::Nothing
        },
        WorkspaceMessage::ExportPathInputChanged(path) => {
            state.workspace_panel.export_form.path_input = path;
            state.workspace_panel.export_form.result_message = None;
            Effect::Nothing
        },
        WorkspaceMessage::ExportCollectionIdInputChanged(collection_id) => {
            state.workspace_panel.export_form.collection_id_input = collection_id;
            state.workspace_panel.export_form.result_message = None;
            Effect::Nothing
        },
        WorkspaceMessage::ExportSubmitted => handle_export_submitted(state),
        WorkspaceMessage::ExportCompleted(result) => {
            state.workspace_panel.export_form.busy = false;
            match result {
                Ok(message) => {
                    state.workspace_panel.export_form.result_message = Some(message);
                    state.workspace_panel.export_form.result_is_error = false;
                },
                Err(message) => {
                    state.workspace_panel.export_form.result_message = Some(message);
                    state.workspace_panel.export_form.result_is_error = true;
                },
            }
            Effect::Nothing
        },
        _ => Effect::Nothing,
    }
}

#[verifier::spinoff_prover]
fn update_workspace_import(state: &mut Midway, message: WorkspaceMessage) -> (eff: Effect)
    requires
        message is ImportPayloadInputChanged || message is ImportFormatChanged || message is ImportSubmitted || message is ImportCompleted,
    ensures
        workspace_spec(*old(state), *final(state), message, eff),
{
    match message {
        WorkspaceMessage::ImportPayloadInputChanged(payload) => {
            state.workspace_panel.import_form.payload_input = payload;
            state.workspace_panel.import_form.result_message = None;
            Effect::Nothing
        },
        WorkspaceMessage::ImportFormatChanged(format) => {
            state.workspace_panel.import_form.import_format = format;
            state.workspace_panel.import_form.result_message = None;
            Effect::Nothing
        },
        WorkspaceMessage::ImportSubmitted => handle_import_submitted(state),
        WorkspaceMessage::ImportCompleted(result) => {
            state.workspace_panel.import_form.busy = false;
            match result {
                Ok((snapshot, message)) => {
                    state.workspace = snapshot;
                    state.workspace_panel.import_form.payload_input = String::new();
                    state.workspace_panel.import_form.result_message = Some(message);
                    state.workspace_panel.import_form.result_is_error = false;
                    enforce_top_bar_mode_after_collection_change(state);
                },
                Err(message) => {
                    state.workspace_panel.import_form.result_message = Some(message);
                    state.workspace_panel.import_form.result_is_error = true;
                },
            }
            Effect::Nothing
        },
        _ => Effect::Nothing,
    }
}

pub fn update_workspace(state: &mut Midway, message: WorkspaceMessage) -> (eff: Effect)
    ensures
        workspace_spec(*old(state), *final(state), message, eff),
{
    match message {
        WorkspaceMessage::SectionSelected(_) | WorkspaceMessage::ToggleCollapsed => update_workspace_navigation(state, message),
        WorkspaceMessage::EnvironmentNameInputChanged(_) | WorkspaceMessage::EnvironmentEditRequested(_) | WorkspaceMessage::EnvironmentEditCancelled | WorkspaceMessage::EnvironmentCreateOrUpdateSubmitted | WorkspaceMessage::EnvironmentDeleteRequested(_) | WorkspaceMessage::EnvironmentSavedResult(_) | WorkspaceMessage::EnvironmentDeletedResult { .. } | WorkspaceMessage::WorkspaceSnapshotLoaded(_) => update_workspace_environments(state, message),
        WorkspaceMessage::ExportFormatChanged(_) | WorkspaceMessage::ExportPathInputChanged(_) | WorkspaceMessage::ExportCollectionIdInputChanged(_) | WorkspaceMessage::ExportSubmitted | WorkspaceMessage::ExportCompleted(_) => update_workspace_export(state, message),
        WorkspaceMessage::ImportPayloadInputChanged(_) | WorkspaceMessage::ImportFormatChanged(_) | WorkspaceMessage::ImportSubmitted | WorkspaceMessage::ImportCompleted(_) => update_workspace_import(state, message),
    }
}

/// The message shown once an export is written: the file and its size.
pub fn export_written_message(path: &str, byte_count: u64) -> (r: String)
    ensures
        r@ == "Exportado a "@ + path@ + " ("@ + decimal(byte_count as nat) + " bytes)."@,
{
    let mut s = owned("Exportado a ");
    push_str(&mut s, path);
    push_str(&mut s, " (");
    push_str(&mut s, decimal_string(byte_count).as_str());
    push_str(&mut s, " bytes).");
    s
}

/// The error of a Postman export whose collection the store does not have.
pub fn missing_collection_message(collection_id: &str) -> (r: String)
    ensures
        r@ == "No existe la collection "@ + collection_id@,
{
    let mut s = owned("No existe la collection ");
    push_str(&mut s, collection_id);
    s
}

} // verus!
