use std::collections::VecDeque;

use midway::composer_update::{update_request_composer, RequestComposerMessage};
use midway::crud::{update_workspace_crud, WorkspaceCrudMessage};
use midway::effects::Effect;
use midway::model::{create_blank_draft, RequestDraft};
use midway::reconcile::reconcile_workspace_after_crud;
use midway::records::{
    CollectionSummary, CollectionWithRequests, Folder, SavedRequestRecord, WorkspaceSnapshot,
};
use midway::saving::{handle_save_request_completed, open_save_request_prompt, RequestSaveOutcome};
use midway::session::{restore_pending_session, update_session, SessionMessage};
use midway::state::{
    Midway, RequestTab, RequestTabState, SaveRequestPromptState, SessionSnapshot, SessionStoreState,
    TabSnapshot, ThemeMode, UnsavedChangesPromptState, WorkspaceCrudDialogState, WorkspaceCrudKind,
    SESSION_SCHEMA_VERSION,
};
use midway::tabs::is_draft_empty;
use midway::workspace_panel::handle_workspace_snapshot_loaded;

fn build_test_midway(draft: RequestDraft) -> Midway {
    let mut state = Midway::from_session(SessionStoreState::default());
    state.tabs = vec![RequestTabState::from_draft(draft)];
    state.active_tab = Some(0);
    state
}

fn test_collection(
    id: &str,
    name: &str,
    folders: Vec<Folder>,
    requests: Vec<SavedRequestRecord>,
) -> CollectionWithRequests {
    CollectionWithRequests {
        collection: CollectionSummary {
            id: id.to_string(),
            name: name.to_string(),
            request_count: requests.len() as u64,
            created_at: "2024-01-01T00:00:00Z".to_string(),
            updated_at: "2024-01-01T00:00:00Z".to_string(),
        },
        folders,
        requests,
    }
}

fn crud_saved_request(id: &str, collection_id: &str, folder_id: Option<&str>) -> SavedRequestRecord {
    let mut draft = create_blank_draft();
    draft.id = Some(id.to_string());
    draft.name = id.to_string();
    SavedRequestRecord {
        id: id.to_string(),
        collection_id: collection_id.to_string(),
        folder_id: folder_id.map(str::to_string),
        name: id.to_string(),
        draft,
        created_at: "2024-01-01T00:00:00Z".to_string(),
        updated_at: "2024-01-01T00:00:00Z".to_string(),
    }
}

fn crud_collection(id: &str, folders: Vec<Folder>, requests: Vec<SavedRequestRecord>) -> CollectionWithRequests {
    test_collection(id, &format!("Colección {id}"), folders, requests)
}

fn tab_snapshot(id: &str, url: &str) -> TabSnapshot {
    let mut draft = create_blank_draft();
    draft.url = url.to_string();
    TabSnapshot { id: id.to_string(), draft, active_request_tab: RequestTab::Headers }
}

fn session_with(active_tab_id: Option<&str>, open_tabs: Vec<TabSnapshot>) -> SessionStoreState {
    let snapshot = SessionSnapshot {
        version: SESSION_SCHEMA_VERSION,
        active_tab_id: active_tab_id.map(str::to_string),
        open_tabs,
        closed_tabs: Vec::new(),
        theme_mode: ThemeMode::Dark,
        saved_at: "2024-01-01T00:00:00Z".to_string(),
        active_collection_id: None,
    };
    SessionStoreState { pending_restore: Some(snapshot), ..SessionStoreState::default() }
}

#[test]
fn save_dialog_defaults_to_active_collection() {
    let mut midway = build_test_midway(create_blank_draft());
    midway.workspace.collections.push(test_collection("collection-1", "My API", Vec::new(), Vec::new()));
    midway.active_collection_id = Some("collection-1".to_string());

    open_save_request_prompt(&mut midway);

    let prompt = midway.save_request_prompt.as_ref().unwrap();
    assert_eq!(prompt.collection_id.as_deref(), Some("collection-1"));
    assert!(prompt.folder_id.is_none());
}

#[test]
fn changing_save_collection_resets_selected_folder() {
    let mut midway = build_test_midway(create_blank_draft());
    midway.workspace.collections = vec![
        test_collection("collection-1", "One", Vec::new(), Vec::new()),
        test_collection("collection-2", "Two", Vec::new(), Vec::new()),
    ];
    open_save_request_prompt(&mut midway);
    midway.save_request_prompt.as_mut().unwrap().folder_id = Some("old-folder".to_string());

    let _ = update_request_composer(
        &mut midway,
        RequestComposerMessage::SaveCollectionChanged("collection-2".to_string()),
    );

    let prompt = midway.save_request_prompt.as_ref().unwrap();
    assert_eq!(prompt.collection_id.as_deref(), Some("collection-2"));
    assert!(prompt.folder_id.is_none());
}

#[test]
fn save_completion_updates_tab_baseline_workspace_and_active_collection() {
    let mut midway = build_test_midway(create_blank_draft());
    open_save_request_prompt(&mut midway);
    let tab_id = midway.tabs[0].id.clone();
    let mut saved_draft = midway.tabs[0].draft.clone();
    saved_draft.id = Some("request-1".to_string());
    saved_draft.name = "List users".to_string();
    let record = SavedRequestRecord {
        id: "request-1".to_string(),
        collection_id: "collection-1".to_string(),
        folder_id: None,
        name: saved_draft.name.clone(),
        draft: saved_draft.clone(),
        created_at: "2024-01-01T00:00:00Z".to_string(),
        updated_at: "2024-01-01T00:00:00Z".to_string(),
    };
    let workspace = WorkspaceSnapshot {
        collections: vec![test_collection("collection-1", "My API", Vec::new(), vec![record])],
        environments: Vec::new(),
    };

    handle_save_request_completed(
        &mut midway,
        Ok(RequestSaveOutcome {
            tab_id,
            saved_draft: saved_draft.clone(),
            workspace,
            collection_id: "collection-1".to_string(),
        }),
    );

    assert_eq!(midway.tabs[0].draft, saved_draft);
    assert_eq!(midway.tabs[0].saved_draft, Some(saved_draft));
    assert_eq!(midway.active_collection_id.as_deref(), Some("collection-1"));
    assert_eq!(midway.workspace.collections[0].requests.len(), 1);
    assert!(midway.save_request_prompt.is_none());
    assert!(midway.session.dirty);
}

#[test]
fn initial_workspace_load_restores_saved_baseline_without_overwriting_edits() {
    let mut current_draft = create_blank_draft();
    current_draft.id = Some("request-1".to_string());
    current_draft.name = "Edited locally".to_string();
    let mut midway = build_test_midway(current_draft.clone());
    midway.active_collection_id = Some("collection-1".to_string());

    let mut persisted_draft = current_draft.clone();
    persisted_draft.name = "Persisted name".to_string();
    let record = SavedRequestRecord {
        id: "request-1".to_string(),
        collection_id: "collection-1".to_string(),
        folder_id: None,
        name: persisted_draft.name.clone(),
        draft: persisted_draft.clone(),
        created_at: "2024-01-01T00:00:00Z".to_string(),
        updated_at: "2024-01-01T00:00:00Z".to_string(),
    };
    let snapshot = WorkspaceSnapshot {
        collections: vec![test_collection("collection-1", "My API", Vec::new(), vec![record])],
        environments: Vec::new(),
    };

    handle_workspace_snapshot_loaded(&mut midway, Ok(snapshot));

    assert_eq!(midway.tabs[0].draft, current_draft);
    assert_eq!(midway.tabs[0].saved_draft, Some(persisted_draft));
    assert_eq!(midway.active_collection_id.as_deref(), Some("collection-1"));
}

#[test]
fn save_confirmed_with_blank_name_shows_the_error_and_asks_nothing() {
    let mut midway = build_test_midway(create_blank_draft());
    midway.workspace.collections.push(test_collection("collection-1", "My API", Vec::new(), Vec::new()));
    open_save_request_prompt(&mut midway);
    midway.save_request_prompt.as_mut().unwrap().name_input = "   ".to_string();

    let effect = update_request_composer(&mut midway, RequestComposerMessage::SaveConfirmed);

    assert!(matches!(effect, Effect::Nothing));
    let prompt = midway.save_request_prompt.as_ref().unwrap();
    assert_eq!(prompt.error.as_deref(), Some("El request necesita un nombre."));
    assert!(!prompt.saving);
}

#[test]
fn save_confirmed_without_collection_asks_for_one() {
    let mut midway = build_test_midway(create_blank_draft());
    open_save_request_prompt(&mut midway);

    let effect = update_request_composer(&mut midway, RequestComposerMessage::SaveConfirmed);

    assert!(matches!(effect, Effect::Nothing));
    assert_eq!(
        midway.save_request_prompt.as_ref().unwrap().error.as_deref(),
        Some("Seleccioná una colección de destino.")
    );
}

#[test]
fn save_confirmed_with_unknown_folder_is_refused() {
    let mut midway = build_test_midway(create_blank_draft());
    midway.workspace.collections.push(test_collection("collection-1", "My API", Vec::new(), Vec::new()));
    open_save_request_prompt(&mut midway);
    midway.save_request_prompt.as_mut().unwrap().folder_id = Some("gone".to_string());

    let _ = update_request_composer(&mut midway, RequestComposerMessage::SaveConfirmed);

    assert_eq!(
        midway.save_request_prompt.as_ref().unwrap().error.as_deref(),
        Some("La carpeta seleccionada ya no existe.")
    );
}

#[test]
fn save_confirmed_asks_to_save_the_trimmed_name() {
    let mut midway = build_test_midway(create_blank_draft());
    midway.workspace.collections.push(test_collection("collection-1", "My API", Vec::new(), Vec::new()));
    open_save_request_prompt(&mut midway);
    midway.save_request_prompt.as_mut().unwrap().name_input = "  Listar usuarios ".to_string();

    let effect = update_request_composer(&mut midway, RequestComposerMessage::SaveConfirmed);

    assert!(midway.save_request_prompt.as_ref().unwrap().saving);
    match effect {
        Effect::SaveRequest { tab_id, draft, collection_id, folder_id } => {
            assert_eq!(tab_id, midway.tabs[0].id);
            assert_eq!(draft.name, "Listar usuarios");
            assert_eq!(draft.url, midway.tabs[0].draft.url);
            assert_eq!(collection_id, "collection-1");
            assert!(folder_id.is_none());
        }
        other => panic!("efecto inesperado: {other:?}"),
    }
}

#[test]
fn restore_pending_session_restores_all_open_tabs_with_correct_content_and_ids() {
    let mut session = session_with(
        Some("tab-b"),
        vec![
            tab_snapshot("tab-a", "https://a.example.com"),
            tab_snapshot("tab-b", "https://b.example.com"),
            tab_snapshot("tab-c", "https://c.example.com"),
        ],
    );

    let (tabs, _active_tab, _session_collection_id) = restore_pending_session(&mut session);

    assert_eq!(tabs.len(), 3);
    assert_eq!(tabs[0].id, "tab-a");
    assert_eq!(tabs[0].draft.url, "https://a.example.com");
    assert_eq!(tabs[0].active_request_tab, RequestTab::Headers);
    assert_eq!(tabs[1].id, "tab-b");
    assert_eq!(tabs[1].draft.url, "https://b.example.com");
    assert_eq!(tabs[2].id, "tab-c");
    assert_eq!(tabs[2].draft.url, "https://c.example.com");
}

#[test]
fn restore_pending_session_resolves_active_tab_id_to_matching_index() {
    let mut session = session_with(
        Some("tab-c"),
        vec![
            tab_snapshot("tab-a", "https://a.example.com"),
            tab_snapshot("tab-b", "https://b.example.com"),
            tab_snapshot("tab-c", "https://c.example.com"),
        ],
    );

    let (tabs, active_tab, _session_collection_id) = restore_pending_session(&mut session);

    assert_eq!(tabs.len(), 3);
    assert_eq!(active_tab, Some(2));
}

#[test]
fn restore_pending_session_falls_back_to_index_zero_on_stale_active_tab_id() {
    let mut session = session_with(
        Some("tab-does-not-exist"),
        vec![tab_snapshot("tab-a", "https://a.example.com"), tab_snapshot("tab-b", "https://b.example.com")],
    );

    let (tabs, active_tab, _active_collection_id) = restore_pending_session(&mut session);

    assert_eq!(tabs.len(), 2);
    assert_eq!(active_tab, Some(0));
}

#[test]
fn restore_pending_session_with_empty_open_tabs_falls_back_to_single_blank_tab() {
    let mut session = session_with(None, Vec::new());

    let (tabs, active_tab, _active_collection_id) = restore_pending_session(&mut session);

    assert_eq!(tabs.len(), 1);
    assert!(is_draft_empty(&tabs[0].draft));
    assert_eq!(active_tab, Some(0));
}

#[test]
fn restore_pending_session_with_no_pending_restore_uses_default_blank_tab() {
    let mut session = SessionStoreState::default();
    assert!(session.pending_restore.is_none());

    let (tabs, active_tab, _active_collection_id) = restore_pending_session(&mut session);

    assert_eq!(tabs.len(), 1);
    assert!(is_draft_empty(&tabs[0].draft));
    assert_eq!(active_tab, Some(0));
}

#[test]
fn restore_consumes_the_pending_session_and_takes_its_theme() {
    let mut session = session_with(None, vec![tab_snapshot("tab-a", "https://a.example.com")]);
    if let Some(snapshot) = session.pending_restore.as_mut() {
        snapshot.theme_mode = ThemeMode::Light;
        snapshot.active_collection_id = Some("collection-7".to_string());
    }

    let (_tabs, _active, collection) = restore_pending_session(&mut session);

    assert!(session.pending_restore.is_none());
    assert_eq!(session.theme_mode, ThemeMode::Light);
    assert_eq!(collection.as_deref(), Some("collection-7"));
}

#[test]
fn autosave_writes_only_when_dirty() {
    let mut midway = build_test_midway(create_blank_draft());
    midway.session.dirty = true;
    midway.closed_tabs = VecDeque::from(vec![tab_snapshot("closed-1", "https://closed.example.com")]);

    let first = update_session(&mut midway, SessionMessage::AutosaveTick);
    let second = update_session(&mut midway, SessionMessage::AutosaveTick);

    assert!(!midway.session.dirty);
    match first {
        Effect::WriteSession(snapshot) => {
            assert_eq!(snapshot.version, SESSION_SCHEMA_VERSION);
            assert_eq!(snapshot.open_tabs.len(), 1);
            assert_eq!(snapshot.open_tabs[0].id, midway.tabs[0].id);
            assert_eq!(snapshot.active_tab_id.as_deref(), Some(midway.tabs[0].id.as_str()));
            assert_eq!(snapshot.closed_tabs.len(), 1);
            assert_eq!(snapshot.closed_tabs[0].id, "closed-1");
        }
        other => panic!("efecto inesperado: {other:?}"),
    }
    assert!(matches!(second, Effect::Nothing));
}

#[test]
fn reconcile_workspace_after_crud_cleans_deleted_request_references() {
    let deleted_folder = Folder {
        id: "folder-deleted".to_string(),
        collection_id: "collection-a".to_string(),
        parent_folder_id: None,
        name: "Borrada".to_string(),
    };
    let surviving_folder = Folder {
        id: "folder-keep".to_string(),
        collection_id: "collection-a".to_string(),
        parent_folder_id: None,
        name: "Conservar".to_string(),
    };
    let deleted_request = crud_saved_request("request-deleted", "collection-a", Some("folder-deleted"));
    let surviving_request = crud_saved_request("request-keep", "collection-a", None);
    let deleted_request_draft = deleted_request.draft.clone();
    let surviving_request_draft = surviving_request.draft.clone();

    let mut state = build_test_midway(create_blank_draft());
    state.workspace.collections = vec![crud_collection(
        "collection-a",
        vec![
            Folder { id: "folder-deleted".to_string(), ..deleted_folder },
            Folder { id: "folder-keep".to_string(), ..surviving_folder },
        ],
        vec![deleted_request, surviving_request],
    )];
    state.active_collection_id = Some("collection-a".to_string());
    state.tabs = vec![
        RequestTabState::from_draft(deleted_request_draft),
        RequestTabState::from_draft(surviving_request_draft),
        RequestTabState::blank(),
    ];
    state.active_tab = Some(0);
    let deleted_tab_id = state.tabs[0].id.clone();
    let deleted_snapshot = state.tabs[0].to_snapshot();
    state.closed_tabs.push_front(deleted_snapshot);
    state.save_request_prompt = Some(SaveRequestPromptState {
        tab_id: deleted_tab_id.clone(),
        name_input: "request-deleted".to_string(),
        collection_id: Some("collection-a".to_string()),
        folder_id: Some("folder-deleted".to_string()),
        saving: false,
        error: None,
    });
    state.unsaved_changes_prompt = Some(UnsavedChangesPromptState {
        tab_id: deleted_tab_id,
        saving: false,
        error: None,
    });
    state.tree.collapsed.extend(["folder-deleted".to_string(), "folder-keep".to_string()]);
    state.tree.collapsed_snapshot = Some(state.tree.collapsed.clone());
    state.workspace_crud_dialog = Some(WorkspaceCrudDialogState {
        kind: WorkspaceCrudKind::DeleteFolder { folder_id: "folder-deleted".to_string() },
        entity_name: "Borrada".to_string(),
        name_input: String::new(),
        busy: true,
        error: None,
    });

    let new_workspace = WorkspaceSnapshot {
        collections: vec![crud_collection(
            "collection-a",
            vec![Folder {
                id: "folder-keep".to_string(),
                collection_id: "collection-a".to_string(),
                parent_folder_id: None,
                name: "Conservar".to_string(),
            }],
            vec![crud_saved_request("request-keep", "collection-a", None)],
        )],
        environments: Vec::new(),
    };
    reconcile_workspace_after_crud(&mut state, new_workspace);

    assert!(state.tabs.iter().all(|tab| tab.draft.id.as_deref() != Some("request-deleted")));
    assert!(state.closed_tabs.iter().all(|tab| tab.draft.id.as_deref() != Some("request-deleted")));
    assert!(state.save_request_prompt.is_none());
    assert!(state.unsaved_changes_prompt.is_none());
    assert_eq!(state.active_collection_id.as_deref(), Some("collection-a"));
    assert_eq!(state.tree.collapsed, vec!["folder-keep".to_string()]);
    assert_eq!(state.tree.collapsed_snapshot, Some(vec!["folder-keep".to_string()]));
    assert!(state.workspace_crud_dialog.is_none());
    assert!(state.session.dirty);
}

#[test]
fn reconcile_workspace_after_deleting_active_collection_selects_fallback() {
    let mut state = build_test_midway(create_blank_draft());
    state.workspace.collections = vec![
        crud_collection("collection-a", Vec::new(), Vec::new()),
        crud_collection("collection-b", Vec::new(), Vec::new()),
    ];
    state.active_collection_id = Some("collection-a".to_string());
    state.tree.filter = "filtro viejo".to_string();
    state.tree.collapsed.push("stale-folder".to_string());

    reconcile_workspace_after_crud(
        &mut state,
        WorkspaceSnapshot {
            collections: vec![crud_collection("collection-b", Vec::new(), Vec::new())],
            environments: Vec::new(),
        },
    );

    assert_eq!(state.active_collection_id.as_deref(), Some("collection-b"));
    assert!(state.tree.filter.is_empty());
    assert!(state.tree.collapsed.is_empty());
}

#[test]
fn reconcile_that_empties_the_tab_list_opens_a_blank_tab() {
    let request = crud_saved_request("only", "collection-a", None);
    let mut state = build_test_midway(request.draft.clone());
    state.workspace.collections = vec![crud_collection("collection-a", Vec::new(), vec![request])];

    reconcile_workspace_after_crud(
        &mut state,
        WorkspaceSnapshot {
            collections: vec![crud_collection("collection-a", Vec::new(), Vec::new())],
            environments: Vec::new(),
        },
    );

    assert_eq!(state.tabs.len(), 1);
    assert!(is_draft_empty(&state.tabs[0].draft));
    assert_eq!(state.active_tab, Some(0));
}

#[test]
fn crud_delete_request_opens_the_dialog_and_confirm_asks_the_store() {
    let mut state = build_test_midway(create_blank_draft());
    state.workspace.collections = vec![crud_collection(
        "collection-a",
        Vec::new(),
        vec![crud_saved_request("request-1", "collection-a", None)],
    )];

    let _ = update_workspace_crud(
        &mut state,
        WorkspaceCrudMessage::DeleteRequestRequested("request-1".to_string()),
    );
    let dialog = state.workspace_crud_dialog.as_ref().expect("el diálogo se abre");
    assert_eq!(dialog.entity_name, "request-1");
    assert!(!dialog.busy);

    let effect = update_workspace_crud(&mut state, WorkspaceCrudMessage::Confirmed);

    assert!(state.workspace_crud_dialog.as_ref().unwrap().busy);
    match effect {
        Effect::ApplyCrud { kind, .. } => {
            assert_eq!(kind, WorkspaceCrudKind::DeleteRequest { request_id: "request-1".to_string() });
        }
        other => panic!("efecto inesperado: {other:?}"),
    }
}

#[test]
fn crud_rename_with_blank_name_is_refused() {
    let mut state = build_test_midway(create_blank_draft());
    state.workspace.collections = vec![crud_collection("collection-a", Vec::new(), Vec::new())];
    let _ = update_workspace_crud(
        &mut state,
        WorkspaceCrudMessage::RenameCollectionRequested("collection-a".to_string()),
    );
    let _ = update_workspace_crud(&mut state, WorkspaceCrudMessage::NameChanged("  ".to_string()));

    let effect = update_workspace_crud(&mut state, WorkspaceCrudMessage::Confirmed);

    assert!(matches!(effect, Effect::Nothing));
    let dialog = state.workspace_crud_dialog.as_ref().unwrap();
    assert_eq!(dialog.error.as_deref(), Some("El nombre no puede quedar vacío."));
    assert!(!dialog.busy);
}

#[test]
fn crud_create_folder_without_active_collection_shows_the_tree_error() {
    let mut state = build_test_midway(create_blank_draft());

    let _ = update_workspace_crud(
        &mut state,
        WorkspaceCrudMessage::CreateFolderRequested { parent_folder_id: None },
    );

    assert!(state.workspace_crud_dialog.is_none());
    assert_eq!(
        state.tree.error.as_deref(),
        Some("Seleccioná una colección antes de crear una carpeta.")
    );
}

#[test]
fn crud_delete_during_a_run_is_refused() {
    let mut state = build_test_midway(create_blank_draft());
    state.workspace.collections = vec![crud_collection("collection-a", Vec::new(), Vec::new())];
    state.runner = Some(midway::state::CollectionRunnerState {
        running: true,
        cancel_available: true,
        latest_progress: None,
        report: None,
        error: None,
    });

    let _ = update_workspace_crud(
        &mut state,
        WorkspaceCrudMessage::DeleteCollectionRequested("collection-a".to_string()),
    );

    assert!(state.workspace_crud_dialog.is_none());
    assert_eq!(
        state.tree.error.as_deref(),
        Some("Cancelá o esperá a que termine la ejecución antes de borrar.")
    );
}

#[test]
fn autosaved_session_restores_tabs_active_tab_theme_and_collection() {
    let mut state = Midway::from_session(SessionStoreState::default());
    let mut first = create_blank_draft();
    first.url = "https://a.example.com".to_string();
    let mut second = create_blank_draft();
    second.url = "https://b.example.com".to_string();
    state.tabs = vec![RequestTabState::from_draft(first), RequestTabState::from_draft(second)];
    state.tabs[1].active_request_tab = RequestTab::Body;
    state.active_tab = Some(1);
    state.theme_mode = ThemeMode::Light;
    state.active_collection_id = Some("c-1".to_string());

    let snapshot = midway::session::build_session_snapshot(&state);
    let restored = Midway::from_session(SessionStoreState {
        pending_restore: Some(snapshot),
        ..SessionStoreState::default()
    });

    assert_eq!(restored.tabs.len(), 2);
    for (before, after) in state.tabs.iter().zip(restored.tabs.iter()) {
        assert_eq!(after.id, before.id);
        assert_eq!(after.draft.url, before.draft.url);
        assert_eq!(after.active_request_tab, before.active_request_tab);
    }
    assert_eq!(restored.active_tab, Some(1));
    assert_eq!(restored.theme_mode, ThemeMode::Light);
    assert_eq!(restored.active_collection_id.as_deref(), Some("c-1"));
}
