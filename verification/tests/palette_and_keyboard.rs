use midway::composer_update::{update_request_composer, RequestComposerMessage};
use midway::keyboard::{update_keyboard, KeyboardMessage};
use midway::model::{
    create_blank_draft, AuthConfig, BodyMode, HttpMethod, RequestBodyDraft, RequestDraft,
};
use midway::palette::{build_palette_items, open_saved_request_in_tab, update_palette, PaletteMessage};
use midway::records::{
    CollectionSummary, CollectionWithRequests, RequestPreview, SavedRequestRecord, WorkspaceSnapshot,
};
use midway::app_update::{update, Message};
use midway::session::ThemeMessage;
use midway::state::{Midway, RequestTabState, SessionStoreState, ThemeMode, WorkspacePanelSection};
use midway::workspace_panel::{update_workspace, WorkspaceMessage};

fn build_test_midway(draft: RequestDraft) -> Midway {
    let mut state = Midway::from_session(SessionStoreState::default());
    state.tabs = vec![RequestTabState::from_draft(draft)];
    state.active_tab = Some(0);
    state
}

fn workspace_snapshot_with_one_saved_request() -> (WorkspaceSnapshot, String) {
    let request_id = "request-1".to_string();
    let draft = RequestDraft {
        id: Some(request_id.clone()),
        name: "Obtener usuario".to_string(),
        method: HttpMethod::GET,
        url: "https://api.ejemplo.com/users/1".to_string(),
        query: Vec::new(),
        headers: Vec::new(),
        auth: AuthConfig::NoAuth,
        body: RequestBodyDraft { mode: BodyMode::NoBody, value: String::new(), form_data: Vec::new() },
        timeout_ms: 30_000,
        environment_id: None,
        response_tests: Vec::new(),
    };
    let snapshot = WorkspaceSnapshot {
        collections: vec![CollectionWithRequests {
            collection: CollectionSummary {
                id: "collection-1".to_string(),
                name: "Usuarios".to_string(),
                request_count: 1,
                created_at: "2024-01-01T00:00:00Z".to_string(),
                updated_at: "2024-01-01T00:00:00Z".to_string(),
            },
            folders: Vec::new(),
            requests: vec![SavedRequestRecord {
                id: request_id.clone(),
                collection_id: "collection-1".to_string(),
                folder_id: None,
                name: "Obtener usuario".to_string(),
                draft,
                created_at: "2024-01-01T00:00:00Z".to_string(),
                updated_at: "2024-01-01T00:00:00Z".to_string(),
            }],
        }],
        environments: Vec::new(),
    };
    (snapshot, request_id)
}

fn dummy_request_preview() -> RequestPreview {
    RequestPreview {
        method: HttpMethod::GET,
        url: "https://ejemplo.com".to_string(),
        headers: Vec::new(),
        body: None,
    }
}

#[test]
fn palette_toggled_opens_palette_with_blank_query() {
    let mut midway = build_test_midway(create_blank_draft());
    midway.palette.query = "restos-de-una-busqueda-anterior".to_string();

    update_palette(&mut midway, PaletteMessage::Toggled);

    assert!(midway.palette.is_open);
    assert!(midway.palette.query.is_empty());
}

#[test]
fn palette_toggled_closes_an_already_open_palette() {
    let mut midway = build_test_midway(create_blank_draft());
    midway.palette.is_open = true;
    midway.palette.query = "algo".to_string();

    update_palette(&mut midway, PaletteMessage::Toggled);

    assert!(!midway.palette.is_open);
    assert!(midway.palette.query.is_empty());
}

#[test]
fn palette_item_selected_new_request_action_opens_blank_tab_and_closes_palette() {
    let mut midway = build_test_midway(create_blank_draft());
    midway.palette.is_open = true;
    midway.palette.query = "nuevo".to_string();
    let tabs_before = midway.tabs.len();

    update_palette(
        &mut midway,
        PaletteMessage::ItemSelected { item_id: "action:new-request".to_string() },
    );

    assert_eq!(midway.tabs.len(), tabs_before + 1);
    assert_eq!(midway.active_tab, Some(midway.tabs.len() - 1));
    assert!(!midway.palette.is_open);
    assert!(midway.palette.query.is_empty());
}

#[test]
fn palette_item_selected_request_opens_saved_request_in_new_tab() {
    let mut midway = build_test_midway(create_blank_draft());
    let (snapshot, request_id) = workspace_snapshot_with_one_saved_request();
    midway.workspace = snapshot;
    midway.palette.is_open = true;

    update_palette(
        &mut midway,
        PaletteMessage::ItemSelected { item_id: format!("request:{request_id}") },
    );

    assert!(!midway.palette.is_open);
    assert!(midway.palette.query.is_empty());

    let active_index = midway.active_tab.expect("debe haber una tab activa tras abrir el request");
    let active_tab = &midway.tabs[active_index];
    assert_eq!(active_tab.draft.url, "https://api.ejemplo.com/users/1");
    assert_eq!(
        active_tab.saved_draft.as_ref().and_then(|draft| draft.id.clone()),
        Some(request_id)
    );
}

#[test]
fn palette_item_selected_request_reuses_already_open_tab() {
    let mut midway = build_test_midway(create_blank_draft());
    let (snapshot, request_id) = workspace_snapshot_with_one_saved_request();
    midway.workspace = snapshot;

    open_saved_request_in_tab(&mut midway, &request_id);
    let tabs_after_first_open = midway.tabs.len();

    midway.tabs.push(RequestTabState::blank());
    midway.active_tab = Some(midway.tabs.len() - 1);

    open_saved_request_in_tab(&mut midway, &request_id);

    assert_eq!(
        midway.tabs.len(),
        tabs_after_first_open + 1,
        "no debe crear una segunda tab para el mismo request"
    );
    let active_index = midway.active_tab.expect("debe haber una tab activa");
    assert_eq!(
        midway.tabs[active_index].saved_draft.as_ref().and_then(|draft| draft.id.clone()),
        Some(request_id)
    );
}

#[test]
fn palette_item_selected_with_unknown_id_closes_palette_without_mutating_tabs() {
    let mut midway = build_test_midway(create_blank_draft());
    midway.palette.is_open = true;
    let tabs_before = midway.tabs.len();
    let active_tab_before = midway.active_tab;

    update_palette(
        &mut midway,
        PaletteMessage::ItemSelected { item_id: "request:no-existe".to_string() },
    );

    assert_eq!(midway.tabs.len(), tabs_before);
    assert_eq!(midway.active_tab, active_tab_before);
    assert!(!midway.palette.is_open);
}

#[test]
fn palette_dismissed_closes_palette_without_executing_any_action() {
    let mut midway = build_test_midway(create_blank_draft());
    midway.palette.is_open = true;
    midway.palette.query = "algo".to_string();
    let tabs_before = midway.tabs.len();

    update_palette(&mut midway, PaletteMessage::Dismissed);

    assert!(!midway.palette.is_open);
    assert!(midway.palette.query.is_empty());
    assert_eq!(midway.tabs.len(), tabs_before);
}

#[test]
fn palette_query_changed_is_stored() {
    let mut midway = build_test_midway(create_blank_draft());
    midway.palette.is_open = true;

    update_palette(&mut midway, PaletteMessage::QueryChanged("nuevo".to_string()));

    assert_eq!(midway.palette.query, "nuevo");
}

#[test]
fn palette_items_list_the_action_then_each_collection_and_its_requests() {
    let mut midway = build_test_midway(create_blank_draft());
    let (snapshot, _) = workspace_snapshot_with_one_saved_request();
    midway.workspace = snapshot;

    let items = build_palette_items(&midway);

    assert_eq!(items.len(), 3);
    assert_eq!(items[0].id, "action:new-request");
    assert_eq!(items[0].title, "Nuevo request");
    assert_eq!(items[1].id, "collection:collection-1");
    assert_eq!(items[1].title, "Usuarios");
    assert_eq!(items[1].subtitle.as_deref(), Some("1 request(s)"));
    assert_eq!(items[1].section, "Colección");
    assert_eq!(items[2].id, "request:request-1");
    assert_eq!(items[2].subtitle.as_deref(), Some("GET https://api.ejemplo.com/users/1"));
    assert_eq!(
        items[2].keywords,
        vec!["GET", "Obtener usuario", "https://api.ejemplo.com/users/1", "Usuarios"]
    );
}

#[test]
fn palette_collection_item_opens_data_section_with_its_id() {
    let mut midway = build_test_midway(create_blank_draft());
    midway.workspace_panel.collapsed = true;

    update_palette(
        &mut midway,
        PaletteMessage::ItemSelected { item_id: "collection:collection-9".to_string() },
    );

    assert!(!midway.workspace_panel.collapsed);
    assert_eq!(midway.workspace_panel.active_section, WorkspacePanelSection::Data);
    assert_eq!(midway.workspace_panel.export_form.collection_id_input, "collection-9");
}

#[test]
fn keyboard_ctrl_enter_send_pressed_marks_active_tab_as_sending() {
    let mut midway = build_test_midway(create_blank_draft());
    assert!(!midway.tabs[0].sending);

    let effect = update_request_composer(&mut midway, RequestComposerMessage::SendPressed);

    assert!(midway.tabs[0].sending, "Ctrl+Enter debe disparar el envío de la tab activa");
    assert!(midway.tabs[0].execution_id.is_some());
    match effect {
        midway::effects::Effect::SendRequest { tab_id, execution_id, .. } => {
            assert_eq!(tab_id, midway.tabs[0].id);
            assert_eq!(Some(execution_id), midway.tabs[0].execution_id);
        }
        other => panic!("efecto inesperado: {other:?}"),
    }
}

#[test]
fn keyboard_ctrl_shift_p_settings_pressed_closes_an_already_open_preview() {
    let mut midway = build_test_midway(create_blank_draft());
    midway.tabs[0].preview = Some(dummy_request_preview());

    let _ = update_request_composer(&mut midway, RequestComposerMessage::SettingsPressed);

    assert!(midway.tabs[0].preview.is_none(), "Ctrl+Shift+P debe cerrar el preview ya abierto");
}

#[test]
fn keyboard_ctrl_dot_toggle_collapsed_flips_workspace_panel_collapsed() {
    let mut midway = build_test_midway(create_blank_draft());
    assert!(!midway.workspace_panel.collapsed);

    let _ = update_workspace(&mut midway, WorkspaceMessage::ToggleCollapsed);
    assert!(midway.workspace_panel.collapsed, "Ctrl+. debe colapsar el panel cuando estaba expandido");

    let _ = update_workspace(&mut midway, WorkspaceMessage::ToggleCollapsed);
    assert!(!midway.workspace_panel.collapsed, "una segunda pulsación debe expandirlo de nuevo");
}

#[test]
fn keyboard_save_requested_opens_save_dialog_for_active_tab() {
    let mut midway = build_test_midway(create_blank_draft());
    let expected_tab_id = midway.tabs[0].id.clone();

    let _ = update_keyboard(&mut midway, KeyboardMessage::SaveRequested);

    let prompt = midway.save_request_prompt.as_ref().expect("Ctrl+S debe abrir el diálogo de guardado");
    assert_eq!(prompt.tab_id, expected_tab_id);
    assert_eq!(prompt.name_input, "Nueva petición");
}

#[test]
fn keyboard_save_requested_without_active_tab_is_a_no_op() {
    let mut midway = build_test_midway(create_blank_draft());
    midway.active_tab = None;

    let _ = update_keyboard(&mut midway, KeyboardMessage::SaveRequested);

    assert!(midway.save_request_prompt.is_none());
}

#[test]
fn keyboard_new_blank_tab_requested_opens_and_activates_blank_tab() {
    let mut midway = build_test_midway(create_blank_draft());
    let tabs_before = midway.tabs.len();

    let _ = update_keyboard(&mut midway, KeyboardMessage::NewBlankTabRequested);

    assert_eq!(midway.tabs.len(), tabs_before + 1);
    assert_eq!(midway.active_tab, Some(midway.tabs.len() - 1));
    assert!(midway.session.dirty, "abrir una tab nueva debe marcar la sesión como dirty");
}

#[test]
fn keyboard_close_active_tab_shortcut_closes_the_active_tab() {
    let mut midway = build_test_midway(create_blank_draft());
    midway.tabs.push(RequestTabState::blank());
    let active_tab_id = midway.tabs[1].id.clone();
    midway.active_tab = Some(1);

    let _ = update_keyboard(&mut midway, KeyboardMessage::CloseActiveTabShortcut);

    assert_eq!(midway.tabs.len(), 1);
    assert!(!midway.tabs.iter().any(|tab| tab.id == active_tab_id));
    assert_eq!(midway.closed_tabs.front().unwrap().id, active_tab_id);
}

#[test]
fn keyboard_close_active_tab_shortcut_with_no_active_tab_is_a_no_op() {
    let mut midway = build_test_midway(create_blank_draft());
    midway.active_tab = None;
    let tabs_before = midway.tabs.len();

    let _ = update_keyboard(&mut midway, KeyboardMessage::CloseActiveTabShortcut);

    assert_eq!(midway.tabs.len(), tabs_before);
    assert!(midway.closed_tabs.is_empty());
}

#[test]
fn keyboard_go_to_tab_shortcut_activates_tab_at_index() {
    let mut midway = build_test_midway(create_blank_draft());
    midway.tabs.push(RequestTabState::blank());
    midway.tabs.push(RequestTabState::blank());
    midway.active_tab = Some(0);

    let _ = update_keyboard(&mut midway, KeyboardMessage::GoToTabShortcut { index: 2 });

    assert_eq!(midway.active_tab, Some(2));
}

#[test]
fn keyboard_go_to_tab_shortcut_out_of_range_is_a_no_op() {
    let mut midway = build_test_midway(create_blank_draft());
    midway.tabs.push(RequestTabState::blank());
    midway.active_tab = Some(0);

    let _ = update_keyboard(&mut midway, KeyboardMessage::GoToTabShortcut { index: 8 });

    assert_eq!(midway.active_tab, Some(0));
}

#[test]
fn keyboard_escape_closes_palette_first_when_both_palette_and_preview_are_open() {
    let mut midway = build_test_midway(create_blank_draft());
    midway.palette.is_open = true;
    midway.palette.query = "algo".to_string();
    midway.tabs[0].preview = Some(dummy_request_preview());

    let _ = update_keyboard(&mut midway, KeyboardMessage::EscapePressed);

    assert!(!midway.palette.is_open, "Esc debe cerrar el palette primero");
    assert!(midway.palette.query.is_empty());
    assert!(midway.tabs[0].preview.is_some(), "el preview no debe cerrarse en esta pulsación de Esc");
}

#[test]
fn keyboard_escape_closes_active_tab_preview_when_palette_is_closed() {
    let mut midway = build_test_midway(create_blank_draft());
    midway.palette.is_open = false;
    midway.tabs[0].preview = Some(dummy_request_preview());

    let _ = update_keyboard(&mut midway, KeyboardMessage::EscapePressed);

    assert!(midway.tabs[0].preview.is_none(), "Esc debe cerrar el preview cuando el palette está cerrado");
}

#[test]
fn keyboard_escape_with_nothing_open_is_a_no_op() {
    let mut midway = build_test_midway(create_blank_draft());
    midway.palette.is_open = false;
    midway.tabs[0].preview = None;

    let _ = update_keyboard(&mut midway, KeyboardMessage::EscapePressed);

    assert!(!midway.palette.is_open);
    assert!(midway.tabs[0].preview.is_none());
}

#[test]
fn keyboard_escape_closes_only_the_palette_when_other_prompts_are_open() {
    let mut midway = build_test_midway(create_blank_draft());
    midway.palette.is_open = true;
    midway.create_collection_prompt = Some(midway::state::CreateCollectionPromptState {
        name_input: "x".to_string(),
        error: None,
    });

    let _ = update_keyboard(&mut midway, KeyboardMessage::EscapePressed);

    assert!(!midway.palette.is_open);
    assert!(midway.create_collection_prompt.is_some());
}

#[test]
fn keyboard_escape_with_nothing_open_leaves_other_prompts_alone() {
    let mut midway = build_test_midway(create_blank_draft());
    midway.create_collection_prompt = Some(midway::state::CreateCollectionPromptState {
        name_input: "x".to_string(),
        error: None,
    });

    let _ = update_keyboard(&mut midway, KeyboardMessage::EscapePressed);

    assert!(midway.create_collection_prompt.is_some());
    assert!(!midway.palette.is_open);
}

fn toggle_once(initial: ThemeMode) -> (ThemeMode, bool) {
    let mut state = build_test_midway(create_blank_draft());
    state.theme_mode = initial;
    state.session.dirty = false;
    let _effect = update(&mut state, Message::Theme(ThemeMessage::Toggled));
    (state.theme_mode, state.session.dirty)
}

#[test]
fn toggled_from_dark_yields_light_and_marks_session_dirty() {
    let (mode, dirty) = toggle_once(ThemeMode::Dark);
    assert_eq!(mode, ThemeMode::Light);
    assert!(dirty, "el toggle de tema debe marcar la sesión como sucia");
}

#[test]
fn toggled_from_light_yields_dark_and_marks_session_dirty() {
    let (mode, dirty) = toggle_once(ThemeMode::Light);
    assert_eq!(mode, ThemeMode::Dark);
    assert!(dirty, "el toggle de tema debe marcar la sesión como sucia");
}

#[test]
fn toggled_twice_returns_to_initial_mode_and_leaves_session_dirty() {
    let initial = ThemeMode::default();
    let mut state = build_test_midway(create_blank_draft());
    state.theme_mode = initial;
    state.session.dirty = false;

    let _first = update(&mut state, Message::Theme(ThemeMessage::Toggled));
    let _second = update(&mut state, Message::Theme(ThemeMessage::Toggled));

    assert_eq!(state.theme_mode, initial);
    assert!(state.session.dirty);
}
