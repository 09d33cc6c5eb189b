use midway::app_update::{panic_payload_message, update, Message, PanicPayload};
use midway::composer::CurlPaste;
use midway::composer_update::{update_request_composer, RequestComposerMessage};
use midway::editing::{AuthKind, KeyValueTarget};
use midway::effects::Effect;
use midway::environments::validate_environment_name;
use midway::model::{
    create_blank_draft, ApiKeyPlacement, AssertionOperator, AssertionSource, AuthConfig, BodyMode,
    FormDataFieldKind, HttpMethod, RequestDraft,
};
use midway::navigation::{update_activity_bar, update_top_bar, ActivityBarMessage, TopBarMessage};
use midway::records::{CollectionSummary, EnvironmentRecord};
use midway::session::ThemeMessage;
use midway::state::{
    MainContentFocus, Midway, RequestTab, RequestTabState, SessionStoreState, ThemeMode, TopBarMode,
    WorkspacePanelSection,
};
use midway::workspace_panel::{update_workspace, WorkspaceMessage};

fn build_test_midway(draft: RequestDraft) -> Midway {
    let mut state = Midway::from_session(SessionStoreState::default());
    state.tabs = vec![RequestTabState::from_draft(draft)];
    state.active_tab = Some(0);
    state
}

fn compose(state: &mut Midway, message: RequestComposerMessage) -> Effect {
    update_request_composer(state, message)
}

fn env(id: &str, name: &str) -> EnvironmentRecord {
    EnvironmentRecord {
        id: id.to_string(),
        name: name.to_string(),
        variables: Vec::new(),
        created_at: "2024-01-01T00:00:00Z".to_string(),
        updated_at: "2024-01-01T00:00:00Z".to_string(),
    }
}

#[test]
fn method_change_picks_the_default_config_tab_until_chosen_by_hand() {
    let mut state = build_test_midway(create_blank_draft());

    compose(&mut state, RequestComposerMessage::MethodChanged(HttpMethod::POST));
    assert_eq!(state.tabs[0].draft.method, HttpMethod::POST);
    assert_eq!(state.tabs[0].active_request_tab, RequestTab::Body);

    compose(&mut state, RequestComposerMessage::MethodChanged(HttpMethod::OPTIONS));
    assert_eq!(state.tabs[0].active_request_tab, RequestTab::Params);

    compose(&mut state, RequestComposerMessage::ConfigTabSelected(RequestTab::Auth));
    compose(&mut state, RequestComposerMessage::MethodChanged(HttpMethod::DELETE));
    assert_eq!(state.tabs[0].active_request_tab, RequestTab::Auth);
    assert!(state.tabs[0].manual_tab_override);
}

#[test]
fn auth_type_change_resets_to_the_empty_variant() {
    let mut state = build_test_midway(create_blank_draft());
    compose(&mut state, RequestComposerMessage::AuthTypeChanged(AuthKind::Basic));
    compose(&mut state, RequestComposerMessage::BasicUsernameChanged("ana".to_string()));
    compose(&mut state, RequestComposerMessage::BasicPasswordChanged("secreto".to_string()));
    assert!(matches!(
        &state.tabs[0].draft.auth,
        AuthConfig::Basic { username, password } if username == "ana" && password == "secreto"
    ));

    compose(&mut state, RequestComposerMessage::AuthTypeChanged(AuthKind::ApiKey));
    assert!(matches!(
        &state.tabs[0].draft.auth,
        AuthConfig::ApiKey { key, value, placement }
            if key.is_empty() && value.is_empty() && *placement == ApiKeyPlacement::Header
    ));

    compose(&mut state, RequestComposerMessage::BearerTokenChanged("ignorado".to_string()));
    compose(&mut state, RequestComposerMessage::ApiKeyPlacementChanged(ApiKeyPlacement::Query));
    assert!(matches!(
        &state.tabs[0].draft.auth,
        AuthConfig::ApiKey { placement, .. } if *placement == ApiKeyPlacement::Query
    ));
}

#[test]
fn key_value_rows_are_added_edited_toggled_and_removed_by_id() {
    let mut state = build_test_midway(create_blank_draft());
    compose(&mut state, RequestComposerMessage::KeyValueRowAdded(KeyValueTarget::Headers));
    compose(&mut state, RequestComposerMessage::KeyValueRowAdded(KeyValueTarget::Headers));
    let first = state.tabs[0].draft.headers[0].id.clone();
    let second = state.tabs[0].draft.headers[1].id.clone();
    assert_eq!(first.len(), 36);
    assert_ne!(first, second);
    assert!(state.tabs[0].draft.headers[0].enabled);

    compose(
        &mut state,
        RequestComposerMessage::KeyValueRowKeyChanged {
            target: KeyValueTarget::Headers,
            row_id: second.clone(),
            key: "Accept".to_string(),
        },
    );
    compose(
        &mut state,
        RequestComposerMessage::KeyValueRowValueChanged {
            target: KeyValueTarget::Headers,
            row_id: second.clone(),
            value: "application/json".to_string(),
        },
    );
    compose(
        &mut state,
        RequestComposerMessage::KeyValueRowEnabledToggled { target: KeyValueTarget::Headers, row_id: first.clone() },
    );
    assert_eq!(state.tabs[0].draft.headers[1].key, "Accept");
    assert_eq!(state.tabs[0].draft.headers[1].value, "application/json");
    assert!(!state.tabs[0].draft.headers[0].enabled);
    assert!(state.tabs[0].draft.query.is_empty());

    compose(
        &mut state,
        RequestComposerMessage::KeyValueRowRemoved { target: KeyValueTarget::Headers, row_id: first },
    );
    assert_eq!(state.tabs[0].draft.headers.len(), 1);
    assert_eq!(state.tabs[0].draft.headers[0].id, second);
}

#[test]
fn editing_an_unknown_row_changes_nothing() {
    let mut state = build_test_midway(create_blank_draft());
    compose(&mut state, RequestComposerMessage::KeyValueRowAdded(KeyValueTarget::Query));
    let before = state.tabs[0].draft.clone();

    compose(
        &mut state,
        RequestComposerMessage::KeyValueRowKeyChanged {
            target: KeyValueTarget::Query,
            row_id: "no-existe".to_string(),
            key: "x".to_string(),
        },
    );

    assert_eq!(state.tabs[0].draft, before);
}

#[test]
fn assertions_are_edited_and_a_blank_selector_becomes_none() {
    let mut state = build_test_midway(create_blank_draft());
    compose(&mut state, RequestComposerMessage::AssertionAdded);
    let id = state.tabs[0].draft.response_tests[0].id.clone();
    let added = &state.tabs[0].draft.response_tests[0];
    assert_eq!(added.source, AssertionSource::Status);
    assert_eq!(added.operator, AssertionOperator::Equals);
    assert!(added.selector.is_none());
    assert!(added.enabled);

    compose(&mut state, RequestComposerMessage::AssertionSourceChanged { assertion_id: id.clone(), source: AssertionSource::Header });
    compose(&mut state, RequestComposerMessage::AssertionOperatorChanged { assertion_id: id.clone(), operator: AssertionOperator::Exists });
    compose(&mut state, RequestComposerMessage::AssertionSelectorChanged { assertion_id: id.clone(), selector: "content-type".to_string() });
    compose(&mut state, RequestComposerMessage::AssertionNameChanged { assertion_id: id.clone(), name: "tiene tipo".to_string() });
    compose(&mut state, RequestComposerMessage::AssertionExpectedChanged { assertion_id: id.clone(), expected: "json".to_string() });
    compose(&mut state, RequestComposerMessage::AssertionEnabledToggled { assertion_id: id.clone() });
    let edited = &state.tabs[0].draft.response_tests[0];
    assert_eq!(edited.source, AssertionSource::Header);
    assert_eq!(edited.operator, AssertionOperator::Exists);
    assert_eq!(edited.selector.as_deref(), Some("content-type"));
    assert_eq!(edited.name, "tiene tipo");
    assert_eq!(edited.expected, "json");
    assert!(!edited.enabled);

    compose(&mut state, RequestComposerMessage::AssertionSelectorChanged { assertion_id: id.clone(), selector: "  \t".to_string() });
    assert!(state.tabs[0].draft.response_tests[0].selector.is_none());

    compose(&mut state, RequestComposerMessage::AssertionRemoved { assertion_id: id });
    assert!(state.tabs[0].draft.response_tests.is_empty());
}

#[test]
fn body_mode_text_and_form_fields() {
    let mut state = build_test_midway(create_blank_draft());
    compose(&mut state, RequestComposerMessage::BodyModeChanged(BodyMode::Json));
    compose(&mut state, RequestComposerMessage::BodyTextChanged("{\"a\":1}".to_string()));
    compose(&mut state, RequestComposerMessage::BodyModeChanged(BodyMode::FormData));
    assert_eq!(state.tabs[0].draft.body.mode, BodyMode::FormData);
    assert_eq!(state.tabs[0].draft.body.value, "{\"a\":1}");

    compose(&mut state, RequestComposerMessage::FormDataRowAdded);
    let id = state.tabs[0].draft.body.form_data[0].id.clone();
    state.tabs[0].draft.body.form_data[0].file_name = Some("foto.png".to_string());
    compose(&mut state, RequestComposerMessage::FormDataRowKeyChanged { row_id: id.clone(), key: "foto".to_string() });
    compose(&mut state, RequestComposerMessage::FormDataRowKindChanged { row_id: id.clone(), kind: FormDataFieldKind::File });
    let row = &state.tabs[0].draft.body.form_data[0];
    assert_eq!(row.key, "foto");
    assert_eq!(row.kind, FormDataFieldKind::File);
    assert!(row.file_name.is_none(), "cambiar el tipo descarta el nombre de archivo");

    compose(&mut state, RequestComposerMessage::FormDataRowRemoved { row_id: id });
    assert!(state.tabs[0].draft.body.form_data.is_empty());
}

#[test]
fn url_paste_routes_plain_text_failures_and_parsed_commands() {
    let mut state = build_test_midway(create_blank_draft());
    compose(
        &mut state,
        RequestComposerMessage::UrlPasted { text: "https://plain.example.com".to_string(), parsed: CurlPaste::NotCurl },
    );
    assert_eq!(state.tabs[0].draft.url, "https://plain.example.com");

    let before = state.tabs[0].draft.clone();
    compose(
        &mut state,
        RequestComposerMessage::UrlPasted { text: "curl -X".to_string(), parsed: CurlPaste::Failed("falta la URL".to_string()) },
    );
    assert_eq!(state.tabs[0].draft, before);
    assert_eq!(state.tabs[0].curl_paste_error.as_deref(), Some("falta la URL"));

    let mut parsed = create_blank_draft();
    parsed.method = HttpMethod::POST;
    parsed.url = "https://api.example.com".to_string();
    compose(
        &mut state,
        RequestComposerMessage::UrlPasted { text: "curl ...".to_string(), parsed: CurlPaste::Parsed(parsed.clone()) },
    );
    assert_eq!(state.tabs.len(), 2, "la tab activa tenía datos: el cURL abre una nueva");
    assert_eq!(state.active_tab, Some(1));
    assert_eq!(state.tabs[1].draft, parsed);

    let mut fresh = build_test_midway(create_blank_draft());
    compose(
        &mut fresh,
        RequestComposerMessage::UrlPasted { text: "curl ...".to_string(), parsed: CurlPaste::Parsed(parsed.clone()) },
    );
    assert_eq!(fresh.tabs.len(), 1, "una tab vacía se sobrescribe");
    assert_eq!(fresh.tabs[0].draft, parsed);
}

#[test]
fn environment_names_are_validated() {
    let envs = vec![env("env-1", "Dev"), env("env-2", "Prod")];

    assert_eq!(validate_environment_name(&envs, None, "  Staging "), Ok("Staging".to_string()));
    assert_eq!(
        validate_environment_name(&envs, None, "   "),
        Err("El environment necesita un nombre.".to_string())
    );
    assert_eq!(
        validate_environment_name(&envs, None, &"x".repeat(101)),
        Err("El nombre del environment no puede superar los 100 caracteres.".to_string())
    );
    assert_eq!(validate_environment_name(&envs, None, &"é".repeat(100)), Ok("é".repeat(100)));
    assert_eq!(
        validate_environment_name(&envs, None, "Dev"),
        Err("Ya existe un environment llamado \"Dev\".".to_string())
    );
    assert_eq!(validate_environment_name(&envs, Some("env-1"), "Dev"), Ok("Dev".to_string()));

    let full: Vec<EnvironmentRecord> = (0..100).map(|i| env(&format!("env-{i}"), &format!("E{i}"))).collect();
    assert_eq!(
        validate_environment_name(&full, None, "Nuevo"),
        Err("El workspace ya tiene el máximo de 100 environments.".to_string())
    );
    assert_eq!(validate_environment_name(&full, Some("env-3"), "Renombrado"), Ok("Renombrado".to_string()));
}

#[test]
fn deleting_an_environment_clears_it_from_tabs_and_the_form() {
    let mut draft = create_blank_draft();
    draft.environment_id = Some("env-1".to_string());
    let mut state = build_test_midway(draft);
    state.workspace.environments = vec![env("env-1", "Dev"), env("env-2", "Prod")];
    let _ = update_workspace(&mut state, WorkspaceMessage::EnvironmentEditRequested("env-1".to_string()));
    assert_eq!(state.workspace_panel.environment_form.name_input, "Dev");

    let effect = update_workspace(&mut state, WorkspaceMessage::EnvironmentDeleteRequested("env-1".to_string()));
    assert!(state.workspace_panel.environment_busy);
    assert!(matches!(effect, Effect::DeleteEnvironment { ref environment_id } if environment_id == "env-1"));

    let _ = update_workspace(
        &mut state,
        WorkspaceMessage::EnvironmentDeletedResult { environment_id: "env-1".to_string(), result: Ok(()) },
    );

    assert!(!state.workspace_panel.environment_busy);
    assert_eq!(state.workspace.environments.len(), 1);
    assert_eq!(state.workspace.environments[0].id, "env-2");
    assert!(state.tabs[0].draft.environment_id.is_none());
    assert!(state.workspace_panel.environment_form.editing_id.is_none());
}

#[test]
fn saving_an_environment_replaces_or_adds_it() {
    let mut state = build_test_midway(create_blank_draft());
    state.workspace.environments = vec![env("env-1", "Dev")];
    let _ = update_workspace(&mut state, WorkspaceMessage::EnvironmentNameInputChanged("QA".to_string()));

    let effect = update_workspace(&mut state, WorkspaceMessage::EnvironmentCreateOrUpdateSubmitted);
    assert!(matches!(effect, Effect::SaveEnvironment { ref environment_id, ref name, .. } if environment_id.is_none() && name == "QA"));

    let _ = update_workspace(&mut state, WorkspaceMessage::EnvironmentSavedResult(Ok(env("env-9", "QA"))));
    assert_eq!(state.workspace.environments.len(), 2);
    let _ = update_workspace(&mut state, WorkspaceMessage::EnvironmentSavedResult(Ok(env("env-1", "Desarrollo"))));
    assert_eq!(state.workspace.environments.len(), 2);
    assert_eq!(state.workspace.environments[0].name, "Desarrollo");
    assert!(state.workspace_panel.environment_form.name_input.is_empty());
}

#[test]
fn export_and_import_forms_check_their_inputs() {
    let mut state = build_test_midway(create_blank_draft());
    let effect = update_workspace(&mut state, WorkspaceMessage::ExportSubmitted);
    assert!(matches!(effect, Effect::Nothing));
    assert_eq!(
        state.workspace_panel.export_form.result_message.as_deref(),
        Some("Necesitás indicar una ruta de archivo de destino.")
    );
    assert!(state.workspace_panel.export_form.result_is_error);

    let _ = update_workspace(&mut state, WorkspaceMessage::ExportPathInputChanged(" /tmp/out.json ".to_string()));
    let _ = update_workspace(
        &mut state,
        WorkspaceMessage::ExportFormatChanged(midway::state::WorkspaceExportFormat::PostmanCollectionV21),
    );
    let effect = update_workspace(&mut state, WorkspaceMessage::ExportSubmitted);
    assert!(matches!(effect, Effect::Nothing));
    assert_eq!(
        state.workspace_panel.export_form.result_message.as_deref(),
        Some("Para exportar Postman v2.1 necesitás indicar el id de la collection.")
    );

    let _ = update_workspace(&mut state, WorkspaceMessage::ExportCollectionIdInputChanged("col-1".to_string()));
    let effect = update_workspace(&mut state, WorkspaceMessage::ExportSubmitted);
    assert!(state.workspace_panel.export_form.busy);
    assert!(matches!(effect, Effect::ExportWorkspace { ref path, ref collection_id, .. }
        if path == "/tmp/out.json" && collection_id.as_deref() == Some("col-1")));

    let effect = update_workspace(&mut state, WorkspaceMessage::ImportSubmitted);
    assert!(matches!(effect, Effect::Nothing));
    assert_eq!(
        state.workspace_panel.import_form.result_message.as_deref(),
        Some("Necesitás pegar el contenido a importar.")
    );

    let _ = update_workspace(&mut state, WorkspaceMessage::ImportPayloadInputChanged("x".repeat(10 * 1024 * 1024 + 1)));
    let effect = update_workspace(&mut state, WorkspaceMessage::ImportSubmitted);
    assert!(matches!(effect, Effect::Nothing));
    assert_eq!(
        state.workspace_panel.import_form.result_message.as_deref(),
        Some("El contenido a importar supera el límite de 10 MB.")
    );

    let _ = update_workspace(&mut state, WorkspaceMessage::ImportPayloadInputChanged("{}".to_string()));
    let effect = update_workspace(&mut state, WorkspaceMessage::ImportSubmitted);
    assert!(state.workspace_panel.import_form.busy);
    assert!(matches!(effect, Effect::ImportWorkspace { ref payload, .. } if payload == "{}"));
}

#[test]
fn history_section_loads_once() {
    let mut state = build_test_midway(create_blank_draft());
    let effect = update_workspace(&mut state, WorkspaceMessage::SectionSelected(WorkspacePanelSection::History));
    assert!(matches!(effect, Effect::LoadWorkspaceSnapshot));
    assert!(state.workspace_panel.history_loading);
    assert_eq!(state.main_content_focus, MainContentFocus::WorkspaceSection);

    let _ = update_workspace(
        &mut state,
        WorkspaceMessage::WorkspaceSnapshotLoaded(Ok(midway::records::WorkspaceSnapshot::empty())),
    );
    assert!(state.workspace_panel.history_loaded);
    let effect = update_workspace(&mut state, WorkspaceMessage::SectionSelected(WorkspacePanelSection::History));
    assert!(matches!(effect, Effect::Nothing));
}

#[test]
fn home_toggles_and_collection_selection_keep_the_composer() {
    let mut draft = create_blank_draft();
    draft.url = "https://keep.example.com".to_string();
    let mut state = build_test_midway(draft.clone());

    let _ = update_activity_bar(&mut state, ActivityBarMessage::HomePressed);
    assert_eq!(state.main_content_focus, MainContentFocus::WorkspaceSection);
    let _ = update_activity_bar(&mut state, ActivityBarMessage::HomePressed);
    assert_eq!(state.main_content_focus, MainContentFocus::RequestTab);

    state.main_content_focus = MainContentFocus::WorkspaceSection;
    state.tree.filter = "viejo".to_string();
    let _ = update_activity_bar(&mut state, ActivityBarMessage::CollectionSelected("col-9".to_string()));
    assert_eq!(state.main_content_focus, MainContentFocus::RequestTab);
    assert_eq!(state.active_collection_id.as_deref(), Some("col-9"));
    assert!(state.tree.filter.is_empty());
    assert_eq!(state.tabs[0].draft, draft);
}

#[test]
fn creating_a_collection_needs_a_name_and_activates_it() {
    let mut state = build_test_midway(create_blank_draft());
    let _ = update_activity_bar(&mut state, ActivityBarMessage::CreateCollectionPressed);
    let effect = update_activity_bar(&mut state, ActivityBarMessage::CreateCollectionConfirmed);
    assert!(matches!(effect, Effect::Nothing));
    assert_eq!(
        state.create_collection_prompt.as_ref().unwrap().error.as_deref(),
        Some("La colección necesita un nombre.")
    );

    let _ = update_activity_bar(&mut state, ActivityBarMessage::CreateCollectionNameChanged("  Pagos ".to_string()));
    let effect = update_activity_bar(&mut state, ActivityBarMessage::CreateCollectionConfirmed);
    assert!(matches!(effect, Effect::CreateCollection { ref name } if name == "Pagos"));

    let summary = CollectionSummary {
        id: "col-new".to_string(),
        name: "Pagos".to_string(),
        request_count: 0,
        created_at: "2024-01-01T00:00:00Z".to_string(),
        updated_at: "2024-01-01T00:00:00Z".to_string(),
    };
    let _ = update_activity_bar(&mut state, ActivityBarMessage::CollectionCreated(Ok(summary)));
    assert!(state.create_collection_prompt.is_none());
    assert_eq!(state.active_collection_id.as_deref(), Some("col-new"));
    assert_eq!(state.workspace.collections.len(), 1);
    assert!(state.session.dirty);
}

#[test]
fn test_mode_needs_an_active_collection() {
    let mut state = build_test_midway(create_blank_draft());
    update_top_bar(&mut state, TopBarMessage::ModeSelected(TopBarMode::Test));
    assert_eq!(state.top_bar_mode, TopBarMode::Debug);

    state.active_collection_id = Some("col-1".to_string());
    state.main_content_focus = MainContentFocus::WorkspaceSection;
    update_top_bar(&mut state, TopBarMessage::ModeSelected(TopBarMode::Test));
    assert_eq!(state.top_bar_mode, TopBarMode::Test);
    assert_eq!(state.main_content_focus, MainContentFocus::RequestTab);

    update_top_bar(&mut state, TopBarMessage::BreadcrumbRootClicked);
    assert_eq!(state.top_bar_mode, TopBarMode::Debug);
}

#[test]
fn theme_toggle_flips_the_mode_and_marks_the_session_dirty() {
    let mut state = build_test_midway(create_blank_draft());
    state.theme_mode = ThemeMode::Dark;
    state.session.dirty = false;

    let _ = update(&mut state, Message::Theme(ThemeMessage::Toggled));
    assert_eq!(state.theme_mode, ThemeMode::Light);
    assert!(state.session.dirty);

    let _ = update(&mut state, Message::Theme(ThemeMessage::Toggled));
    assert_eq!(state.theme_mode, ThemeMode::Dark);
}

#[test]
fn panic_payloads_become_messages() {
    assert_eq!(panic_payload_message(PanicPayload::StaticText("boom".to_string())), "boom");
    assert_eq!(panic_payload_message(PanicPayload::OwnedText("fallo 42".to_string())), "fallo 42");
    assert_eq!(panic_payload_message(PanicPayload::Opaque), "panic con payload no textual");
}

#[test]
fn validated_environment_save_keeps_names_unique() {
    let mut state = build_test_midway(create_blank_draft());
    state.workspace.environments = vec![env("env-1", "Dev"), env("env-2", "Prod")];

    let _ = update_workspace(&mut state, WorkspaceMessage::EnvironmentEditRequested("env-1".to_string()));
    let _ = update_workspace(&mut state, WorkspaceMessage::EnvironmentNameInputChanged(" Prod ".to_string()));
    let refused = update_workspace(&mut state, WorkspaceMessage::EnvironmentCreateOrUpdateSubmitted);
    assert!(matches!(refused, Effect::Nothing));
    assert_eq!(state.workspace.environments.len(), 2);

    let _ = update_workspace(&mut state, WorkspaceMessage::EnvironmentNameInputChanged(" Staging ".to_string()));
    let effect = update_workspace(&mut state, WorkspaceMessage::EnvironmentCreateOrUpdateSubmitted);
    let saved_name = match effect {
        Effect::SaveEnvironment { environment_id, name, .. } => {
            assert_eq!(environment_id.as_deref(), Some("env-1"));
            name
        }
        other => panic!("se esperaba SaveEnvironment, llegó {other:?}"),
    };
    assert_eq!(saved_name, "Staging");
    let _ = update_workspace(&mut state, WorkspaceMessage::EnvironmentSavedResult(Ok(env("env-1", &saved_name))));

    let names: Vec<&str> = state.workspace.environments.iter().map(|e| e.name.as_str()).collect();
    assert_eq!(names, vec!["Staging", "Prod"]);
}
