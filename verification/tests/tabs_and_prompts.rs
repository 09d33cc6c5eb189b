use midway::composer_update::{update_request_composer, RequestComposerMessage};
use midway::model::{create_blank_draft, RequestDraft};
use midway::records::{AssertionResult, ResponseEnvelope, ResponseOutcome};
use midway::state::{Midway, RequestTabState, SessionStoreState, CLOSED_TABS_LIMIT};
use midway::tabs::{evict_inactive_response_bodies, SavedRequestSaveOutcome};

fn build_test_midway(draft: RequestDraft) -> Midway {
    let mut state = Midway::from_session(SessionStoreState::default());
    state.tabs = vec![RequestTabState::from_draft(draft)];
    state.active_tab = Some(0);
    state
}

fn build_test_response(status: u16, body_text: &str, final_url: &str) -> ResponseEnvelope {
    ResponseEnvelope {
        status,
        status_text: "OK".to_string(),
        headers: Vec::new(),
        body_text: body_text.to_string(),
        duration_ms: 10,
        size_bytes: body_text.len() as u64,
        final_url: final_url.to_string(),
        received_at: "2024-01-01T00:00:00Z".to_string(),
        truncated: false,
        body_evicted: false,
        total_size_bytes: None,
    }
}

fn tab_with_response_body(body: &str) -> RequestTabState {
    let mut tab = RequestTabState::blank();
    tab.response = Some(ResponseOutcome {
        response: build_test_response(200, body, "https://example.com"),
        assertions: Vec::<AssertionResult>::new(),
    });
    tab
}

#[test]
fn eviction_frees_other_tabs_bodies_and_keeps_the_active_one() {
    let mut tabs = vec![
        tab_with_response_body("body-de-la-tab-0"),
        tab_with_response_body("body-de-la-tab-1"),
        tab_with_response_body("body-de-la-tab-2"),
    ];

    evict_inactive_response_bodies(&mut tabs, 1);

    let kept = tabs[1].response.as_ref().expect("la tab 1 tiene respuesta");
    assert_eq!(kept.response.body_text, "body-de-la-tab-1");
    assert!(!kept.response.body_evicted);

    for index in [0usize, 2] {
        let evicted = tabs[index]
            .response
            .as_ref()
            .expect("la tab conserva la metadata de su respuesta");
        assert!(
            evicted.response.body_text.is_empty(),
            "el body de la tab {index} debería liberarse"
        );
        assert!(evicted.response.body_evicted);
    }
}

#[test]
fn eviction_preserves_response_metadata_and_original_size() {
    let body = "x".repeat(4096);
    let mut tabs = vec![tab_with_response_body(&body), tab_with_response_body("otro")];

    evict_inactive_response_bodies(&mut tabs, 1);

    let evicted = tabs[0].response.as_ref().expect("metadata preservada");
    assert_eq!(evicted.response.status, 200);
    assert_eq!(evicted.response.duration_ms, 10);
    assert_eq!(evicted.response.final_url, "https://example.com");
    assert_eq!(
        evicted.response.total_size_bytes,
        Some(4096),
        "debe recordar cuánto pesaba el body liberado"
    );
}

#[test]
fn eviction_ignores_tabs_without_response() {
    let mut tabs = vec![RequestTabState::blank(), tab_with_response_body("activo")];

    evict_inactive_response_bodies(&mut tabs, 1);

    assert!(tabs[0].response.is_none());
    assert_eq!(tabs[1].response.as_ref().unwrap().response.body_text, "activo");
}

#[test]
fn send_completed_stores_the_response_and_evicts_the_other_bodies() {
    let mut midway = build_test_midway(create_blank_draft());
    midway.tabs.push(tab_with_response_body("viejo"));
    let target = midway.tabs[0].id.clone();
    midway.tabs[0].sending = true;

    let _ = update_request_composer(
        &mut midway,
        RequestComposerMessage::SendCompleted {
            tab_id: target,
            result: Ok(ResponseOutcome {
                response: build_test_response(201, "nuevo", "https://example.com/x"),
                assertions: Vec::new(),
            }),
        },
    );

    assert!(!midway.tabs[0].sending);
    assert_eq!(midway.tabs[0].response.as_ref().unwrap().response.body_text, "nuevo");
    let other = midway.tabs[1].response.as_ref().unwrap();
    assert!(other.response.body_text.is_empty());
    assert!(other.response.body_evicted);
    assert_eq!(other.response.total_size_bytes, Some(5));
}

#[test]
fn send_completed_error_is_shown_on_its_tab_only() {
    let mut midway = build_test_midway(create_blank_draft());
    midway.tabs.push(tab_with_response_body("se queda"));
    let target = midway.tabs[0].id.clone();

    let _ = update_request_composer(
        &mut midway,
        RequestComposerMessage::SendCompleted { tab_id: target, result: Err("sin red".to_string()) },
    );

    assert_eq!(midway.tabs[0].send_error.as_deref(), Some("sin red"));
    assert_eq!(midway.tabs[1].response.as_ref().unwrap().response.body_text, "se queda");
}

#[test]
fn closing_a_tab_pushes_it_to_the_front_of_closed_tabs() {
    let mut midway = build_test_midway(create_blank_draft());
    let closed_id = midway.tabs[0].id.clone();
    midway.tabs.push(RequestTabState::blank());
    midway.active_tab = Some(1);

    let _ = update_request_composer(
        &mut midway,
        RequestComposerMessage::TabClosed { tab_id: closed_id.clone() },
    );

    assert_eq!(midway.tabs.len(), 1, "la tab cerrada debe salir de `tabs`");
    assert!(!midway.tabs.iter().any(|tab| tab.id == closed_id));
    assert_eq!(midway.closed_tabs.len(), 1);
    assert_eq!(midway.closed_tabs.front().unwrap().id, closed_id);
    assert!(midway.session.dirty, "cerrar una tab debe marcar la sesión como dirty");
}

#[test]
fn closing_more_than_limit_tabs_keeps_stack_bounded_evicting_oldest() {
    let mut midway = build_test_midway(create_blank_draft());
    let num_extra_tabs = CLOSED_TABS_LIMIT + 5;
    for _ in 0..num_extra_tabs {
        midway.tabs.push(RequestTabState::blank());
    }

    let mut closed_ids_in_order = Vec::new();
    while midway.tabs.len() > 1 {
        let tab_id = midway.tabs[0].id.clone();
        closed_ids_in_order.push(tab_id.clone());
        midway.active_tab = Some(0);
        let _ = update_request_composer(&mut midway, RequestComposerMessage::TabClosed { tab_id });
    }

    assert_eq!(midway.closed_tabs.len(), CLOSED_TABS_LIMIT);

    let most_recently_closed = closed_ids_in_order.last().unwrap();
    assert_eq!(&midway.closed_tabs.front().unwrap().id, most_recently_closed);

    let expected_oldest_surviving =
        &closed_ids_in_order[closed_ids_in_order.len() - CLOSED_TABS_LIMIT];
    assert_eq!(&midway.closed_tabs.back().unwrap().id, expected_oldest_surviving);

    for discarded_id in &closed_ids_in_order[..5] {
        assert!(
            !midway.closed_tabs.iter().any(|snapshot| &snapshot.id == discarded_id),
            "los primeros cierres deben haber sido descartados del stack acotado"
        );
    }
}

#[test]
fn reopening_pops_most_recently_closed_tab_and_activates_it() {
    let mut midway = build_test_midway(create_blank_draft());
    midway.tabs.push(RequestTabState::blank());
    let tab_id_to_close = midway.tabs[1].id.clone();
    midway.active_tab = Some(1);
    let _ = update_request_composer(
        &mut midway,
        RequestComposerMessage::TabClosed { tab_id: tab_id_to_close.clone() },
    );
    let tabs_before_reopen = midway.tabs.len();

    let _ = update_request_composer(&mut midway, RequestComposerMessage::ClosedTabReopened);

    assert_eq!(midway.tabs.len(), tabs_before_reopen + 1);
    assert!(midway.closed_tabs.is_empty());
    let active_index = midway.active_tab.expect("debe haber una tab activa tras reabrir");
    assert_eq!(active_index, midway.tabs.len() - 1);
    assert_eq!(midway.tabs[active_index].id, tab_id_to_close);
}

#[test]
fn reopening_with_empty_closed_tabs_is_a_no_op() {
    let mut midway = build_test_midway(create_blank_draft());
    assert!(midway.closed_tabs.is_empty());
    let tabs_before = midway.tabs.len();
    let active_tab_before = midway.active_tab;

    let _ = update_request_composer(&mut midway, RequestComposerMessage::ClosedTabReopened);

    assert_eq!(midway.tabs.len(), tabs_before);
    assert_eq!(midway.active_tab, active_tab_before);
    assert!(midway.closed_tabs.is_empty());
}

#[test]
fn lifo_order_is_preserved_across_close_and_reopen_cycles() {
    let mut midway = build_test_midway(create_blank_draft());
    midway.tabs.push(RequestTabState::blank());
    let tab_a_id = midway.tabs[0].id.clone();
    let tab_b_id = midway.tabs[1].id.clone();

    midway.active_tab = Some(0);
    let _ = update_request_composer(
        &mut midway,
        RequestComposerMessage::TabClosed { tab_id: tab_a_id.clone() },
    );
    midway.active_tab = Some(0);
    let _ = update_request_composer(
        &mut midway,
        RequestComposerMessage::TabClosed { tab_id: tab_b_id.clone() },
    );

    assert_eq!(midway.closed_tabs.len(), 2);
    assert_eq!(midway.closed_tabs.front().unwrap().id, tab_b_id, "B se cerró más recientemente que A");

    let _ = update_request_composer(&mut midway, RequestComposerMessage::ClosedTabReopened);

    let active_index = midway.active_tab.expect("debe haber una tab activa tras reabrir");
    assert_eq!(midway.tabs[active_index].id, tab_b_id, "reabrir debe traer B, no A");
    assert_eq!(midway.closed_tabs.len(), 1);
    assert_eq!(midway.closed_tabs.front().unwrap().id, tab_a_id, "A sigue en el stack");
}

#[test]
fn closing_the_active_middle_tab_activates_the_one_that_took_its_place() {
    let mut midway = build_test_midway(create_blank_draft());
    midway.tabs.push(RequestTabState::blank());
    midway.tabs.push(RequestTabState::blank());
    let third = midway.tabs[2].id.clone();
    let middle = midway.tabs[1].id.clone();
    midway.active_tab = Some(1);

    let _ = update_request_composer(&mut midway, RequestComposerMessage::TabClosed { tab_id: middle });

    assert_eq!(midway.active_tab, Some(1));
    assert_eq!(midway.tabs[1].id, third);
}

#[test]
fn closing_a_tab_before_the_active_one_shifts_the_active_index() {
    let mut midway = build_test_midway(create_blank_draft());
    midway.tabs.push(RequestTabState::blank());
    let first = midway.tabs[0].id.clone();
    let second = midway.tabs[1].id.clone();
    midway.active_tab = Some(1);

    let _ = update_request_composer(&mut midway, RequestComposerMessage::TabClosed { tab_id: first });

    assert_eq!(midway.active_tab, Some(0));
    assert_eq!(midway.tabs[0].id, second);
}

#[test]
fn close_then_reopen_restores_draft_and_config_tab() {
    let mut draft = create_blank_draft();
    draft.url = "https://example.com/keep".to_string();
    let mut midway = build_test_midway(create_blank_draft());
    let mut tab = RequestTabState::from_draft(draft.clone());
    tab.saved_draft = Some(draft.clone());
    tab.active_request_tab = midway::state::RequestTab::Headers;
    let id = tab.id.clone();
    midway.tabs.push(tab);

    let _ = update_request_composer(&mut midway, RequestComposerMessage::TabClosed { tab_id: id.clone() });
    let _ = update_request_composer(&mut midway, RequestComposerMessage::ClosedTabReopened);

    let last = midway.tabs.last().unwrap();
    assert_eq!(last.id, id);
    assert_eq!(last.draft, draft);
    assert_eq!(last.active_request_tab, midway::state::RequestTab::Headers);
    assert!(last.saved_draft.is_none());
}

#[test]
fn closing_a_dirty_tab_shows_the_unsaved_changes_prompt_instead_of_closing() {
    let mut draft = create_blank_draft();
    draft.url = "https://example.com/unsaved".to_string();
    let mut midway = build_test_midway(draft);
    let tab_id = midway.tabs[0].id.clone();

    let _ = update_request_composer(&mut midway, RequestComposerMessage::TabClosed { tab_id: tab_id.clone() });

    assert_eq!(midway.tabs.len(), 1, "la tab dirty no debe cerrarse todavía");
    assert!(midway.closed_tabs.is_empty(), "no debe empujarse al stack de tabs cerradas todavía");
    let prompt = midway
        .unsaved_changes_prompt
        .as_ref()
        .expect("debe mostrarse el aviso de unsaved changes");
    assert_eq!(prompt.tab_id, tab_id);
    assert!(!prompt.saving);
    assert!(prompt.error.is_none());
}

#[test]
fn closing_a_clean_tab_closes_immediately_without_showing_the_prompt() {
    let mut midway = build_test_midway(create_blank_draft());
    let tab_id = midway.tabs[0].id.clone();

    let _ = update_request_composer(&mut midway, RequestComposerMessage::TabClosed { tab_id: tab_id.clone() });

    assert!(midway.tabs.is_empty(), "la tab limpia debe cerrarse de inmediato");
    assert_eq!(midway.closed_tabs.len(), 1);
    assert_eq!(midway.closed_tabs.front().unwrap().id, tab_id);
    assert!(midway.unsaved_changes_prompt.is_none(), "no debe mostrarse ningún aviso para una tab limpia");
}

#[test]
fn closing_a_tab_with_draft_matching_saved_draft_closes_immediately() {
    let mut midway = build_test_midway(create_blank_draft());
    let saved = midway.tabs[0].draft.clone();
    midway.tabs[0].saved_draft = Some(saved);
    let tab_id = midway.tabs[0].id.clone();

    let _ = update_request_composer(&mut midway, RequestComposerMessage::TabClosed { tab_id: tab_id.clone() });

    assert!(midway.tabs.is_empty());
    assert!(midway.unsaved_changes_prompt.is_none());
}

#[test]
fn closing_a_tab_with_draft_differing_from_saved_draft_shows_the_prompt() {
    let mut midway = build_test_midway(create_blank_draft());
    let saved = midway.tabs[0].draft.clone();
    midway.tabs[0].saved_draft = Some(saved);
    midway.tabs[0].draft.url = "https://example.com/edited-after-save".to_string();
    let tab_id = midway.tabs[0].id.clone();

    let _ = update_request_composer(&mut midway, RequestComposerMessage::TabClosed { tab_id: tab_id.clone() });

    assert_eq!(midway.tabs.len(), 1);
    assert!(midway.unsaved_changes_prompt.is_some());
}

#[test]
fn unsaved_changes_cancel_leaves_the_tab_open_and_unchanged() {
    let mut draft = create_blank_draft();
    draft.url = "https://example.com/unsaved".to_string();
    let mut midway = build_test_midway(draft.clone());
    let tab_id = midway.tabs[0].id.clone();
    let _ = update_request_composer(&mut midway, RequestComposerMessage::TabClosed { tab_id: tab_id.clone() });
    assert!(midway.unsaved_changes_prompt.is_some(), "precondición: el aviso debe estar abierto");

    let _ = update_request_composer(&mut midway, RequestComposerMessage::UnsavedChangesCancelRequested);

    assert!(midway.unsaved_changes_prompt.is_none(), "Cancelar debe descartar el aviso");
    assert_eq!(midway.tabs.len(), 1, "Cancelar no debe cerrar la tab");
    assert_eq!(midway.tabs[0].id, tab_id);
    assert_eq!(midway.tabs[0].draft, draft, "Cancelar no debe mutar el draft");
    assert!(midway.tabs[0].saved_draft.is_none(), "Cancelar no debe mutar saved_draft");
}

#[test]
fn unsaved_changes_discard_closes_the_tab_without_persisting() {
    let mut draft = create_blank_draft();
    draft.url = "https://example.com/unsaved".to_string();
    let mut midway = build_test_midway(draft);
    let tab_id = midway.tabs[0].id.clone();
    let _ = update_request_composer(&mut midway, RequestComposerMessage::TabClosed { tab_id: tab_id.clone() });
    assert!(midway.unsaved_changes_prompt.is_some(), "precondición: el aviso debe estar abierto");

    let _ = update_request_composer(&mut midway, RequestComposerMessage::UnsavedChangesDiscardRequested);

    assert!(midway.unsaved_changes_prompt.is_none(), "Descartar debe cerrar el aviso");
    assert!(midway.tabs.is_empty(), "Descartar debe cerrar la tab");
    assert_eq!(midway.closed_tabs.len(), 1);
    assert_eq!(midway.closed_tabs.front().unwrap().id, tab_id);
}

#[test]
fn unsaved_changes_save_completed_success_sets_saved_draft_and_closes_the_tab() {
    let mut draft = create_blank_draft();
    draft.url = "https://example.com/unsaved".to_string();
    let mut midway = build_test_midway(draft);
    let tab_id = midway.tabs[0].id.clone();
    let _ = update_request_composer(&mut midway, RequestComposerMessage::TabClosed { tab_id: tab_id.clone() });
    assert!(midway.unsaved_changes_prompt.is_some(), "precondición: el aviso debe estar abierto");

    let mut persisted_draft = midway.tabs[0].draft.clone();
    persisted_draft.id = Some("assigned-by-save-request".to_string());

    let _ = update_request_composer(
        &mut midway,
        RequestComposerMessage::UnsavedChangesSaveCompleted(Ok(SavedRequestSaveOutcome {
            tab_id: tab_id.clone(),
            saved_draft: persisted_draft.clone(),
        })),
    );

    assert!(midway.unsaved_changes_prompt.is_none(), "Guardar exitoso debe descartar el aviso");
    assert!(midway.tabs.is_empty(), "Guardar exitoso debe cerrar la tab");
    assert_eq!(midway.closed_tabs.len(), 1);
    assert_eq!(midway.closed_tabs.front().unwrap().id, tab_id);
    assert_eq!(midway.closed_tabs.front().unwrap().draft, persisted_draft);
}

#[test]
fn unsaved_changes_save_completed_error_keeps_the_prompt_open_without_closing_the_tab() {
    let mut draft = create_blank_draft();
    draft.url = "https://example.com/unsaved".to_string();
    let mut midway = build_test_midway(draft.clone());
    let tab_id = midway.tabs[0].id.clone();
    let _ = update_request_composer(&mut midway, RequestComposerMessage::TabClosed { tab_id: tab_id.clone() });
    let _ = update_request_composer(&mut midway, RequestComposerMessage::UnsavedChangesSaveRequested);

    let _ = update_request_composer(
        &mut midway,
        RequestComposerMessage::UnsavedChangesSaveCompleted(Err("fallo simulado de guardado".to_string())),
    );

    assert_eq!(midway.tabs.len(), 1, "un error de Guardar no debe cerrar la tab");
    assert_eq!(midway.tabs[0].draft, draft, "un error de Guardar no debe mutar el draft");
    assert!(midway.tabs[0].saved_draft.is_none(), "un error de Guardar no debe mutar saved_draft");
    let prompt = midway
        .unsaved_changes_prompt
        .as_ref()
        .expect("el aviso debe permanecer abierto tras un error");
    assert_eq!(prompt.tab_id, tab_id);
    assert!(!prompt.saving, "saving debe volver a false tras el error");
    assert!(prompt.error.is_some(), "debe quedar visible el mensaje de error");
}

#[test]
fn unsaved_changes_save_requested_asks_to_persist_the_tab_draft() {
    let mut draft = create_blank_draft();
    draft.url = "https://example.com/unsaved".to_string();
    let mut midway = build_test_midway(draft.clone());
    let tab_id = midway.tabs[0].id.clone();
    let _ = update_request_composer(&mut midway, RequestComposerMessage::TabClosed { tab_id: tab_id.clone() });

    let effect = update_request_composer(&mut midway, RequestComposerMessage::UnsavedChangesSaveRequested);

    assert!(midway.unsaved_changes_prompt.as_ref().unwrap().saving);
    match effect {
        midway::effects::Effect::PersistTabDraft { tab_id: id, draft: d, existing_collection_id } => {
            assert_eq!(id, tab_id);
            assert_eq!(d, draft);
            assert!(existing_collection_id.is_none());
        }
        other => panic!("efecto inesperado: {other:?}"),
    }
}

#[test]
fn saving_from_the_unsaved_prompt_of_a_closed_tab_does_nothing() {
    let mut state = Midway::from_session(SessionStoreState::default());
    state.tabs = vec![RequestTabState::from_draft(create_blank_draft())];
    state.active_tab = Some(0);
    state.unsaved_changes_prompt = Some(midway::state::UnsavedChangesPromptState {
        tab_id: "gone".to_string(),
        saving: false,
        error: Some("antes".to_string()),
    });

    let effect = update_request_composer(&mut state, RequestComposerMessage::UnsavedChangesSaveRequested);

    assert!(matches!(effect, midway::effects::Effect::Nothing));
    let prompt = state.unsaved_changes_prompt.as_ref().unwrap();
    assert!(!prompt.saving);
    assert_eq!(prompt.error.as_deref(), Some("antes"));
}
