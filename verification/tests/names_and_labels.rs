use midway::names::{
    collection_import_message, native_import_message, unique_name_against,
    variables_environment_name, NameRegistry,
};
use midway::runner::run_progress_label;
use midway::saving::unsaved_default_collection_name;
use midway::session::discarded_session_notice;
use midway::state::{CollectionRunPhase, CollectionRunProgressEvent};
use midway::text::{decimal_string, trim};

fn names(list: &[&str]) -> Vec<String> {
    list.iter().map(|s| s.to_string()).collect()
}

#[test]
fn unique_name_against_returns_candidate_unchanged_when_no_collision() {
    let existing = names(&["Alpha", "Beta"]);

    assert_eq!(unique_name_against(&existing, "Gamma"), "Gamma");
}

#[test]
fn unique_name_against_appends_suffix_on_single_collision() {
    let existing = names(&["Environment"]);

    let result = unique_name_against(&existing, "Environment");

    assert_ne!(result, "Environment");
    assert!(!existing.contains(&result));
    assert_eq!(result, "Environment (2)");
}

#[test]
fn unique_name_against_skips_all_already_used_suffixes() {
    let existing = names(&["Environment", "Environment (2)", "Environment (3)"]);

    let result = unique_name_against(&existing, "Environment");

    assert_eq!(result, "Environment (4)");
    assert!(!existing.contains(&result));
}

#[test]
fn unique_name_against_skips_a_gap_only_at_the_first_free_suffix() {
    let existing = names(&["Env", "Env (3)"]);

    assert_eq!(unique_name_against(&existing, "Env"), "Env (2)");
}

#[test]
fn name_registry_hands_out_distinct_names() {
    let mut registry = NameRegistry { names: names(&["Users"]) };

    let first = registry.claim("Users");
    let second = registry.claim("Users");
    let third = registry.claim("Orders");

    assert_eq!(first, "Users (2)");
    assert_eq!(second, "Users (3)");
    assert_eq!(third, "Orders");
    assert_eq!(registry.names, names(&["Users", "Users (2)", "Users (3)", "Orders"]));
}

#[test]
fn import_messages_name_their_counts() {
    assert_eq!(
        native_import_message(2, 13, 1),
        "Import nativo aplicado: 2 colección(es), 13 request(s), 1 environment(s)."
    );
    assert_eq!(
        collection_import_message("Petstore", 4, 0),
        "Import aplicado: colección \"Petstore\", 4 request(s), 0 environment(s)."
    );
    assert_eq!(variables_environment_name("Petstore"), "Petstore vars");
}

#[test]
fn decimal_rendering_matches_to_string() {
    for n in [0u64, 7, 10, 99, 100, 4096, 1234567890, u64::MAX] {
        assert_eq!(decimal_string(n), n.to_string());
    }
}

#[test]
fn trim_matches_std_trim() {
    for s in ["", "   ", "  a b  ", "\t\nx\u{3000}", "\u{a0}y\u{2003}", "plain", " ñandú "] {
        assert_eq!(trim(s), s.trim());
    }
}

fn event(phase: CollectionRunPhase) -> CollectionRunProgressEvent {
    CollectionRunProgressEvent {
        run_id: "run-1".to_string(),
        phase,
        collection_id: "col-1".to_string(),
        collection_name: "Colección".to_string(),
        total_requests: 3,
        processed_requests: 2,
        current_index: 1,
        completed_requests: 2,
        errored_requests: 0,
        passed_assertions: 4,
        failed_assertions: 1,
        request_id: Some("req-1".to_string()),
        request_name: Some("Alta de usuario".to_string()),
        environment_name: None,
        resolved_url: None,
        response_status: Some(201),
        duration_ms: Some(42),
        error_message: None,
        started_at: "2024-01-01T00:00:00Z".to_string(),
        finished_at: None,
        emitted_at: "2024-01-01T00:00:01Z".to_string(),
    }
}

#[test]
fn every_phase_has_a_spanish_label() {
    let phases = [
        CollectionRunPhase::Started,
        CollectionRunPhase::RequestStarted,
        CollectionRunPhase::RequestFinished,
        CollectionRunPhase::Finished,
    ];
    let debug_leaks = ["CollectionRunProgressEvent", "run_id", "processed_requests", "Some("];

    for phase in phases {
        let label = run_progress_label(&event(phase));

        assert!(!label.trim().is_empty(), "la fase {phase:?} quedó sin línea de progreso");
        for leak in debug_leaks {
            assert!(
                !label.contains(leak),
                "la línea de la fase {phase:?} filtra el Debug derivado: {label:?}"
            );
        }
    }
}

#[test]
fn per_request_phases_name_the_request_and_its_position() {
    let started = run_progress_label(&event(CollectionRunPhase::RequestStarted));
    assert_eq!(started, "Ejecutando \"Alta de usuario\" (2 de 3).");

    let finished = run_progress_label(&event(CollectionRunPhase::RequestFinished));
    assert_eq!(finished, "Terminó \"Alta de usuario\" (2 de 3).");
}

#[test]
fn per_request_phases_degrade_without_a_request_name() {
    let mut anonymous = event(CollectionRunPhase::RequestStarted);
    anonymous.request_name = None;

    let label = run_progress_label(&anonymous);

    assert_eq!(label, "Ejecutando request (2 de 3).");
}

#[test]
fn finished_phase_reports_the_counters() {
    let label = run_progress_label(&event(CollectionRunPhase::Finished));

    assert_eq!(
        label,
        "Ejecución finalizada: 2 completado(s), 0 con error, 4 assertion(s) que pasaron y 1 que fallaron."
    );
}

#[test]
fn started_phase_and_anonymous_finish_have_their_own_lines() {
    assert_eq!(
        run_progress_label(&event(CollectionRunPhase::Started)),
        "Ejecución iniciada: 3 request(s) por ejecutar."
    );
    let mut anonymous = event(CollectionRunPhase::RequestFinished);
    anonymous.request_name = None;
    assert_eq!(run_progress_label(&anonymous), "Terminó un request (2 de 3).");
}

#[test]
fn default_collection_for_unsaved_tabs_is_sin_categoria() {
    assert_eq!(unsaved_default_collection_name(), "Sin categoría");
}

#[test]
fn discarded_session_notice_gives_the_reason() {
    assert_eq!(
        discarded_session_notice("versión 7"),
        "No se pudo restaurar la sesión anterior, se descartó y se inició una sesión vacía. Motivo: versión 7"
    );
}

#[test]
fn new_tabs_get_random_uuid_identifiers() {
    let first = midway::state::RequestTabState::blank().id;
    let second = midway::state::RequestTabState::blank().id;
    for id in [&first, &second] {
        let chars: Vec<char> = id.chars().collect();
        assert_eq!(chars.len(), 36);
        for (i, c) in chars.iter().enumerate() {
            if [8, 13, 18, 23].contains(&i) {
                assert_eq!(*c, '-');
            } else {
                assert!(c.is_ascii_hexdigit() && !c.is_ascii_uppercase());
            }
        }
        assert_eq!(chars[14], '4');
        assert!(['8', '9', 'a', 'b'].contains(&chars[19]));
    }
    assert_ne!(first, second);
}

#[test]
fn session_snapshots_are_stamped_in_utc() {
    let state = midway::state::Midway::from_session(midway::state::SessionStoreState::default());
    let snapshot = midway::session::build_session_snapshot(&state);
    assert!(snapshot.saved_at.ends_with("+00:00"));
    assert!(snapshot.saved_at.contains('T'));
}
