use midway::import_plan::{plan_http_import, plan_native_import, used_names, UsedNames};
use midway::model::{create_blank_draft, KeyValueRow, RequestDraft};
use midway::records::{
    CollectionSummary, CollectionWithRequests, EnvironmentRecord, SavedRequestRecord,
    WorkspaceSnapshot,
};
use midway::workspace_panel::{export_written_message, missing_collection_message};

fn names(list: &[&str]) -> Vec<String> {
    list.iter().map(|s| s.to_string()).collect()
}

fn record(id: &str, name: &str) -> SavedRequestRecord {
    let mut draft = create_blank_draft();
    draft.id = Some(id.to_string());
    draft.name = name.to_string();
    SavedRequestRecord {
        id: id.to_string(),
        collection_id: "c".to_string(),
        folder_id: None,
        name: name.to_string(),
        draft,
        created_at: "2024-01-01T00:00:00Z".to_string(),
        updated_at: "2024-01-01T00:00:00Z".to_string(),
    }
}

fn collection(id: &str, name: &str, requests: Vec<SavedRequestRecord>) -> CollectionWithRequests {
    CollectionWithRequests {
        collection: CollectionSummary {
            id: id.to_string(),
            name: name.to_string(),
            request_count: requests.len() as u64,
            created_at: "2024-01-01T00:00:00Z".to_string(),
            updated_at: "2024-01-01T00:00:00Z".to_string(),
        },
        folders: Vec::new(),
        requests,
    }
}

fn environment(id: &str, name: &str) -> EnvironmentRecord {
    EnvironmentRecord {
        id: id.to_string(),
        name: name.to_string(),
        variables: Vec::new(),
        created_at: "2024-01-01T00:00:00Z".to_string(),
        updated_at: "2024-01-01T00:00:00Z".to_string(),
    }
}

fn draft_named(name: &str) -> RequestDraft {
    let mut draft = create_blank_draft();
    draft.name = name.to_string();
    draft
}

fn variable(key: &str) -> KeyValueRow {
    KeyValueRow { id: key.to_string(), key: key.to_string(), value: "1".to_string(), enabled: true }
}

#[test]
fn used_names_lists_every_name_of_the_workspace() {
    let snapshot = WorkspaceSnapshot {
        collections: vec![
            collection("c1", "Alpha", vec![record("r1", "Get"), record("r2", "Post")]),
            collection("c2", "Beta", vec![record("r3", "List")]),
        ],
        environments: vec![environment("e1", "Dev")],
    };
    let used = used_names(&snapshot);
    assert_eq!(used.collections, names(&["Alpha", "Beta"]));
    assert_eq!(used.requests, names(&["Get", "Post", "List"]));
    assert_eq!(used.environments, names(&["Dev"]));
}

#[test]
fn native_import_renames_every_colliding_item() {
    let used = UsedNames {
        collections: names(&["Alpha"]),
        requests: names(&["Get"]),
        environments: names(&["Dev"]),
    };
    let bundle = WorkspaceSnapshot {
        collections: vec![
            collection("x1", "Alpha", vec![record("a", "Get"), record("b", "Get")]),
            collection("x2", "Beta", vec![record("c", "List")]),
        ],
        environments: vec![environment("e", "Dev")],
    };
    let plan = plan_native_import(used, &bundle);
    assert_eq!(plan.environment_names, names(&["Dev (2)"]));
    assert_eq!(plan.collections.len(), 2);
    assert_eq!(plan.collections[0].name, "Alpha (2)");
    assert_eq!(plan.collections[0].request_names, names(&["Get (2)", "Get (3)"]));
    assert_eq!(plan.collections[1].name, "Beta");
    assert_eq!(plan.collections[1].request_names, names(&["List"]));
    assert_eq!(
        plan.message,
        "Import nativo aplicado: 2 colección(es), 3 request(s), 1 environment(s)."
    );
}

#[test]
fn native_import_of_two_collections_with_one_name_keeps_them_apart() {
    let used = UsedNames { collections: Vec::new(), requests: Vec::new(), environments: Vec::new() };
    let bundle = WorkspaceSnapshot {
        collections: vec![collection("x1", "Same", Vec::new()), collection("x2", "Same", Vec::new())],
        environments: Vec::new(),
    };
    let plan = plan_native_import(used, &bundle);
    assert_eq!(plan.collections[0].name, "Same");
    assert_eq!(plan.collections[1].name, "Same (2)");
    assert!(plan.environment_names.is_empty());
    assert_eq!(
        plan.message,
        "Import nativo aplicado: 2 colección(es), 0 request(s), 0 environment(s)."
    );
}

#[test]
fn http_import_names_collection_requests_and_variables_environment() {
    let used = UsedNames {
        collections: names(&["Pets"]),
        requests: names(&["a"]),
        environments: names(&["Pets (2) vars"]),
    };
    let drafts = vec![draft_named("a"), draft_named("a"), draft_named("b")];
    let plan = plan_http_import(used, "Pets", &drafts, &vec![variable("host")]);
    assert_eq!(plan.collection_name, "Pets (2)");
    assert_eq!(plan.request_names, names(&["a (2)", "a (3)", "b"]));
    assert_eq!(plan.environment_name, Some("Pets (2) vars (2)".to_string()));
    assert_eq!(
        plan.message,
        "Import aplicado: colección \"Pets (2)\", 3 request(s), 1 environment(s)."
    );
}

#[test]
fn http_import_without_variables_creates_no_environment() {
    let used = UsedNames { collections: Vec::new(), requests: Vec::new(), environments: Vec::new() };
    let plan = plan_http_import(used, "API", &vec![draft_named("ping")], &Vec::new());
    assert_eq!(plan.collection_name, "API");
    assert_eq!(plan.request_names, names(&["ping"]));
    assert_eq!(plan.environment_name, None);
    assert_eq!(plan.message, "Import aplicado: colección \"API\", 1 request(s), 0 environment(s).");
}

#[test]
fn export_messages_name_the_file_and_the_collection() {
    assert_eq!(export_written_message("/tmp/out.json", 42), "Exportado a /tmp/out.json (42 bytes).");
    assert_eq!(missing_collection_message("c-9"), "No existe la collection c-9");
}
