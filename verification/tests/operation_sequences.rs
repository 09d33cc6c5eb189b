use std::collections::VecDeque;

use midway::composer_update::{update_request_composer, RequestComposerMessage};
use midway::editing::KeyValueTarget;
use midway::model::create_blank_draft;
use midway::state::{Midway, RequestTabState, SessionStoreState, CLOSED_TABS_LIMIT};
use midway::tabs::{handle_closed_tab_reopened, handle_tab_closed};

type RefRow = (String, String, String, bool);

fn one_tab_state() -> Midway {
    let mut state = Midway::from_session(SessionStoreState::default());
    state.tabs = vec![RequestTabState::from_draft(create_blank_draft())];
    state.active_tab = Some(0);
    state
}

fn query_rows(state: &Midway) -> Vec<RefRow> {
    state.tabs[0]
        .draft
        .query
        .iter()
        .map(|row| (row.id.clone(), row.key.clone(), row.value.clone(), row.enabled))
        .collect()
}

#[test]
fn query_row_edits_follow_the_reference_list_model() {
    let mut state = one_tab_state();
    let mut reference: Vec<RefRow> = Vec::new();
    let q = KeyValueTarget::Query;

    for _ in 0..3 {
        let _ = update_request_composer(&mut state, RequestComposerMessage::KeyValueRowAdded(q));
        let id = state.tabs[0].draft.query.last().unwrap().id.clone();
        reference.push((id, String::new(), String::new(), true));
    }
    let ids: Vec<String> = reference.iter().map(|row| row.0.clone()).collect();

    let edits = vec![
        RequestComposerMessage::KeyValueRowKeyChanged { target: q, row_id: ids[0].clone(), key: "a".to_string() },
        RequestComposerMessage::KeyValueRowValueChanged { target: q, row_id: ids[1].clone(), value: "b".to_string() },
        RequestComposerMessage::KeyValueRowEnabledToggled { target: q, row_id: ids[2].clone() },
        RequestComposerMessage::KeyValueRowRemoved { target: q, row_id: ids[1].clone() },
        RequestComposerMessage::KeyValueRowKeyChanged { target: q, row_id: "missing".to_string(), key: "z".to_string() },
        RequestComposerMessage::KeyValueRowRemoved { target: q, row_id: "missing".to_string() },
    ];
    for edit in edits {
        match &edit {
            RequestComposerMessage::KeyValueRowKeyChanged { row_id, key, .. } => {
                if let Some(row) = reference.iter_mut().find(|row| &row.0 == row_id) {
                    row.1 = key.clone();
                }
            }
            RequestComposerMessage::KeyValueRowValueChanged { row_id, value, .. } => {
                if let Some(row) = reference.iter_mut().find(|row| &row.0 == row_id) {
                    row.2 = value.clone();
                }
            }
            RequestComposerMessage::KeyValueRowEnabledToggled { row_id, .. } => {
                if let Some(row) = reference.iter_mut().find(|row| &row.0 == row_id) {
                    row.3 = !row.3;
                }
            }
            RequestComposerMessage::KeyValueRowRemoved { row_id, .. } => {
                reference.retain(|row| &row.0 != row_id);
            }
            _ => unreachable!(),
        }
        let _ = update_request_composer(&mut state, edit);
        assert_eq!(query_rows(&state), reference);
    }
    assert!(state.tabs[0].draft.headers.is_empty());
    assert_eq!(state.active_tab, Some(0));
}

#[test]
fn closed_tabs_stay_bounded_and_reopen_last_in_first_out() {
    let mut state = Midway::from_session(SessionStoreState::default());
    state.tabs = (0..25).map(|_| RequestTabState::from_draft(create_blank_draft())).collect();
    state.active_tab = Some(0);
    let mut oracle: VecDeque<String> = VecDeque::new();

    let mut close = |state: &mut Midway, oracle: &mut VecDeque<String>| {
        let id = state.tabs[0].id.clone();
        handle_tab_closed(state, &id);
        oracle.push_front(id);
        while oracle.len() > CLOSED_TABS_LIMIT {
            oracle.pop_back();
        }
    };
    let check = |state: &Midway, oracle: &VecDeque<String>| {
        assert!(state.closed_tabs.len() <= CLOSED_TABS_LIMIT);
        let ids: Vec<String> = state.closed_tabs.iter().map(|t| t.id.clone()).collect();
        let expected: Vec<String> = oracle.iter().cloned().collect();
        assert_eq!(ids, expected);
    };

    for _ in 0..22 {
        close(&mut state, &mut oracle);
        check(&state, &oracle);
    }
    for _ in 0..2 {
        let expected = oracle.pop_front().unwrap();
        handle_closed_tab_reopened(&mut state);
        assert_eq!(state.tabs.last().unwrap().id, expected);
        assert_eq!(state.active_tab, Some(state.tabs.len() - 1));
        check(&state, &oracle);
    }
    close(&mut state, &mut oracle);
    check(&state, &oracle);
}
