//! The message reducer of the request composer.

use vstd::prelude::*;
use crate::composer::{
    CurlPaste, active_tab_edited, edit_active_tab, handle_send_pressed, handle_settings_pressed,
    handle_url_pasted, send_pressed_spec, settings_pressed_spec, url_pasted_spec,
};
use crate::editing::{AuthKind, KeyValueTarget, TabEdit};
use crate::effects::Effect;
use crate::model::{
    ApiKeyPlacement, AssertionOperator, AssertionSource, BodyMode, FormDataFieldKind, HttpMethod,
};
use crate::records::{RequestPreview, ResponseOutcome};
use crate::saving::{
    RequestSaveOutcome, handle_save_cancelled, handle_save_collection_changed,
    handle_save_folder_changed, handle_save_name_changed, handle_save_request_completed,
    handle_save_request_confirmed, handle_unsaved_changes_save_requested, open_save_request_prompt,
    save_cancelled_spec, save_collection_changed_spec, save_completed_spec, save_confirmed_spec,
    save_folder_changed_spec, save_name_changed_spec, save_prompt_opened,
    unsaved_save_requested_spec,
};
use crate::state::{MainContentFocus, Midway, RequestTab};
use crate::tabs::{
    SavedRequestSaveOutcome, close_request_spec, close_tab_or_prompt_unsaved_changes, discard_spec,
    handle_closed_tab_reopened, handle_preview_loaded, handle_send_completed,
    handle_unsaved_changes_cancel_requested, handle_unsaved_changes_discard_requested,
    handle_unsaved_changes_save_completed, preview_loaded_spec, reopen_spec, send_completed_spec,
    unsaved_save_completed_spec,
};

verus! {

#[derive(Debug)]
pub enum RequestComposerMessage {
    MethodChanged(HttpMethod),
    UrlChanged(String),
    /// Text pasted into the URL bar, with what the cURL importer made of it.
    UrlPasted { text: String, parsed: CurlPaste },
    SendPressed,
    SendCompleted { tab_id: String, result: Result<ResponseOutcome, String> },
    EnvironmentChanged(Option<String>),
    SettingsPressed,
    SaveRequested,
    SaveNameChanged(String),
    SaveCollectionChanged(String),
    SaveFolderChanged(Option<String>),
    SaveConfirmed,
    SaveCancelled,
    SaveCompleted(Result<RequestSaveOutcome, String>),
    PreviewLoaded { tab_id: String, result: Result<RequestPreview, String> },
    ConfigTabSelected(RequestTab),
    AuthTypeChanged(AuthKind),
    BearerTokenChanged(String),
    BasicUsernameChanged(String),
    BasicPasswordChanged(String),
    ApiKeyKeyChanged(String),
    ApiKeyValueChanged(String),
    ApiKeyPlacementChanged(ApiKeyPlacement),
    KeyValueRowAdded(KeyValueTarget),
    KeyValueRowKeyChanged { target: KeyValueTarget, row_id: String, key: String },
    KeyValueRowValueChanged { target: KeyValueTarget, row_id: String, value: String },
    KeyValueRowEnabledToggled { target: KeyValueTarget, row_id: String },
    KeyValueRowRemoved { target: KeyValueTarget, row_id: String },
    AssertionAdded,
    AssertionNameChanged { assertion_id: String, name: String },
    AssertionEnabledToggled { assertion_id: String },
    AssertionSourceChanged { assertion_id: String, source: AssertionSource },
    AssertionOperatorChanged { assertion_id: String, operator: AssertionOperator },
    AssertionSelectorChanged { assertion_id: String, selector: String },
    AssertionExpectedChanged { assertion_id: String, expected: String },
    AssertionRemoved { assertion_id: String },
    BodyModeChanged(BodyMode),
    /// The text of the body editor after an edit.
    BodyTextChanged(String),
    FormDataRowAdded,
    FormDataRowKeyChanged { row_id: String, key: String },
    FormDataRowValueChanged { row_id: String, value: String },
    FormDataRowEnabledToggled { row_id: String },
    FormDataRowKindChanged { row_id: String, kind: FormDataFieldKind },
    FormDataRowRemoved { row_id: String },
    TabClosed { tab_id: String },
    TabSelected { index: usize },
    ClosedTabReopened,
    UnsavedChangesSaveRequested,
    UnsavedChangesSaveCompleted(Result<SavedRequestSaveOutcome, String>),
    UnsavedChangesDiscardRequested,
    UnsavedChangesCancelRequested,
}

/// The edit of the active tab a message stands for, if it is one.
pub open spec fn edit_of(msg: RequestComposerMessage) -> Option<TabEdit> {
    match msg {
        RequestComposerMessage::MethodChanged(m) => Some(TabEdit::MethodChanged(m)),
        RequestComposerMessage::UrlChanged(u) => Some(TabEdit::UrlChanged(u)),
        RequestComposerMessage::EnvironmentChanged(e) => Some(TabEdit::EnvironmentChanged(e)),
        RequestComposerMessage::ConfigTabSelected(t) => Some(TabEdit::ConfigTabSelected(t)),
        RequestComposerMessage::AuthTypeChanged(k) => Some(TabEdit::AuthTypeChanged(k)),
        RequestComposerMessage::BearerTokenChanged(s) => Some(TabEdit::BearerTokenChanged(s)),
        RequestComposerMessage::BasicUsernameChanged(s) => Some(TabEdit::BasicUsernameChanged(s)),
        RequestComposerMessage::BasicPasswordChanged(s) => Some(TabEdit::BasicPasswordChanged(s)),
        RequestComposerMessage::ApiKeyKeyChanged(s) => Some(TabEdit::ApiKeyKeyChanged(s)),
        RequestComposerMessage::ApiKeyValueChanged(s) => Some(TabEdit::ApiKeyValueChanged(s)),
        RequestComposerMessage::ApiKeyPlacementChanged(p) => Some(
            TabEdit::ApiKeyPlacementChanged(p),
        ),
        RequestComposerMessage::KeyValueRowAdded(t) => Some(TabEdit::KeyValueRowAdded(t)),
        RequestComposerMessage::KeyValueRowKeyChanged { target, row_id, key } => Some(
            TabEdit::KeyValueRowKeyChanged { target, row_id, key },
        ),
        RequestComposerMessage::KeyValueRowValueChanged { target, row_id, value } => Some(
            TabEdit::KeyValueRowValueChanged { target, row_id, value },
        ),
        RequestComposerMessage::KeyValueRowEnabledToggled { target, row_id } => Some(
            TabEdit::KeyValueRowEnabledToggled { target, row_id },
        ),
        RequestComposerMessage::KeyValueRowRemoved { target, row_id } => Some(
            TabEdit::KeyValueRowRemoved { target, row_id },
        ),
        RequestComposerMessage::AssertionAdded => Some(TabEdit::AssertionAdded),
        RequestComposerMessage::AssertionNameChanged { assertion_id, name } => Some(
            TabEdit::AssertionNameChanged { assertion_id, name },
        ),
        RequestComposerMessage::AssertionEnabledToggled { assertion_id } => Some(
            TabEdit::AssertionEnabledToggled { assertion_id },
        ),
        RequestComposerMessage::AssertionSourceChanged { assertion_id, source } => Some(
            TabEdit::AssertionSourceChanged { assertion_id, source },
        ),
        RequestComposerMessage::AssertionOperatorChanged { assertion_id, operator } => Some(
            TabEdit::AssertionOperatorChanged { assertion_id, operator },
        ),
        RequestComposerMessage::AssertionSelectorChanged { assertion_id, selector } => Some(
            TabEdit::AssertionSelectorChanged { assertion_id, selector },
        ),
        RequestComposerMessage::AssertionExpectedChanged { assertion_id, expected } => Some(
            TabEdit::AssertionExpectedChanged { assertion_id, expected },
        ),
        RequestComposerMessage::AssertionRemoved { assertion_id } => Some(
            TabEdit::AssertionRemoved { assertion_id },
        ),
        RequestComposerMessage::BodyModeChanged(m) => Some(TabEdit::BodyModeChanged(m)),
        RequestComposerMessage::BodyTextChanged(t) => Some(TabEdit::BodyTextChanged(t)),
        RequestComposerMessage::FormDataRowAdded => Some(TabEdit::FormDataRowAdded),
        RequestComposerMessage::FormDataRowKeyChanged { row_id, key } => Some(
            TabEdit::FormDataRowKeyChanged { row_id, key },
        ),
        RequestComposerMessage::FormDataRowValueChanged { row_id, value } => Some(
            TabEdit::FormDataRowValueChanged { row_id, value },
        ),
        RequestComposerMessage::FormDataRowEnabledToggled { row_id } => Some(
            TabEdit::FormDataRowEnabledToggled { row_id },
        ),
        RequestComposerMessage::FormDataRowKindChanged { row_id, kind } => Some(
            TabEdit::FormDataRowKindChanged { row_id, kind },
        ),
        RequestComposerMessage::FormDataRowRemoved { row_id } => Some(
            TabEdit::FormDataRowRemoved { row_id },
        ),
        _ => None,
    }
}

/// What the composer does with each message.
pub open spec fn composer_spec(
    pre: Midway,
    post: Midway,
    msg: RequestComposerMessage,
    eff: Effect,
) -> bool {
    match msg {
        RequestComposerMessage::UrlPasted { text, parsed } => eff is Nothing && url_pasted_spec(
            pre,
            post,
            text,
            parsed,
        ),
        RequestComposerMessage::SendPressed => send_pressed_spec(pre, post, eff),
        RequestComposerMessage::SettingsPressed => settings_pressed_spec(pre, post, eff),
        RequestComposerMessage::SendCompleted { tab_id, result } => eff is Nothing
            && send_completed_spec(pre, post, tab_id, result),
        RequestComposerMessage::PreviewLoaded { tab_id, result } => eff is Nothing
            && preview_loaded_spec(pre, post, tab_id, result),
        RequestComposerMessage::TabClosed { tab_id } => eff is Nothing && close_request_spec(
            pre,
            post,
            tab_id,
        ),
        RequestComposerMessage::TabSelected { index } => eff is Nothing && if index
            < pre.tabs@.len() {
            post == Midway {
                active_tab: Some(index),
                main_content_focus: MainContentFocus::RequestTab,
                ..pre
            }
        } else {
            post == pre
        },
        RequestComposerMessage::ClosedTabReopened => eff is Nothing && reopen_spec(pre, post),
        RequestComposerMessage::UnsavedChangesSaveRequested => unsaved_save_requested_spec(
            pre,
            post,
            eff,
        ),
        RequestComposerMessage::UnsavedChangesSaveCompleted(result) => eff is Nothing
            && unsaved_save_completed_spec(pre, post, result),
        RequestComposerMessage::UnsavedChangesDiscardRequested => eff is Nothing && discard_spec(
            pre,
            post,
        ),
        RequestComposerMessage::UnsavedChangesCancelRequested => eff is Nothing && post
            == Midway { unsaved_changes_prompt: None, ..pre },
        RequestComposerMessage::SaveRequested => eff is Nothing && save_prompt_opened(pre, post),
        RequestComposerMessage::SaveNameChanged(name) => eff is Nothing && save_name_changed_spec(
            pre,
            post,
            name,
        ),
        RequestComposerMessage::SaveCollectionChanged(id) => eff is Nothing
            && save_collection_changed_spec(pre, post, id),
        RequestComposerMessage::SaveFolderChanged(id) => eff is Nothing
            && save_folder_changed_spec(pre, post, id),
        RequestComposerMessage::SaveConfirmed => save_confirmed_spec(pre, post, eff),
        RequestComposerMessage::SaveCancelled => eff is Nothing && save_cancelled_spec(pre, post),
        RequestComposerMessage::SaveCompleted(result) => eff is Nothing && save_completed_spec(
            pre,
            post,
            result,
        ),
        _ => eff is Nothing && match edit_of(msg) {
            Some(edit) => active_tab_edited(pre, post, edit),
            None => post == pre,
        },
    }
}

fn into_edit(msg: RequestComposerMessage) -> (r: TabEdit)
    requires
        edit_of(msg) is Some,
    ensures
        edit_of(msg) == Some(r),
{
    match msg {
        RequestComposerMessage::MethodChanged(m) => TabEdit::MethodChanged(m),
        RequestComposerMessage::UrlChanged(u) => TabEdit::UrlChanged(u),
        RequestComposerMessage::EnvironmentChanged(e) => TabEdit::EnvironmentChanged(e),
        RequestComposerMessage::ConfigTabSelected(t) => TabEdit::ConfigTabSelected(t),
        RequestComposerMessage::AuthTypeChanged(k) => TabEdit::AuthTypeChanged(k),
        RequestComposerMessage::BearerTokenChanged(s) => TabEdit::BearerTokenChanged(s),
        RequestComposerMessage::BasicUsernameChanged(s) => TabEdit::BasicUsernameChanged(s),
        RequestComposerMessage::BasicPasswordChanged(s) => TabEdit::BasicPasswordChanged(s),
        RequestComposerMessage::ApiKeyKeyChanged(s) => TabEdit::ApiKeyKeyChanged(s),
        RequestComposerMessage::ApiKeyValueChanged(s) => TabEdit::ApiKeyValueChanged(s),
        RequestComposerMessage::ApiKeyPlacementChanged(p) => TabEdit::ApiKeyPlacementChanged(p),
        RequestComposerMessage::KeyValueRowAdded(t) => TabEdit::KeyValueRowAdded(t),
        RequestComposerMessage::KeyValueRowKeyChanged { target, row_id, key } =>
            TabEdit::KeyValueRowKeyChanged { target, row_id, key },
        RequestComposerMessage::KeyValueRowValueChanged { target, row_id, value } =>
            TabEdit::KeyValueRowValueChanged { target, row_id, value },
        RequestComposerMessage::KeyValueRowEnabledToggled { target, row_id } =>
            TabEdit::KeyValueRowEnabledToggled { target, row_id },
        RequestComposerMessage::KeyValueRowRemoved { target, row_id } =>
            TabEdit::KeyValueRowRemoved { target, row_id },
        RequestComposerMessage::AssertionAdded => TabEdit::AssertionAdded,
        RequestComposerMessage::AssertionNameChanged { assertion_id, name } =>
            TabEdit::AssertionNameChanged { assertion_id, name },
        RequestComposerMessage::AssertionEnabledToggled { assertion_id } =>
            TabEdit::AssertionEnabledToggled { assertion_id },
        RequestComposerMessage::AssertionSourceChanged { assertion_id, source } =>
            TabEdit::AssertionSourceChanged { assertion_id, source },
        RequestComposerMessage::AssertionOperatorChanged { assertion_id, operator } =>
            TabEdit::AssertionOperatorChanged { assertion_id, operator },
        RequestComposerMessage::AssertionSelectorChanged { assertion_id, selector } =>
            TabEdit::AssertionSelectorChanged { assertion_id, selector },
        RequestComposerMessage::AssertionExpectedChanged { assertion_id, expected } =>
            TabEdit::AssertionExpectedChanged { assertion_id, expected },
        RequestComposerMessage::AssertionRemoved { assertion_id } => TabEdit::AssertionRemoved {
            assertion_id,
        },
        RequestComposerMessage::BodyModeChanged(m) => TabEdit::BodyModeChanged(m),
        RequestComposerMessage::BodyTextChanged(t) => TabEdit::BodyTextChanged(t),
        RequestComposerMessage::FormDataRowAdded => TabEdit::FormDataRowAdded,
        RequestComposerMessage::FormDataRowKeyChanged { row_id, key } =>
            TabEdit::FormDataRowKeyChanged { row_id, key },
        RequestComposerMessage::FormDataRowValueChanged { row_id, value } =>
            TabEdit::FormDataRowValueChanged { row_id, value },
        RequestComposerMessage::FormDataRowEnabledToggled { row_id } =>
            TabEdit::FormDataRowEnabledToggled { row_id },
        RequestComposerMessage::FormDataRowKindChanged { row_id, kind } =>
            TabEdit::FormDataRowKindChanged { row_id, kind },
        RequestComposerMessage::FormDataRowRemoved { row_id } => TabEdit::FormDataRowRemoved {
            row_id,
        },
        _ => TabEdit::FormDataRowAdded,
    }
}

/// Applies a composer message to the state and returns the outside work
/// it asks for.
#[verifier::rlimit(40)]
pub fn update_request_composer(state: &mut Midway, message: RequestComposerMessage) -> (eff:
    Effect)
    ensures
        composer_spec(*old(state), *final(state), message, eff),
{
    match message {
        RequestComposerMessage::UrlPasted { text, parsed } => {
            handle_url_pasted(state, text, parsed);
            Effect::Nothing
        },
        RequestComposerMessage::SendPressed => handle_send_pressed(state),
        RequestComposerMessage::SettingsPressed => handle_settings_pressed(state),
        RequestComposerMessage::SendCompleted { tab_id, result } => {
            handle_send_completed(state, tab_id, result);
            Effect::Nothing
        },
        RequestComposerMessage::PreviewLoaded { tab_id, result } => {
            handle_preview_loaded(state, tab_id, result);
            Effect::Nothing
        },
        RequestComposerMessage::TabClosed { tab_id } => {
            close_tab_or_prompt_unsaved_changes(state, tab_id);
            Effect::Nothing
        },
        RequestComposerMessage::TabSelected { index } => {
            if index < state.tabs.len() {
                state.active_tab = Some(index);
                state.main_content_focus = MainContentFocus::RequestTab;
            }
            Effect::Nothing
        },
        RequestComposerMessage::ClosedTabReopened => {
            handle_closed_tab_reopened(state);
            Effect::Nothing
        },
        RequestComposerMessage::UnsavedChangesSaveRequested => handle_unsaved_changes_save_requested(
            state,
        ),
        RequestComposerMessage::UnsavedChangesSaveCompleted(result) => {
            handle_unsaved_changes_save_completed(state, result);
            Effect::Nothing
        },
        RequestComposerMessage::UnsavedChangesDiscardRequested => {
            handle_unsaved_changes_discard_requested(state);
            Effect::Nothing
        },
        RequestComposerMessage::UnsavedChangesCancelRequested => {
            handle_unsaved_changes_cancel_requested(state);
            Effect::Nothing
        },
        RequestComposerMessage::SaveRequested => {
            open_save_request_prompt(state);
            Effect::Nothing
        },
        RequestComposerMessage::SaveNameChanged(name) => {
            handle_save_name_changed(state, name);
            Effect::Nothing
        },
        RequestComposerMessage::SaveCollectionChanged(collection_id) => {
            handle_save_collection_changed(state, collection_id);
            Effect::Nothing
        },
        RequestComposerMessage::SaveFolderChanged(folder_id) => {
            handle_save_folder_changed(state, folder_id);
            Effect::Nothing
        },
        RequestComposerMessage::SaveConfirmed => handle_save_request_confirmed(state),
        RequestComposerMessage::SaveCancelled => {
            handle_save_cancelled(state);
            Effect::Nothing
        },
        RequestComposerMessage::SaveCompleted(result) => {
            handle_save_request_completed(state, result);
            Effect::Nothing
        },
        other => {
            let edit = into_edit(other);
            edit_active_tab(state, edit);
            Effect::Nothing
        },
    }
}

} // verus!
