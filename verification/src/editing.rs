//! Edits to the draft of a request tab: method, URL, auth, key/value rows,
//! assertions, body and form fields.

use vstd::prelude::*;
use crate::model::{
    ApiKeyPlacement, AssertionOperator, AssertionSource, AuthConfig, AuthView, BodyMode,
    FormDataFieldKind, FormDataRow, HttpMethod, KeyValueRow, RequestDraft, ResponseAssertion,
};
use crate::rows::{find_by_id, has_id, lacks_id, remove_by_id};
use crate::seqs::update_first;
use crate::state::{RequestTab, RequestTabState};
use crate::tabs::{default_tab_for_method, default_tab_spec};
use crate::text::{blank, is_blank};

verus! {

/// Which key/value list of the draft an edit targets.
#[derive(Debug, Clone, Copy, PartialEq, Eq, Structural)]
pub enum KeyValueTarget {
    Query,
    Headers,
}

/// The kind of authentication picked in the Auth tab.
#[derive(Debug, Clone, Copy, PartialEq, Eq, Structural)]
pub enum AuthKind {
    NoAuth,
    Bearer,
    Basic,
    ApiKey,
}

/// An edit of the active tab's request.
#[derive(Debug)]
pub enum TabEdit {
    MethodChanged(HttpMethod),
    UrlChanged(String),
    EnvironmentChanged(Option<String>),
    ConfigTabSelected(RequestTab),
    AuthTypeChanged(AuthKind),
    BearerTokenChanged(String),
    BasicUsernameChanged(String),
    BasicPasswordChanged(String),
    ApiKeyKeyChanged(String),
    ApiKeyValueChanged(String),
    ApiKeyPlacementChanged(ApiKeyPlacement),
    KeyValueRowAdded(KeyValueTarget),
    KeyValueRowKeyChanged { target: KeyValueTarget, row_id: String, key: String },
    KeyValueRowValueChanged { target: KeyValueTarget, row_id: String, value: String },
    KeyValueRowEnabledToggled { target: KeyValueTarget, row_id: String },
    KeyValueRowRemoved { target: KeyValueTarget, row_id: String },
    AssertionAdded,
    AssertionNameChanged { assertion_id: String, name: String },
    AssertionEnabledToggled { assertion_id: String },
    AssertionSourceChanged { assertion_id: String, source: AssertionSource },
    AssertionOperatorChanged { assertion_id: String, operator: AssertionOperator },
    AssertionSelectorChanged { assertion_id: String, selector: String },
    AssertionExpectedChanged { assertion_id: String, expected: String },
    AssertionRemoved { assertion_id: String },
    BodyModeChanged(BodyMode),
    BodyTextChanged(String),
    FormDataRowAdded,
    FormDataRowKeyChanged { row_id: String, key: String },
    FormDataRowValueChanged { row_id: String, value: String },
    FormDataRowEnabledToggled { row_id: String },
    FormDataRowKindChanged { row_id: String, kind: FormDataFieldKind },
    FormDataRowRemoved { row_id: String },
}

/// The empty settings of an auth kind: blank fields, an API key in a header.
pub open spec fn empty_auth(kind: AuthKind) -> AuthView {
    match kind {
        AuthKind::NoAuth => AuthView::NoAuth,
        AuthKind::Bearer => AuthView::Bearer { token: Seq::empty() },
        AuthKind::Basic => AuthView::Basic { username: Seq::empty(), password: Seq::empty() },
        AuthKind::ApiKey => AuthView::ApiKey {
            key: Seq::empty(),
            value: Seq::empty(),
            placement: ApiKeyPlacement::Header,
        },
    }
}

/// The rows a key/value target designates.
pub open spec fn target_rows(d: RequestDraft, target: KeyValueTarget) -> Seq<KeyValueRow> {
    match target {
        KeyValueTarget::Query => d.query@,
        KeyValueTarget::Headers => d.headers@,
    }
}

/// `e` is `d` with the rows of `target` replaced by `rows`.
pub open spec fn with_target_rows(
    d: RequestDraft,
    e: RequestDraft,
    target: KeyValueTarget,
    rows: Seq<KeyValueRow>,
) -> bool {
    match target {
        KeyValueTarget::Query => e == RequestDraft { query: e.query, ..d } && e.query@ == rows,
        KeyValueTarget::Headers => e == RequestDraft { headers: e.headers, ..d } && e.headers@
            == rows,
    }
}

/// `rows` grew by one blank, enabled row with a fresh id.
pub open spec fn kv_row_appended(pre: Seq<KeyValueRow>, post: Seq<KeyValueRow>) -> bool {
    &&& post.len() == pre.len() + 1
    &&& post.subrange(0, pre.len() as int) == pre
    &&& post.last().key@.len() == 0
    &&& post.last().value@.len() == 0
    &&& post.last().enabled
    &&& crate::external::is_uuid_v4_text(post.last().id@)
}

/// `tests` grew by one enabled assertion on the status, equal to nothing
/// yet, with no name or selector and a fresh id.
pub open spec fn assertion_appended(pre: Seq<ResponseAssertion>, post: Seq<ResponseAssertion>) -> bool {
    &&& post.len() == pre.len() + 1
    &&& post.subrange(0, pre.len() as int) == pre
    &&& post.last().name@.len() == 0
    &&& post.last().enabled
    &&& post.last().source == AssertionSource::Status
    &&& post.last().operator == AssertionOperator::Equals
    &&& post.last().selector is None
    &&& post.last().expected@.len() == 0
    &&& crate::external::is_uuid_v4_text(post.last().id@)
}

/// `rows` grew by one blank, enabled text field with a fresh id.
pub open spec fn form_row_appended(pre: Seq<FormDataRow>, post: Seq<FormDataRow>) -> bool {
    &&& post.len() == pre.len() + 1
    &&& post.subrange(0, pre.len() as int) == pre
    &&& post.last().key@.len() == 0
    &&& post.last().value@.len() == 0
    &&& post.last().enabled
    &&& post.last().kind == FormDataFieldKind::Text
    &&& post.last().file_name is None
    &&& crate::external::is_uuid_v4_text(post.last().id@)
}

/// `u` is `t` with only its draft changed, to `e`.
pub open spec fn draft_replaced(t: RequestTabState, u: RequestTabState, e: RequestDraft) -> bool {
    u.draft == e && u == RequestTabState { draft: u.draft, ..t }
}

pub open spec fn kv_set_key(key: String) -> spec_fn(KeyValueRow) -> KeyValueRow {
    |r: KeyValueRow| KeyValueRow { key: key, ..r }
}

pub open spec fn kv_set_value(value: String) -> spec_fn(KeyValueRow) -> KeyValueRow {
    |r: KeyValueRow| KeyValueRow { value: value, ..r }
}

pub open spec fn kv_toggle() -> spec_fn(KeyValueRow) -> KeyValueRow {
    |r: KeyValueRow| KeyValueRow { enabled: !r.enabled, ..r }
}

pub open spec fn assertion_set_name(name: String) -> spec_fn(ResponseAssertion) -> ResponseAssertion {
    |a: ResponseAssertion| ResponseAssertion { name: name, ..a }
}

pub open spec fn assertion_toggle() -> spec_fn(ResponseAssertion) -> ResponseAssertion {
    |a: ResponseAssertion| ResponseAssertion { enabled: !a.enabled, ..a }
}

pub open spec fn assertion_set_source(source: AssertionSource) -> spec_fn(ResponseAssertion) -> ResponseAssertion {
    |a: ResponseAssertion| ResponseAssertion { source: source, ..a }
}

pub open spec fn assertion_set_operator(operator: AssertionOperator) -> spec_fn(ResponseAssertion) -> ResponseAssertion {
    |a: ResponseAssertion| ResponseAssertion { operator: operator, ..a }
}

/// A blank selector clears it; any other text becomes the selector.
pub open spec fn assertion_set_selector(selector: String) -> spec_fn(ResponseAssertion) -> ResponseAssertion {
    |a: ResponseAssertion|
        ResponseAssertion {
            selector: if is_blank(selector@) {
                None
            } else {
                Some(selector)
            },
            ..a
        }
}

pub open spec fn assertion_set_expected(expected: String) -> spec_fn(ResponseAssertion) -> ResponseAssertion {
    |a: ResponseAssertion| ResponseAssertion { expected: expected, ..a }
}

pub open spec fn form_set_key(key: String) -> spec_fn(FormDataRow) -> FormDataRow {
    |r: FormDataRow| FormDataRow { key: key, ..r }
}

pub open spec fn form_set_value(value: String) -> spec_fn(FormDataRow) -> FormDataRow {
    |r: FormDataRow| FormDataRow { value: value, ..r }
}

pub open spec fn form_toggle() -> spec_fn(FormDataRow) -> FormDataRow {
    |r: FormDataRow| FormDataRow { enabled: !r.enabled, ..r }
}

/// A field that changes kind forgets its file name.
pub open spec fn form_set_kind(kind: FormDataFieldKind) -> spec_fn(FormDataRow) -> FormDataRow {
    |r: FormDataRow| FormDataRow { kind: kind, file_name: None, ..r }
}

/// What each edit does to a tab. Edits of a row or assertion go to the
/// first one with the given id and do nothing when none has it; edits of
/// auth fields do nothing unless the auth is of that kind.
pub open spec fn tab_edit_spec(t: RequestTabState, u: RequestTabState, edit: TabEdit) -> bool {
    let d = t.draft;
    match edit {
        TabEdit::MethodChanged(m) => u == RequestTabState {
            draft: RequestDraft { method: m, ..d },
            active_request_tab: if t.manual_tab_override {
                t.active_request_tab
            } else {
                default_tab_spec(m)
            },
            ..t
        },
        TabEdit::UrlChanged(url) => u == RequestTabState {
            draft: RequestDraft { url: url, ..d },
            curl_paste_error: None,
            ..t
        },
        TabEdit::EnvironmentChanged(e) => u == RequestTabState {
            draft: RequestDraft { environment_id: e, ..d },
            ..t
        },
        TabEdit::ConfigTabSelected(tab) => u == RequestTabState {
            active_request_tab: tab,
            manual_tab_override: true,
            ..t
        },
        TabEdit::AuthTypeChanged(kind) => draft_replaced(
            t,
            u,
            RequestDraft { auth: u.draft.auth, ..d },
        ) && u.draft.auth@ == empty_auth(kind),
        TabEdit::BearerTokenChanged(token) => u == RequestTabState {
            draft: RequestDraft {
                auth: match d.auth {
                    AuthConfig::Bearer { .. } => AuthConfig::Bearer { token: token },
                    other => other,
                },
                ..d
            },
            ..t
        },
        TabEdit::BasicUsernameChanged(username) => u == RequestTabState {
            draft: RequestDraft {
                auth: match d.auth {
                    AuthConfig::Basic { password, .. } => AuthConfig::Basic {
                        username: username,
                        password: password,
                    },
                    other => other,
                },
                ..d
            },
            ..t
        },
        TabEdit::BasicPasswordChanged(password) => u == RequestTabState {
            draft: RequestDraft {
                auth: match d.auth {
                    AuthConfig::Basic { username, .. } => AuthConfig::Basic {
                        username: username,
                        password: password,
                    },
                    other => other,
                },
                ..d
            },
            ..t
        },
        TabEdit::ApiKeyKeyChanged(key) => u == RequestTabState {
            draft: RequestDraft {
                auth: match d.auth {
                    AuthConfig::ApiKey { value, placement, .. } => AuthConfig::ApiKey {
                        key: key,
                        value: value,
                        placement: placement,
                    },
                    other => other,
                },
                ..d
            },
            ..t
        },
        TabEdit::ApiKeyValueChanged(value) => u == RequestTabState {
            draft: RequestDraft {
                auth: match d.auth {
                    AuthConfig::ApiKey { key, placement, .. } => AuthConfig::ApiKey {
                        key: key,
                        value: value,
                        placement: placement,
                    },
                    other => other,
                },
                ..d
            },
            ..t
        },
        TabEdit::ApiKeyPlacementChanged(placement) => u == RequestTabState {
            draft: RequestDraft {
                auth: match d.auth {
                    AuthConfig::ApiKey { key, value, .. } => AuthConfig::ApiKey {
                        key: key,
                        value: value,
                        placement: placement,
                    },
                    other => other,
                },
                ..d
            },
            ..t
        },
        TabEdit::KeyValueRowAdded(target) => draft_replaced(t, u, u.draft) && with_target_rows(
            d,
            u.draft,
            target,
            target_rows(u.draft, target),
        ) && kv_row_appended(target_rows(d, target), target_rows(u.draft, target)),
        TabEdit::KeyValueRowKeyChanged { target, row_id, key } => draft_replaced(t, u, u.draft)
            && with_target_rows(
            d,
            u.draft,
            target,
            update_first(
                target_rows(d, target),
                has_id::<KeyValueRow>(row_id@),
                kv_set_key(key),
            ),
        ),
        TabEdit::KeyValueRowValueChanged { target, row_id, value } => draft_replaced(
            t,
            u,
            u.draft,
        ) && with_target_rows(
            d,
            u.draft,
            target,
            update_first(
                target_rows(d, target),
                has_id::<KeyValueRow>(row_id@),
                kv_set_value(value),
            ),
        ),
        TabEdit::KeyValueRowEnabledToggled { target, row_id } => draft_replaced(t, u, u.draft)
            && with_target_rows(
            d,
            u.draft,
            target,
            update_first(
                target_rows(d, target),
                has_id::<KeyValueRow>(row_id@),
                kv_toggle(),
            ),
        ),
        TabEdit::KeyValueRowRemoved { target, row_id } => draft_replaced(t, u, u.draft)
            && with_target_rows(
            d,
            u.draft,
            target,
            target_rows(d, target).filter(lacks_id::<KeyValueRow>(row_id@)),
        ),
        TabEdit::AssertionAdded => draft_replaced(
            t,
            u,
            RequestDraft { response_tests: u.draft.response_tests, ..d },
        ) && assertion_appended(d.response_tests@, u.draft.response_tests@),
        TabEdit::AssertionNameChanged { assertion_id, name } => draft_replaced(
            t,
            u,
            RequestDraft { response_tests: u.draft.response_tests, ..d },
        ) && u.draft.response_tests@ == update_first(
            d.response_tests@,
            has_id::<ResponseAssertion>(assertion_id@),
            assertion_set_name(name),
        ),
        TabEdit::AssertionEnabledToggled { assertion_id } => draft_replaced(
            t,
            u,
            RequestDraft { response_tests: u.draft.response_tests, ..d },
        ) && u.draft.response_tests@ == update_first(
            d.response_tests@,
            has_id::<ResponseAssertion>(assertion_id@),
            assertion_toggle(),
        ),
        TabEdit::AssertionSourceChanged { assertion_id, source } => draft_replaced(
            t,
            u,
            RequestDraft { response_tests: u.draft.response_tests, ..d },
        ) && u.draft.response_tests@ == update_first(
            d.response_tests@,
            has_id::<ResponseAssertion>(assertion_id@),
            assertion_set_source(source),
        ),
        TabEdit::AssertionOperatorChanged { assertion_id, operator } => draft_replaced(
            t,
            u,
            RequestDraft { response_tests: u.draft.response_tests, ..d },
        ) && u.draft.response_tests@ == update_first(
            d.response_tests@,
            has_id::<ResponseAssertion>(assertion_id@),
            assertion_set_operator(operator),
        ),
        TabEdit::AssertionSelectorChanged { assertion_id, selector } => draft_replaced(
            t,
            u,
            RequestDraft { response_tests: u.draft.response_tests, ..d },
        ) && u.draft.response_tests@ == update_first(
            d.response_tests@,
            has_id::<ResponseAssertion>(assertion_id@),
            assertion_set_selector(selector),
        ),
        TabEdit::AssertionExpectedChanged { assertion_id, expected } => draft_replaced(
            t,
            u,
            RequestDraft { response_tests: u.draft.response_tests, ..d },
        ) && u.draft.response_tests@ == update_first(
            d.response_tests@,
            has_id::<ResponseAssertion>(assertion_id@),
            assertion_set_expected(expected),
        ),
        TabEdit::AssertionRemoved { assertion_id } => draft_replaced(
            t,
            u,
            RequestDraft { response_tests: u.draft.response_tests, ..d },
        ) && u.draft.response_tests@ == d.response_tests@.filter(
            lacks_id::<ResponseAssertion>(assertion_id@),
        ),
        TabEdit::BodyModeChanged(mode) => u == RequestTabState {
            draft: RequestDraft { body: crate::model::RequestBodyDraft { mode: mode, ..d.body }, ..d },
            ..t
        },
        TabEdit::BodyTextChanged(text) => u == RequestTabState {
            draft: RequestDraft { body: crate::model::RequestBodyDraft { value: text, ..d.body }, ..d },
            ..t
        },
        TabEdit::FormDataRowAdded => draft_replaced(
            t,
            u,
            RequestDraft {
                body: crate::model::RequestBodyDraft { form_data: u.draft.body.form_data, ..d.body },
                ..d
            },
        ) && form_row_appended(d.body.form_data@, u.draft.body.form_data@),
        TabEdit::FormDataRowKeyChanged { row_id, key } => draft_replaced(
            t,
            u,
            RequestDraft {
                body: crate::model::RequestBodyDraft { form_data: u.draft.body.form_data, ..d.body },
                ..d
            },
        ) && u.draft.body.form_data@ == update_first(
            d.body.form_data@,
            has_id::<FormDataRow>(row_id@),
            form_set_key(key),
        ),
        TabEdit::FormDataRowValueChanged { row_id, value } => draft_replaced(
            t,
            u,
            RequestDraft {
                body: crate::model::RequestBodyDraft { form_data: u.draft.body.form_data, ..d.body },
                ..d
            },
        ) && u.draft.body.form_data@ == update_first(
            d.body.form_data@,
            has_id::<FormDataRow>(row_id@),
            form_set_value(value),
        ),
        TabEdit::FormDataRowEnabledToggled { row_id } => draft_replaced(
            t,
            u,
            RequestDraft {
                body: crate::model::RequestBodyDraft { form_data: u.draft.body.form_data, ..d.body },
                ..d
            },
        ) && u.draft.body.form_data@ == update_first(
            d.body.form_data@,
            has_id::<FormDataRow>(row_id@),
            form_toggle(),
        ),
        TabEdit::FormDataRowKindChanged { row_id, kind } => draft_replaced(
            t,
            u,
            RequestDraft {
                body: crate::model::RequestBodyDraft { form_data: u.draft.body.form_data, ..d.body },
                ..d
            },
        ) && u.draft.body.form_data@ == update_first(
            d.body.form_data@,
            has_id::<FormDataRow>(row_id@),
            form_set_kind(kind),
        ),
        TabEdit::FormDataRowRemoved { row_id } => draft_replaced(
            t,
            u,
            RequestDraft {
                body: crate::model::RequestBodyDraft { form_data: u.draft.body.form_data, ..d.body },
                ..d
            },
        ) && u.draft.body.form_data@ == d.body.form_data@.filter(
            lacks_id::<FormDataRow>(row_id@),
        ),
    }
}

} // verus!

verus! {

fn set_kv_key(rows: &mut Vec<KeyValueRow>, row_id: &str, key: String)
    ensures
        final(rows)@ == update_first(old(rows)@, has_id::<KeyValueRow>(row_id@), kv_set_key(key)),
{
    proof {
        crate::seqs::lemma_first_index(rows@, crate::rows::has_id(row_id@));
    }
    if let Some(j) = find_by_id(rows, row_id) {
        let ghost k = key;
        rows[j].key = key;
        assert(rows@ =~= old(rows)@.update(j as int, kv_set_key(k)(old(rows)@[j as int])));
    }
}

fn set_kv_value(rows: &mut Vec<KeyValueRow>, row_id: &str, value: String)
    ensures
        final(rows)@ == update_first(
            old(rows)@,
            has_id::<KeyValueRow>(row_id@),
            kv_set_value(value),
        ),
{
    proof {
        crate::seqs::lemma_first_index(rows@, crate::rows::has_id(row_id@));
    }
    if let Some(j) = find_by_id(rows, row_id) {
        let ghost v = value;
        rows[j].value = value;
        assert(rows@ =~= old(rows)@.update(j as int, kv_set_value(v)(old(rows)@[j as int])));
    }
}

fn toggle_kv(rows: &mut Vec<KeyValueRow>, row_id: &str)
    ensures
        final(rows)@ == update_first(old(rows)@, has_id::<KeyValueRow>(row_id@), kv_toggle()),
{
    proof {
        crate::seqs::lemma_first_index(rows@, crate::rows::has_id(row_id@));
    }
    if let Some(j) = find_by_id(rows, row_id) {
        let enabled = rows[j].enabled;
        rows[j].enabled = !enabled;
        assert(rows@ =~= old(rows)@.update(j as int, kv_toggle()(old(rows)@[j as int])));
    }
}

fn add_kv_row(rows: &mut Vec<KeyValueRow>)
    ensures
        kv_row_appended(old(rows)@, final(rows)@),
{
    rows.push(
        KeyValueRow {
            id: crate::external::new_identifier(),
            key: String::new(),
            value: String::new(),
            enabled: true,
        },
    );
    assert(rows@.subrange(0, old(rows)@.len() as int) =~= old(rows)@);
}

fn update_assertion(
    rows: &mut Vec<ResponseAssertion>,
    assertion_id: &str,
    edit: &TabEdit,
    Ghost(f): Ghost<spec_fn(ResponseAssertion) -> ResponseAssertion>,
)
    requires
        match *edit {
            TabEdit::AssertionNameChanged { name, .. } => f == assertion_set_name(name),
            TabEdit::AssertionEnabledToggled { .. } => f == assertion_toggle(),
            TabEdit::AssertionSourceChanged { source, .. } => f == assertion_set_source(source),
            TabEdit::AssertionOperatorChanged { operator, .. } => f == assertion_set_operator(
                operator,
            ),
            TabEdit::AssertionSelectorChanged { selector, .. } => f == assertion_set_selector(
                selector,
            ),
            TabEdit::AssertionExpectedChanged { expected, .. } => f == assertion_set_expected(
                expected,
            ),
            _ => false,
        },
    ensures
        final(rows)@ == update_first(
            old(rows)@,
            has_id::<ResponseAssertion>(assertion_id@),
            f,
        ),
{
    proof {
        crate::seqs::lemma_first_index(rows@, crate::rows::has_id(assertion_id@));
    }
    if let Some(j) = find_by_id(rows, assertion_id) {
        match edit {
            TabEdit::AssertionNameChanged { name, .. } => {
                rows[j].name = name.clone();
            },
            TabEdit::AssertionEnabledToggled { .. } => {
                let enabled = rows[j].enabled;
                rows[j].enabled = !enabled;
            },
            TabEdit::AssertionSourceChanged { source, .. } => {
                rows[j].source = *source;
            },
            TabEdit::AssertionOperatorChanged { operator, .. } => {
                rows[j].operator = *operator;
            },
            TabEdit::AssertionSelectorChanged { selector, .. } => {
                rows[j].selector = if blank(selector.as_str()) {
                    None
                } else {
                    Some(selector.clone())
                };
            },
            TabEdit::AssertionExpectedChanged { expected, .. } => {
                rows[j].expected = expected.clone();
            },
            _ => {},
        }
        assert(rows@ =~= old(rows)@.update(j as int, f(old(rows)@[j as int])));
    }
}

fn update_form_row(
    rows: &mut Vec<FormDataRow>,
    row_id: &str,
    edit: &TabEdit,
    Ghost(f): Ghost<spec_fn(FormDataRow) -> FormDataRow>,
)
    requires
        match *edit {
            TabEdit::FormDataRowKeyChanged { key, .. } => f == form_set_key(key),
            TabEdit::FormDataRowValueChanged { value, .. } => f == form_set_value(value),
            TabEdit::FormDataRowEnabledToggled { .. } => f == form_toggle(),
            TabEdit::FormDataRowKindChanged { kind, .. } => f == form_set_kind(kind),
            _ => false,
        },
    ensures
        final(rows)@ == update_first(old(rows)@, has_id::<FormDataRow>(row_id@), f),
{
    proof {
        crate::seqs::lemma_first_index(rows@, crate::rows::has_id(row_id@));
    }
    if let Some(j) = find_by_id(rows, row_id) {
        match edit {
            TabEdit::FormDataRowKeyChanged { key, .. } => {
                rows[j].key = key.clone();
            },
            TabEdit::FormDataRowValueChanged { value, .. } => {
                rows[j].value = value.clone();
            },
            TabEdit::FormDataRowEnabledToggled { .. } => {
                let enabled = rows[j].enabled;
                rows[j].enabled = !enabled;
            },
            TabEdit::FormDataRowKindChanged { kind, .. } => {
                rows[j].kind = *kind;
                rows[j].file_name = None;
            },
            _ => {},
        }
        assert(rows@ =~= old(rows)@.update(j as int, f(old(rows)@[j as int])));
    }
}

} // verus!

verus! {

#[verifier::spinoff_prover]
fn apply_field_edit(tab: &mut RequestTabState, edit: TabEdit)
    requires
        edit is MethodChanged || edit is UrlChanged || edit is EnvironmentChanged || edit is ConfigTabSelected,
    ensures
        tab_edit_spec(*old(tab), *final(tab), edit),
{
    match edit {
        TabEdit::MethodChanged(method) => {
            tab.draft.method = method;
            if !tab.manual_tab_override {
                tab.active_request_tab = default_tab_for_method(method);
            }
        },
        TabEdit::UrlChanged(url) => {
            tab.draft.url = url;
            tab.curl_paste_error = None;
        },
        TabEdit::EnvironmentChanged(environment_id) => {
            tab.draft.environment_id = environment_id;
        },
        TabEdit::ConfigTabSelected(selected) => {
            tab.active_request_tab = selected;
            tab.manual_tab_override = true;
        },
        _ => {},
    }
}

#[verifier::spinoff_prover]
fn apply_auth_edit(tab: &mut RequestTabState, edit: TabEdit)
    requires
        edit is AuthTypeChanged || edit is BearerTokenChanged || edit is BasicUsernameChanged || edit is BasicPasswordChanged || edit is ApiKeyKeyChanged || edit is ApiKeyValueChanged || edit is ApiKeyPlacementChanged,
    ensures
        tab_edit_spec(*old(tab), *final(tab), edit),
{
    match edit {
        TabEdit::AuthTypeChanged(kind) => {
            tab.draft.auth = match kind {
                AuthKind::NoAuth => AuthConfig::NoAuth,
                AuthKind::Bearer => AuthConfig::Bearer { token: String::new() },
                AuthKind::Basic => AuthConfig::Basic {
                    username: String::new(),
                    password: String::new(),
                },
                AuthKind::ApiKey => AuthConfig::ApiKey {
                    key: String::new(),
                    value: String::new(),
                    placement: ApiKeyPlacement::Header,
                },
            };
        },
        TabEdit::BearerTokenChanged(token) => {
            if let AuthConfig::Bearer { .. } = &tab.draft.auth {
                tab.draft.auth = AuthConfig::Bearer { token };
            }
        },
        TabEdit::BasicUsernameChanged(username) => {
            let replacement = match &tab.draft.auth {
                AuthConfig::Basic { password, .. } => Some(
                    AuthConfig::Basic { username, password: password.clone() },
                ),
                _ => None,
            };
            if let Some(auth) = replacement {
                tab.draft.auth = auth;
            }
        },
        TabEdit::BasicPasswordChanged(password) => {
            let replacement = match &tab.draft.auth {
                AuthConfig::Basic { username, .. } => Some(
                    AuthConfig::Basic { username: username.clone(), password },
                ),
                _ => None,
            };
            if let Some(auth) = replacement {
                tab.draft.auth = auth;
            }
        },
        TabEdit::ApiKeyKeyChanged(key) => {
            let replacement = match &tab.draft.auth {
                AuthConfig::ApiKey { value, placement, .. } => Some(
                    AuthConfig::ApiKey { key, value: value.clone(), placement: *placement },
                ),
                _ => None,
            };
            if let Some(auth) = replacement {
                tab.draft.auth = auth;
            }
        },
        TabEdit::ApiKeyValueChanged(value) => {
            let replacement = match &tab.draft.auth {
                AuthConfig::ApiKey { key, placement, .. } => Some(
                    AuthConfig::ApiKey { key: key.clone(), value, placement: *placement },
                ),
                _ => None,
            };
            if let Some(auth) = replacement {
                tab.draft.auth = auth;
            }
        },
        TabEdit::ApiKeyPlacementChanged(placement) => {
            let replacement = match &tab.draft.auth {
                AuthConfig::ApiKey { key, value, .. } => Some(
                    AuthConfig::ApiKey { key: key.clone(), value: value.clone(), placement },
                ),
                _ => None,
            };
            if let Some(auth) = replacement {
                tab.draft.auth = auth;
            }
        },
        _ => {},
    }
}

#[verifier::spinoff_prover]
fn apply_key_value_edit(tab: &mut RequestTabState, edit: TabEdit)
    requires
        edit is KeyValueRowAdded || edit is KeyValueRowKeyChanged || edit is KeyValueRowValueChanged || edit is KeyValueRowEnabledToggled || edit is KeyValueRowRemoved,
    ensures
        tab_edit_spec(*old(tab), *final(tab), edit),
{
    match edit {
        TabEdit::KeyValueRowAdded(target) => {
            match target {
                KeyValueTarget::Query => add_kv_row(&mut tab.draft.query),
                KeyValueTarget::Headers => add_kv_row(&mut tab.draft.headers),
            }
        },
        TabEdit::KeyValueRowKeyChanged { target, row_id, key } => {
            match target {
                KeyValueTarget::Query => set_kv_key(&mut tab.draft.query, row_id.as_str(), key),
                KeyValueTarget::Headers => set_kv_key(
                    &mut tab.draft.headers,
                    row_id.as_str(),
                    key,
                ),
            }
        },
        TabEdit::KeyValueRowValueChanged { target, row_id, value } => {
            match target {
                KeyValueTarget::Query => set_kv_value(
                    &mut tab.draft.query,
                    row_id.as_str(),
                    value,
                ),
                KeyValueTarget::Headers => set_kv_value(
                    &mut tab.draft.headers,
                    row_id.as_str(),
                    value,
                ),
            }
        },
        TabEdit::KeyValueRowEnabledToggled { target, row_id } => {
            match target {
                KeyValueTarget::Query => toggle_kv(&mut tab.draft.query, row_id.as_str()),
                KeyValueTarget::Headers => toggle_kv(&mut tab.draft.headers, row_id.as_str()),
            }
        },
        TabEdit::KeyValueRowRemoved { target, row_id } => {
            match target {
                KeyValueTarget::Query => remove_by_id(&mut tab.draft.query, row_id.as_str()),
                KeyValueTarget::Headers => remove_by_id(&mut tab.draft.headers, row_id.as_str()),
            }
        },
        _ => {},
    }
}

#[verifier::spinoff_prover]
fn apply_assertion_edit(tab: &mut RequestTabState, edit: TabEdit)
    requires
        edit is AssertionAdded || edit is AssertionNameChanged || edit is AssertionEnabledToggled || edit is AssertionSourceChanged || edit is AssertionOperatorChanged || edit is AssertionSelectorChanged || edit is AssertionExpectedChanged || edit is AssertionRemoved,
    ensures
        tab_edit_spec(*old(tab), *final(tab), edit),
{
    match edit {
        TabEdit::AssertionAdded => {
            let ghost pre = tab.draft.response_tests@;
            tab.draft.response_tests.push(
                ResponseAssertion {
                    id: crate::external::new_identifier(),
                    name: String::new(),
                    enabled: true,
                    source: AssertionSource::Status,
                    operator: AssertionOperator::Equals,
                    selector: None,
                    expected: String::new(),
                },
            );
            assert(tab.draft.response_tests@.subrange(0, pre.len() as int) =~= pre);
        },
        TabEdit::AssertionNameChanged { ref assertion_id, ref name } => {
            update_assertion(
                &mut tab.draft.response_tests,
                assertion_id.as_str(),
                &edit,
                Ghost(assertion_set_name(*name)),
            );
        },
        TabEdit::AssertionEnabledToggled { ref assertion_id } => {
            update_assertion(
                &mut tab.draft.response_tests,
                assertion_id.as_str(),
                &edit,
                Ghost(assertion_toggle()),
            );
        },
        TabEdit::AssertionSourceChanged { ref assertion_id, source } => {
            update_assertion(
                &mut tab.draft.response_tests,
                assertion_id.as_str(),
                &edit,
                Ghost(assertion_set_source(source)),
            );
        },
        TabEdit::AssertionOperatorChanged { ref assertion_id, operator } => {
            update_assertion(
                &mut tab.draft.response_tests,
                assertion_id.as_str(),
                &edit,
                Ghost(assertion_set_operator(operator)),
            );
        },
        TabEdit::AssertionSelectorChanged { ref assertion_id, ref selector } => {
            update_assertion(
                &mut tab.draft.response_tests,
                assertion_id.as_str(),
                &edit,
                Ghost(assertion_set_selector(*selector)),
            );
        },
        TabEdit::AssertionExpectedChanged { ref assertion_id, ref expected } => {
            update_assertion(
                &mut tab.draft.response_tests,
                assertion_id.as_str(),
                &edit,
                Ghost(assertion_set_expected(*expected)),
            );
        },
        TabEdit::AssertionRemoved { assertion_id } => {
            remove_by_id(&mut tab.draft.response_tests, assertion_id.as_str());
        },
        _ => {},
    }
}

#[verifier::spinoff_prover]
fn apply_body_edit(tab: &mut RequestTabState, edit: TabEdit)
    requires
        edit is BodyModeChanged || edit is BodyTextChanged || edit is FormDataRowAdded || edit is FormDataRowKeyChanged || edit is FormDataRowValueChanged || edit is FormDataRowEnabledToggled || edit is FormDataRowKindChanged || edit is FormDataRowRemoved,
    ensures
        tab_edit_spec(*old(tab), *final(tab), edit),
{
    match edit {
        TabEdit::BodyModeChanged(mode) => {
            tab.draft.body.mode = mode;
        },
        TabEdit::BodyTextChanged(text) => {
            tab.draft.body.value = text;
        },
        TabEdit::FormDataRowAdded => {
            let ghost pre = tab.draft.body.form_data@;
            tab.draft.body.form_data.push(
                FormDataRow {
                    id: crate::external::new_identifier(),
                    key: String::new(),
                    value: String::new(),
                    enabled: true,
                    kind: FormDataFieldKind::Text,
                    file_name: None,
                },
            );
            assert(tab.draft.body.form_data@.subrange(0, pre.len() as int) =~= pre);
        },
        TabEdit::FormDataRowKeyChanged { ref row_id, ref key } => {
            update_form_row(
                &mut tab.draft.body.form_data,
                row_id.as_str(),
                &edit,
                Ghost(form_set_key(*key)),
            );
        },
        TabEdit::FormDataRowValueChanged { ref row_id, ref value } => {
            update_form_row(
                &mut tab.draft.body.form_data,
                row_id.as_str(),
                &edit,
                Ghost(form_set_value(*value)),
            );
        },
        TabEdit::FormDataRowEnabledToggled { ref row_id } => {
            update_form_row(
                &mut tab.draft.body.form_data,
                row_id.as_str(),
                &edit,
                Ghost(form_toggle()),
            );
        },
        TabEdit::FormDataRowKindChanged { ref row_id, kind } => {
            update_form_row(
                &mut tab.draft.body.form_data,
                row_id.as_str(),
                &edit,
                Ghost(form_set_kind(kind)),
            );
        },
        TabEdit::FormDataRowRemoved { row_id } => {
            remove_by_id(&mut tab.draft.body.form_data, row_id.as_str());
        },
        _ => {},
    }
}

/// Applies `edit` to the tab.
pub fn apply_tab_edit(tab: &mut RequestTabState, edit: TabEdit)
    ensures
        tab_edit_spec(*old(tab), *final(tab), edit),
{
    match edit {
        TabEdit::MethodChanged(_) | TabEdit::UrlChanged(_) | TabEdit::EnvironmentChanged(_)
        | TabEdit::ConfigTabSelected(_) => apply_field_edit(tab, edit),
        TabEdit::AuthTypeChanged(_) | TabEdit::BearerTokenChanged(_)
        | TabEdit::BasicUsernameChanged(_) | TabEdit::BasicPasswordChanged(_)
        | TabEdit::ApiKeyKeyChanged(_) | TabEdit::ApiKeyValueChanged(_)
        | TabEdit::ApiKeyPlacementChanged(_) => apply_auth_edit(tab, edit),
        TabEdit::KeyValueRowAdded(_) | TabEdit::KeyValueRowKeyChanged { .. }
        | TabEdit::KeyValueRowValueChanged { .. } | TabEdit::KeyValueRowEnabledToggled { .. }
        | TabEdit::KeyValueRowRemoved { .. } => apply_key_value_edit(tab, edit),
        TabEdit::AssertionAdded | TabEdit::AssertionNameChanged { .. }
        | TabEdit::AssertionEnabledToggled { .. } | TabEdit::AssertionSourceChanged { .. }
        | TabEdit::AssertionOperatorChanged { .. } | TabEdit::AssertionSelectorChanged { .. }
        | TabEdit::AssertionExpectedChanged { .. } | TabEdit::AssertionRemoved { .. } => {
            apply_assertion_edit(tab, edit)
        },
        _ => apply_body_edit(tab, edit),
    }
}

} // verus!
