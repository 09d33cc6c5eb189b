//! The HTTP request model that the tabs edit: methods, auth, body, the
//! key/value rows, the response assertions and the request draft itself.
//!
//! Every type here has a view whose text fields are `Seq<char>`, so that
//! contracts compare content rather than allocations.

use vstd::prelude::*;

verus! {

/// The characters of an optional string.
pub open spec fn opt_view(o: Option<String>) -> Option<Seq<char>> {
    match o {
        Some(s) => Some(s@),
        None => None,
    }
}

/// A copy of an optional string.
pub fn clone_opt(o: &Option<String>) -> (r: Option<String>)
    ensures
        r == *o,
{
    match o {
        Some(s) => Some(s.clone()),
        None => None,
    }
}

/// Whether two optional strings hold the same characters.
pub fn opt_text_eq(a: &Option<String>, b: &Option<String>) -> (r: bool)
    ensures
        r == (opt_view(*a) == opt_view(*b)),
{
    match (a, b) {
        (Some(x), Some(y)) => *x == *y,
        (None, None) => true,
        _ => false,
    }
}

/// Whether `o` holds a string with the characters of `s`.
pub fn opt_is(o: &Option<String>, s: &String) -> (r: bool)
    ensures
        r == (opt_view(*o) == Some(s@)),
{
    match o {
        Some(x) => *x == *s,
        None => false,
    }
}

#[derive(Debug, Clone, Copy, PartialEq, Eq, Structural)]
pub enum HttpMethod {
    GET,
    POST,
    PUT,
    PATCH,
    DELETE,
    HEAD,
    OPTIONS,
}

/// The method's name as it goes on the wire.
pub open spec fn method_name_spec(m: HttpMethod) -> Seq<char> {
    match m {
        HttpMethod::GET => seq!['G', 'E', 'T'],
        HttpMethod::POST => seq!['P', 'O', 'S', 'T'],
        HttpMethod::PUT => seq!['P', 'U', 'T'],
        HttpMethod::PATCH => seq!['P', 'A', 'T', 'C', 'H'],
        HttpMethod::DELETE => seq!['D', 'E', 'L', 'E', 'T', 'E'],
        HttpMethod::HEAD => seq!['H', 'E', 'A', 'D'],
        HttpMethod::OPTIONS => seq!['O', 'P', 'T', 'I', 'O', 'N', 'S'],
    }
}

impl HttpMethod {
    /// The method's name, as `Display` prints it.
    pub fn name(&self) -> (r: &'static str)
        ensures
            r@ == method_name_spec(*self),
    {
        proof {
            reveal_strlit("GET");
            reveal_strlit("POST");
            reveal_strlit("PUT");
            reveal_strlit("PATCH");
            reveal_strlit("DELETE");
            reveal_strlit("HEAD");
            reveal_strlit("OPTIONS");
        }
        let r = match self {
            HttpMethod::GET => "GET",
            HttpMethod::POST => "POST",
            HttpMethod::PUT => "PUT",
            HttpMethod::PATCH => "PATCH",
            HttpMethod::DELETE => "DELETE",
            HttpMethod::HEAD => "HEAD",
            HttpMethod::OPTIONS => "OPTIONS",
        };
        assert(r@ =~= method_name_spec(*self));
        r
    }
}

#[derive(Debug, Clone, Copy, PartialEq, Eq, Structural)]
pub enum ApiKeyPlacement {
    Header,
    Query,
}

#[derive(Debug)]
pub enum AuthConfig {
    NoAuth,
    Bearer { token: String },
    Basic { username: String, password: String },
    ApiKey { key: String, value: String, placement: ApiKeyPlacement },
}

pub enum AuthView {
    NoAuth,
    Bearer { token: Seq<char> },
    Basic { username: Seq<char>, password: Seq<char> },
    ApiKey { key: Seq<char>, value: Seq<char>, placement: ApiKeyPlacement },
}

impl View for AuthConfig {
    type V = AuthView;

    open spec fn view(&self) -> AuthView {
        match self {
            AuthConfig::NoAuth => AuthView::NoAuth,
            AuthConfig::Bearer { token } => AuthView::Bearer { token: token@ },
            AuthConfig::Basic { username, password } => AuthView::Basic {
                username: username@,
                password: password@,
            },
            AuthConfig::ApiKey { key, value, placement } => AuthView::ApiKey {
                key: key@,
                value: value@,
                placement: *placement,
            },
        }
    }
}

impl Clone for AuthConfig {
    fn clone(&self) -> (r: Self)
        ensures
            r == *self,
    {
        match self {
            AuthConfig::NoAuth => AuthConfig::NoAuth,
            AuthConfig::Bearer { token } => AuthConfig::Bearer { token: token.clone() },
            AuthConfig::Basic { username, password } => AuthConfig::Basic {
                username: username.clone(),
                password: password.clone(),
            },
            AuthConfig::ApiKey { key, value, placement } => AuthConfig::ApiKey {
                key: key.clone(),
                value: value.clone(),
                placement: *placement,
            },
        }
    }
}

impl AuthConfig {
    /// Whether two auth settings hold the same content.
    pub fn same_as(&self, other: &AuthConfig) -> (r: bool)
        ensures
            r == (self@ == other@),
    {
        match (self, other) {
            (AuthConfig::NoAuth, AuthConfig::NoAuth) => true,
            (AuthConfig::Bearer { token: a }, AuthConfig::Bearer { token: b }) => *a == *b,
            (
                AuthConfig::Basic { username: ua, password: pa },
                AuthConfig::Basic { username: ub, password: pb },
            ) => *ua == *ub && *pa == *pb,
            (
                AuthConfig::ApiKey { key: ka, value: va, placement: la },
                AuthConfig::ApiKey { key: kb, value: vb, placement: lb },
            ) => *ka == *kb && *va == *vb && *la == *lb,
            _ => false,
        }
    }
}

#[derive(Debug, Clone, Copy, PartialEq, Eq, Structural)]
pub enum BodyMode {
    NoBody,
    Json,
    Text,
    FormData,
}

#[derive(Debug, Clone, Copy, PartialEq, Eq, Structural)]
pub enum FormDataFieldKind {
    Text,
    File,
}

#[derive(Debug)]
pub struct KeyValueRow {
    pub id: String,
    pub key: String,
    pub value: String,
    pub enabled: bool,
}

pub struct KeyValueRowView {
    pub id: Seq<char>,
    pub key: Seq<char>,
    pub value: Seq<char>,
    pub enabled: bool,
}

impl View for KeyValueRow {
    type V = KeyValueRowView;

    open spec fn view(&self) -> KeyValueRowView {
        KeyValueRowView { id: self.id@, key: self.key@, value: self.value@, enabled: self.enabled }
    }
}

impl Clone for KeyValueRow {
    fn clone(&self) -> (r: Self)
        ensures
            r == *self,
    {
        KeyValueRow {
            id: self.id.clone(),
            key: self.key.clone(),
            value: self.value.clone(),
            enabled: self.enabled,
        }
    }
}

#[derive(Debug)]
pub struct FormDataRow {
    pub id: String,
    pub key: String,
    pub value: String,
    pub enabled: bool,
    pub kind: FormDataFieldKind,
    pub file_name: Option<String>,
}

pub struct FormDataRowView {
    pub id: Seq<char>,
    pub key: Seq<char>,
    pub value: Seq<char>,
    pub enabled: bool,
    pub kind: FormDataFieldKind,
    pub file_name: Option<Seq<char>>,
}

impl View for FormDataRow {
    type V = FormDataRowView;

    open spec fn view(&self) -> FormDataRowView {
        FormDataRowView {
            id: self.id@,
            key: self.key@,
            value: self.value@,
            enabled: self.enabled,
            kind: self.kind,
            file_name: opt_view(self.file_name),
        }
    }
}

impl Clone for FormDataRow {
    fn clone(&self) -> (r: Self)
        ensures
            r == *self,
    {
        FormDataRow {
            id: self.id.clone(),
            key: self.key.clone(),
            value: self.value.clone(),
            enabled: self.enabled,
            kind: self.kind,
            file_name: clone_opt(&self.file_name),
        }
    }
}

#[derive(Debug, Clone, Copy, PartialEq, Eq, Structural)]
pub enum AssertionSource {
    Status,
    Header,
    BodyText,
    JsonPointer,
    FinalUrl,
}

#[derive(Debug, Clone, Copy, PartialEq, Eq, Structural)]
pub enum AssertionOperator {
    Equals,
    Contains,
    NotContains,
    Exists,
}

#[derive(Debug)]
pub struct ResponseAssertion {
    pub id: String,
    pub name: String,
    pub enabled: bool,
    pub source: AssertionSource,
    pub operator: AssertionOperator,
    pub selector: Option<String>,
    pub expected: String,
}

pub struct ResponseAssertionView {
    pub id: Seq<char>,
    pub name: Seq<char>,
    pub enabled: bool,
    pub source: AssertionSource,
    pub operator: AssertionOperator,
    pub selector: Option<Seq<char>>,
    pub expected: Seq<char>,
}

impl View for ResponseAssertion {
    type V = ResponseAssertionView;

    open spec fn view(&self) -> ResponseAssertionView {
        ResponseAssertionView {
            id: self.id@,
            name: self.name@,
            enabled: self.enabled,
            source: self.source,
            operator: self.operator,
            selector: opt_view(self.selector),
            expected: self.expected@,
        }
    }
}

impl Clone for ResponseAssertion {
    fn clone(&self) -> (r: Self)
        ensures
            r == *self,
    {
        ResponseAssertion {
            id: self.id.clone(),
            name: self.name.clone(),
            enabled: self.enabled,
            source: self.source,
            operator: self.operator,
            selector: clone_opt(&self.selector),
            expected: self.expected.clone(),
        }
    }
}

pub open spec fn kv_views(rows: Seq<KeyValueRow>) -> Seq<KeyValueRowView> {
    rows.map_values(|r: KeyValueRow| r@)
}

pub open spec fn form_views(rows: Seq<FormDataRow>) -> Seq<FormDataRowView> {
    rows.map_values(|r: FormDataRow| r@)
}

pub open spec fn assertion_views(rows: Seq<ResponseAssertion>) -> Seq<ResponseAssertionView> {
    rows.map_values(|r: ResponseAssertion| r@)
}

/// A copy of a list of key/value rows.
pub fn clone_kv_rows(rows: &Vec<KeyValueRow>) -> (r: Vec<KeyValueRow>)
    ensures
        r@ == rows@,
{
    let mut out: Vec<KeyValueRow> = Vec::new();
    let mut i: usize = 0;
    while i < rows.len()
        invariant
            i <= rows@.len(),
            out@ == rows@.subrange(0, i as int),
        decreases rows@.len() - i,
    {
        out.push(rows[i].clone());
        i = i + 1;
        assert(out@ =~= rows@.subrange(0, i as int));
    }
    assert(rows@.subrange(0, rows@.len() as int) =~= rows@);
    out
}

/// A copy of a list of form fields.
pub fn clone_form_rows(rows: &Vec<FormDataRow>) -> (r: Vec<FormDataRow>)
    ensures
        r@ == rows@,
{
    let mut out: Vec<FormDataRow> = Vec::new();
    let mut i: usize = 0;
    while i < rows.len()
        invariant
            i <= rows@.len(),
            out@ == rows@.subrange(0, i as int),
        decreases rows@.len() - i,
    {
        out.push(rows[i].clone());
        i = i + 1;
        assert(out@ =~= rows@.subrange(0, i as int));
    }
    assert(rows@.subrange(0, rows@.len() as int) =~= rows@);
    out
}

/// A copy of a list of assertions.
pub fn clone_assertions(rows: &Vec<ResponseAssertion>) -> (r: Vec<ResponseAssertion>)
    ensures
        r@ == rows@,
{
    let mut out: Vec<ResponseAssertion> = Vec::new();
    let mut i: usize = 0;
    while i < rows.len()
        invariant
            i <= rows@.len(),
            out@ == rows@.subrange(0, i as int),
        decreases rows@.len() - i,
    {
        out.push(rows[i].clone());
        i = i + 1;
        assert(out@ =~= rows@.subrange(0, i as int));
    }
    assert(rows@.subrange(0, rows@.len() as int) =~= rows@);
    out
}

/// Whether two lists of key/value rows hold the same content.
pub fn kv_rows_same(a: &Vec<KeyValueRow>, b: &Vec<KeyValueRow>) -> (r: bool)
    ensures
        r == (kv_views(a@) == kv_views(b@)),
{
    if a.len() != b.len() {
        assert(kv_views(a@).len() != kv_views(b@).len());
        return false;
    }
    let mut i: usize = 0;
    while i < a.len()
        invariant
            a@.len() == b@.len(),
            i <= a@.len(),
            forall|k: int| 0 <= k < i ==> a@[k]@ == b@[k]@,
        decreases a@.len() - i,
    {
        let x = &a[i];
        let y = &b[i];
        if !(x.id == y.id && x.key == y.key && x.value == y.value && x.enabled == y.enabled) {
            assert(kv_views(a@)[i as int] != kv_views(b@)[i as int]);
            return false;
        }
        i = i + 1;
    }
    assert(kv_views(a@) =~= kv_views(b@));
    true
}

/// Whether two lists of form fields hold the same content.
pub fn form_rows_same(a: &Vec<FormDataRow>, b: &Vec<FormDataRow>) -> (r: bool)
    ensures
        r == (form_views(a@) == form_views(b@)),
{
    if a.len() != b.len() {
        assert(form_views(a@).len() != form_views(b@).len());
        return false;
    }
    let mut i: usize = 0;
    while i < a.len()
        invariant
            a@.len() == b@.len(),
            i <= a@.len(),
            forall|k: int| 0 <= k < i ==> a@[k]@ == b@[k]@,
        decreases a@.len() - i,
    {
        let x = &a[i];
        let y = &b[i];
        if !(x.id == y.id && x.key == y.key && x.value == y.value && x.enabled == y.enabled
            && x.kind == y.kind && opt_text_eq(&x.file_name, &y.file_name)) {
            assert(form_views(a@)[i as int] != form_views(b@)[i as int]);
            return false;
        }
        i = i + 1;
    }
    assert(form_views(a@) =~= form_views(b@));
    true
}

/// Whether two lists of assertions hold the same content.
pub fn assertions_same(a: &Vec<ResponseAssertion>, b: &Vec<ResponseAssertion>) -> (r: bool)
    ensures
        r == (assertion_views(a@) == assertion_views(b@)),
{
    if a.len() != b.len() {
        assert(assertion_views(a@).len() != assertion_views(b@).len());
        return false;
    }
    let mut i: usize = 0;
    while i < a.len()
        invariant
            a@.len() == b@.len(),
            i <= a@.len(),
            forall|k: int| 0 <= k < i ==> a@[k]@ == b@[k]@,
        decreases a@.len() - i,
    {
        let x = &a[i];
        let y = &b[i];
        if !(x.id == y.id && x.name == y.name && x.enabled == y.enabled && x.source == y.source
            && x.operator == y.operator && opt_text_eq(&x.selector, &y.selector) && x.expected
            == y.expected) {
            assert(assertion_views(a@)[i as int] != assertion_views(b@)[i as int]);
            return false;
        }
        i = i + 1;
    }
    assert(assertion_views(a@) =~= assertion_views(b@));
    true
}

#[derive(Debug)]
pub struct RequestBodyDraft {
    pub mode: BodyMode,
    pub value: String,
    pub form_data: Vec<FormDataRow>,
}

#[derive(Debug)]
pub struct RequestDraft {
    pub id: Option<String>,
    pub name: String,
    pub method: HttpMethod,
    pub url: String,
    pub query: Vec<KeyValueRow>,
    pub headers: Vec<KeyValueRow>,
    pub auth: AuthConfig,
    pub body: RequestBodyDraft,
    pub timeout_ms: u64,
    pub environment_id: Option<String>,
    pub response_tests: Vec<ResponseAssertion>,
}

pub struct RequestDraftView {
    pub id: Option<Seq<char>>,
    pub name: Seq<char>,
    pub method: HttpMethod,
    pub url: Seq<char>,
    pub query: Seq<KeyValueRowView>,
    pub headers: Seq<KeyValueRowView>,
    pub auth: AuthView,
    pub body_mode: BodyMode,
    pub body_value: Seq<char>,
    pub form_data: Seq<FormDataRowView>,
    pub timeout_ms: u64,
    pub environment_id: Option<Seq<char>>,
    pub response_tests: Seq<ResponseAssertionView>,
}

impl View for RequestDraft {
    type V = RequestDraftView;

    open spec fn view(&self) -> RequestDraftView {
        RequestDraftView {
            id: opt_view(self.id),
            name: self.name@,
            method: self.method,
            url: self.url@,
            query: kv_views(self.query@),
            headers: kv_views(self.headers@),
            auth: self.auth@,
            body_mode: self.body.mode,
            body_value: self.body.value@,
            form_data: form_views(self.body.form_data@),
            timeout_ms: self.timeout_ms,
            environment_id: opt_view(self.environment_id),
            response_tests: assertion_views(self.response_tests@),
        }
    }
}

impl Clone for RequestDraft {
    fn clone(&self) -> (r: Self)
        ensures
            r@ == self@,
    {
        RequestDraft {
            id: clone_opt(&self.id),
            name: self.name.clone(),
            method: self.method,
            url: self.url.clone(),
            query: clone_kv_rows(&self.query),
            headers: clone_kv_rows(&self.headers),
            auth: self.auth.clone(),
            body: RequestBodyDraft {
                mode: self.body.mode,
                value: self.body.value.clone(),
                form_data: clone_form_rows(&self.body.form_data),
            },
            timeout_ms: self.timeout_ms,
            environment_id: clone_opt(&self.environment_id),
            response_tests: clone_assertions(&self.response_tests),
        }
    }
}

/// The timeout a new request gets, in milliseconds.
pub const DEFAULT_TIMEOUT_MS: u64 = 30_000;

/// The name a new request gets: "Nueva petición".
pub open spec fn blank_request_name() -> Seq<char> {
    seq!['N', 'u', 'e', 'v', 'a', ' ', 'p', 'e', 't', 'i', 'c', 'i', 'ó', 'n']
}

/// The draft of a new tab: GET, no URL, nothing configured.
pub open spec fn is_blank_draft(d: RequestDraftView) -> bool {
    &&& d.id is None
    &&& d.name == blank_request_name()
    &&& d.method == HttpMethod::GET
    &&& d.url.len() == 0
    &&& d.query.len() == 0
    &&& d.headers.len() == 0
    &&& d.auth is NoAuth
    &&& d.body_mode == BodyMode::NoBody
    &&& d.body_value.len() == 0
    &&& d.form_data.len() == 0
    &&& d.timeout_ms == DEFAULT_TIMEOUT_MS
    &&& d.environment_id is None
    &&& d.response_tests.len() == 0
}

/// A draft for a new, empty tab.
pub fn create_blank_draft() -> (r: RequestDraft)
    ensures
        is_blank_draft(r@),
{
    proof {
        reveal_strlit("Nueva petición");
    }
    let name = String::from_str("Nueva petición");
    assert(name@ =~= blank_request_name());
    let r = RequestDraft {
        id: None,
        name,
        method: HttpMethod::GET,
        url: String::new(),
        query: Vec::new(),
        headers: Vec::new(),
        auth: AuthConfig::NoAuth,
        body: RequestBodyDraft { mode: BodyMode::NoBody, value: String::new(), form_data: Vec::new() },
        timeout_ms: DEFAULT_TIMEOUT_MS,
        environment_id: None,
        response_tests: Vec::new(),
    };
    assert(kv_views(r.query@) =~= Seq::<KeyValueRowView>::empty());
    assert(kv_views(r.headers@) =~= Seq::<KeyValueRowView>::empty());
    assert(form_views(r.body.form_data@) =~= Seq::<FormDataRowView>::empty());
    assert(assertion_views(r.response_tests@) =~= Seq::<ResponseAssertionView>::empty());
    r
}

impl RequestDraft {
    /// Whether two drafts hold the same request.
    pub fn same_as(&self, other: &RequestDraft) -> (r: bool)
        ensures
            r == (self@ == other@),
    {
        opt_text_eq(&self.id, &other.id) && self.name == other.name && self.method == other.method
            && self.url == other.url && kv_rows_same(&self.query, &other.query) && kv_rows_same(
            &self.headers,
            &other.headers,
        ) && self.auth.same_as(&other.auth) && self.body.mode == other.body.mode
            && self.body.value == other.body.value && form_rows_same(
            &self.body.form_data,
            &other.body.form_data,
        ) && self.timeout_ms == other.timeout_ms && opt_text_eq(
            &self.environment_id,
            &other.environment_id,
        ) && assertions_same(&self.response_tests, &other.response_tests)
    }
}

} // verus!

verus! {

impl PartialEq for RequestDraft {
    fn eq(&self, other: &Self) -> (r: bool) {
        self.same_as(other)
    }
}

impl vstd::std_specs::cmp::PartialEqSpecImpl for RequestDraft {
    open spec fn obeys_eq_spec() -> bool {
        true
    }

    open spec fn eq_spec(&self, other: &Self) -> bool {
        self@ == other@
    }
}

} // verus!
