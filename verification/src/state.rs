//! The application state: open tabs, panels, prompts and dialogs, the
//! session store and the collection runner.

use vstd::prelude::*;
use std::collections::VecDeque;
use crate::model::{RequestDraft, create_blank_draft, is_blank_draft};
use crate::records::{RequestPreview, ResponseOutcome, WorkspaceSnapshot};

verus! {

/// The configuration tab of a request: Params | Headers | Auth | Body | Tests.
#[derive(Debug, Clone, Copy, PartialEq, Eq, Structural)]
pub enum RequestTab {
    Params,
    Headers,
    Auth,
    Body,
    Tests,
}

/// The tab of the response inspector: Body | Headers | Cookies | Tests.
#[derive(Debug, Clone, Copy, PartialEq, Eq, Structural)]
pub enum ResponseInspectorTab {
    Body,
    Headers,
    Cookies,
    Tests,
}

/// Debug (composer and inspector) or Test (collection runner).
#[derive(Debug, Clone, Copy, PartialEq, Eq, Structural)]
pub enum TopBarMode {
    Debug,
    Test,
}

#[derive(Debug, Clone, Copy, PartialEq, Eq, Structural)]
pub enum ThemeMode {
    Light,
    Dark,
}

impl Default for ThemeMode {
    /// The application starts dark.
    fn default() -> (r: Self)
        ensures
            r == ThemeMode::Dark,
    {
        ThemeMode::Dark
    }
}

#[derive(Debug, PartialEq, Eq)]
pub enum TreeHoveredItem {
    Collection,
    Folder(String),
    Request(String),
}

#[derive(Debug, PartialEq, Eq)]
pub enum RequestDropTarget {
    Root,
    Folder(String),
}

#[derive(Debug, PartialEq, Eq)]
pub struct RequestDragState {
    pub request_id: String,
    pub target: Option<RequestDropTarget>,
}

/// What the request tree pane reports: filtering, folding, opening and
/// editing requests, and the drag of a request onto a folder.
#[derive(Debug)]
pub enum TreeMessage {
    FilterChanged(String),
    FolderToggled(String),
    RequestOpened(String),
    RequestEditRequested(String),
    RequestDragStarted(String),
    RequestDropTargetEntered(RequestDropTarget),
    RequestDropTargetLeft(RequestDropTarget),
    RequestDragReleased,
    RequestDragCancelled,
    RequestMoveCompleted {
        request_id: String,
        destination_folder_id: Option<String>,
        result: Result<(), String>,
    },
    ItemHovered(TreeHoveredItem),
    ItemUnhovered(TreeHoveredItem),
    CreateFirstRequestPressed,
}

/// The request tree: its filter, the folders shown collapsed, and the
/// gesture in progress.
#[derive(Debug)]
pub struct TreeViewState {
    pub filter: String,
    /// Ids of the folders shown collapsed; each occurs once.
    pub collapsed: Vec<String>,
    /// What `collapsed` was before a filter forced every folder open.
    pub collapsed_snapshot: Option<Vec<String>>,
    pub error: Option<String>,
    pub request_drag: Option<RequestDragState>,
    pub moving_request_id: Option<String>,
    pub hovered_item: Option<TreeHoveredItem>,
}

/// A tree with no filter, nothing collapsed and no gesture.
pub open spec fn is_fresh_tree(t: TreeViewState) -> bool {
    &&& t.filter@.len() == 0
    &&& t.collapsed@.len() == 0
    &&& t.collapsed_snapshot is None
    &&& t.error is None
    &&& t.request_drag is None
    &&& t.moving_request_id is None
    &&& t.hovered_item is None
}

impl Default for TreeViewState {
    fn default() -> (r: Self)
        ensures
            is_fresh_tree(r),
    {
        TreeViewState {
            filter: String::new(),
            collapsed: Vec::new(),
            collapsed_snapshot: None,
            error: None,
            request_drag: None,
            moving_request_id: None,
            hovered_item: None,
        }
    }
}

/// The prompt that names a new collection.
#[derive(Debug)]
pub struct CreateCollectionPromptState {
    pub name_input: String,
    pub error: Option<String>,
}

/// The dialog that saves the active request into a collection.
#[derive(Debug)]
pub struct SaveRequestPromptState {
    pub tab_id: String,
    pub name_input: String,
    pub collection_id: Option<String>,
    pub folder_id: Option<String>,
    pub saving: bool,
    pub error: Option<String>,
}

/// The operation open in the tree's create/rename/delete dialog.
#[derive(Debug, PartialEq, Eq)]
pub enum WorkspaceCrudKind {
    CreateFolder { collection_id: String, parent_folder_id: Option<String> },
    RenameCollection { collection_id: String },
    DeleteCollection { collection_id: String },
    RenameFolder { folder_id: String },
    DeleteFolder { folder_id: String },
    DeleteRequest { request_id: String },
}

impl Clone for WorkspaceCrudKind {
    fn clone(&self) -> (r: Self)
        ensures
            r == *self,
    {
        match self {
            WorkspaceCrudKind::CreateFolder { collection_id, parent_folder_id } =>
                WorkspaceCrudKind::CreateFolder {
                collection_id: collection_id.clone(),
                parent_folder_id: crate::model::clone_opt(parent_folder_id),
            },
            WorkspaceCrudKind::RenameCollection { collection_id } =>
                WorkspaceCrudKind::RenameCollection { collection_id: collection_id.clone() },
            WorkspaceCrudKind::DeleteCollection { collection_id } =>
                WorkspaceCrudKind::DeleteCollection { collection_id: collection_id.clone() },
            WorkspaceCrudKind::RenameFolder { folder_id } => WorkspaceCrudKind::RenameFolder {
                folder_id: folder_id.clone(),
            },
            WorkspaceCrudKind::DeleteFolder { folder_id } => WorkspaceCrudKind::DeleteFolder {
                folder_id: folder_id.clone(),
            },
            WorkspaceCrudKind::DeleteRequest { request_id } => WorkspaceCrudKind::DeleteRequest {
                request_id: request_id.clone(),
            },
        }
    }
}

/// The tree's create/rename/delete dialog.
#[derive(Debug)]
pub struct WorkspaceCrudDialogState {
    pub kind: WorkspaceCrudKind,
    pub entity_name: String,
    pub name_input: String,
    pub busy: bool,
    pub error: Option<String>,
}

/// Section of the workspace panel.
#[derive(Debug, Clone, Copy, PartialEq, Eq, Structural)]
pub enum WorkspacePanelSection {
    Environments,
    Data,
    History,
    Diagnostics,
    AppUpdates,
}

/// What the main pane shows: the active request tab or a panel section.
#[derive(Debug, Clone, Copy, PartialEq, Eq, Structural)]
pub enum MainContentFocus {
    RequestTab,
    WorkspaceSection,
}

/// A tab as the closed-tab stack and the session file keep it.
#[derive(Debug)]
pub struct TabSnapshot {
    pub id: String,
    pub draft: RequestDraft,
    pub active_request_tab: RequestTab,
}

impl Clone for TabSnapshot {
    fn clone(&self) -> (r: Self)
        ensures
            r.id == self.id,
            r.draft@ == self.draft@,
            r.active_request_tab == self.active_request_tab,
    {
        TabSnapshot {
            id: self.id.clone(),
            draft: self.draft.clone(),
            active_request_tab: self.active_request_tab,
        }
    }
}

/// An open request tab.
#[derive(Debug)]
pub struct RequestTabState {
    pub id: String,
    pub draft: RequestDraft,
    /// The draft as last persisted, to tell whether the tab has changes.
    pub saved_draft: Option<RequestDraft>,
    pub active_request_tab: RequestTab,
    pub manual_tab_override: bool,
    pub response: Option<ResponseOutcome>,
    pub response_tab: ResponseInspectorTab,
    pub preview: Option<RequestPreview>,
    pub sending: bool,
    pub execution_id: Option<String>,
    pub curl_paste_error: Option<String>,
    pub send_error: Option<String>,
    pub preview_error: Option<String>,
}

/// A tab that has just been opened: nothing saved, sent or previewed.
pub open spec fn is_fresh_tab(t: RequestTabState) -> bool {
    &&& t.saved_draft is None
    &&& t.manual_tab_override == false
    &&& t.response is None
    &&& t.response_tab == ResponseInspectorTab::Body
    &&& t.preview is None
    &&& t.sending == false
    &&& t.execution_id is None
    &&& t.curl_paste_error is None
    &&& t.send_error is None
    &&& t.preview_error is None
}

impl RequestTabState {
    /// A new tab holding `draft`, under a fresh identifier.
    pub fn from_draft(draft: RequestDraft) -> (r: Self)
        ensures
            r.draft == draft,
            r.active_request_tab == RequestTab::Params,
            is_fresh_tab(r),
            crate::external::is_uuid_v4_text(r.id@),
    {
        RequestTabState {
            id: crate::external::new_identifier(),
            draft,
            saved_draft: None,
            active_request_tab: RequestTab::Params,
            manual_tab_override: false,
            response: None,
            response_tab: ResponseInspectorTab::Body,
            preview: None,
            sending: false,
            execution_id: None,
            curl_paste_error: None,
            send_error: None,
            preview_error: None,
        }
    }

    /// A new tab with a blank GET request.
    pub fn blank() -> (r: Self)
        ensures
            is_blank_draft(r.draft@),
            r.active_request_tab == RequestTab::Params,
            is_fresh_tab(r),
            crate::external::is_uuid_v4_text(r.id@),
    {
        Self::from_draft(create_blank_draft())
    }

    /// The tab a snapshot describes: its id, draft and configuration tab
    /// come back; everything else starts afresh.
    pub fn from_snapshot(snapshot: TabSnapshot) -> (r: Self)
        ensures
            r.id == snapshot.id,
            r.draft == snapshot.draft,
            r.active_request_tab == snapshot.active_request_tab,
            is_fresh_tab(r),
    {
        RequestTabState {
            id: snapshot.id,
            draft: snapshot.draft,
            saved_draft: None,
            active_request_tab: snapshot.active_request_tab,
            manual_tab_override: false,
            response: None,
            response_tab: ResponseInspectorTab::Body,
            preview: None,
            sending: false,
            execution_id: None,
            curl_paste_error: None,
            send_error: None,
            preview_error: None,
        }
    }

    /// The snapshot of this tab.
    pub fn to_snapshot(&self) -> (r: TabSnapshot)
        ensures
            r.id == self.id,
            r.draft@ == self.draft@,
            r.active_request_tab == self.active_request_tab,
    {
        TabSnapshot {
            id: self.id.clone(),
            draft: self.draft.clone(),
            active_request_tab: self.active_request_tab,
        }
    }
}

/// The environment create/edit form: `editing_id` is `None` for a new one.
#[derive(Debug)]
pub struct EnvironmentFormState {
    pub editing_id: Option<String>,
    pub name_input: String,
    pub error: Option<String>,
}

/// An empty form for a new environment.
pub open spec fn is_fresh_environment_form(f: EnvironmentFormState) -> bool {
    f.editing_id is None && f.name_input@.len() == 0 && f.error is None
}

impl Default for EnvironmentFormState {
    fn default() -> (r: Self)
        ensures
            is_fresh_environment_form(r),
    {
        EnvironmentFormState { editing_id: None, name_input: String::new(), error: None }
    }
}

#[derive(Debug, Clone, Copy, PartialEq, Eq, Structural)]
pub enum WorkspaceExportFormat {
    NativeWorkspaceV1,
    PostmanCollectionV21,
}

#[derive(Debug, Clone, Copy, PartialEq, Eq, Structural)]
pub enum WorkspaceImportFormat {
    Auto,
    NativeWorkspaceV1,
    PostmanCollectionV21,
    OpenApiV3,
}

/// The export form of the Data section.
#[derive(Debug)]
pub struct ExportFormState {
    pub export_format: WorkspaceExportFormat,
    pub path_input: String,
    pub collection_id_input: String,
    pub busy: bool,
    pub result_message: Option<String>,
    pub result_is_error: bool,
}

impl Default for ExportFormState {
    fn default() -> (r: Self)
        ensures
            r.export_format == WorkspaceExportFormat::NativeWorkspaceV1,
            r.path_input@.len() == 0,
            r.collection_id_input@.len() == 0,
            !r.busy,
            r.result_message is None,
            !r.result_is_error,
    {
        ExportFormState {
            export_format: WorkspaceExportFormat::NativeWorkspaceV1,
            path_input: String::new(),
            collection_id_input: String::new(),
            busy: false,
            result_message: None,
            result_is_error: false,
        }
    }
}

/// The import form of the Data section.
#[derive(Debug)]
pub struct ImportFormState {
    pub import_format: WorkspaceImportFormat,
    pub payload_input: String,
    pub busy: bool,
    pub result_message: Option<String>,
    pub result_is_error: bool,
}

impl Default for ImportFormState {
    fn default() -> (r: Self)
        ensures
            r.import_format == WorkspaceImportFormat::Auto,
            r.payload_input@.len() == 0,
            !r.busy,
            r.result_message is None,
            !r.result_is_error,
    {
        ImportFormState {
            import_format: WorkspaceImportFormat::Auto,
            payload_input: String::new(),
            busy: false,
            result_message: None,
            result_is_error: false,
        }
    }
}

/// The side panel: its section, whether it is collapsed, and its forms.
#[derive(Debug)]
pub struct WorkspacePanelState {
    pub active_section: WorkspacePanelSection,
    pub collapsed: bool,
    pub navigation_error: Option<String>,
    pub environment_form: EnvironmentFormState,
    pub environment_busy: bool,
    pub history_loading: bool,
    pub history_loaded: bool,
    pub history_error: Option<String>,
    pub export_form: ExportFormState,
    pub import_form: ImportFormState,
}

impl Default for WorkspacePanelState {
    fn default() -> (r: Self)
        ensures
            r.active_section == WorkspacePanelSection::Environments,
            !r.collapsed,
            r.navigation_error is None,
            is_fresh_environment_form(r.environment_form),
            !r.environment_busy,
            !r.history_loading,
            !r.history_loaded,
            r.history_error is None,
    {
        WorkspacePanelState {
            active_section: WorkspacePanelSection::Environments,
            collapsed: false,
            navigation_error: None,
            environment_form: EnvironmentFormState::default(),
            environment_busy: false,
            history_loading: false,
            history_loaded: false,
            history_error: None,
            export_form: ExportFormState::default(),
            import_form: ImportFormState::default(),
        }
    }
}

/// The command palette overlay.
#[derive(Debug)]
pub struct PaletteState {
    pub is_open: bool,
    pub query: String,
}

impl Default for PaletteState {
    fn default() -> (r: Self)
        ensures
            !r.is_open,
            r.query@.len() == 0,
    {
        PaletteState { is_open: false, query: String::new() }
    }
}

/// The save/discard/cancel prompt shown before closing a tab with changes.
#[derive(Debug)]
pub struct UnsavedChangesPromptState {
    pub tab_id: String,
    pub saving: bool,
    pub error: Option<String>,
}

#[derive(Debug, Clone, Copy, PartialEq, Eq, Structural)]
pub enum CollectionRunPhase {
    Started,
    RequestStarted,
    RequestFinished,
    Finished,
}

/// A progress report of a collection run.
#[derive(Debug)]
pub struct CollectionRunProgressEvent {
    pub run_id: String,
    pub phase: CollectionRunPhase,
    pub collection_id: String,
    pub collection_name: String,
    pub total_requests: u64,
    pub processed_requests: u64,
    pub current_index: u64,
    pub completed_requests: u64,
    pub errored_requests: u64,
    pub passed_assertions: u64,
    pub failed_assertions: u64,
    pub request_id: Option<String>,
    pub request_name: Option<String>,
    pub environment_name: Option<String>,
    pub resolved_url: Option<String>,
    pub response_status: Option<u16>,
    pub duration_ms: Option<u64>,
    pub error_message: Option<String>,
    pub started_at: String,
    pub finished_at: Option<String>,
    pub emitted_at: String,
}

/// One request of a finished collection run.
#[derive(Debug)]
pub struct CollectionRunItem {
    pub request_id: String,
    pub request_name: String,
    pub response_status: Option<u16>,
    pub error_message: Option<String>,
    pub passed_assertions: u64,
    pub failed_assertions: u64,
}

/// The report of a finished collection run.
#[derive(Debug)]
pub struct CollectionRunReport {
    pub run_id: String,
    pub collection_id: String,
    pub collection_name: String,
    pub items: Vec<CollectionRunItem>,
}

/// What a collection run is asked to do.
#[derive(Debug)]
pub struct RunCollectionInput {
    pub collection_id: String,
    pub environment_id: Option<String>,
}

/// The collection runner: whether a run is in progress and what it last
/// reported.
#[derive(Debug)]
pub struct CollectionRunnerState {
    /// A run is in progress (its progress stream is open).
    pub running: bool,
    /// The run in progress can still be told to stop.
    pub cancel_available: bool,
    pub latest_progress: Option<CollectionRunProgressEvent>,
    pub report: Option<CollectionRunReport>,
    pub error: Option<String>,
}

/// A session as it is written to and read from disk (panel sizes aside,
/// which the window layer adds).
#[derive(Debug)]
pub struct SessionSnapshot {
    pub version: u32,
    pub active_tab_id: Option<String>,
    pub open_tabs: Vec<TabSnapshot>,
    pub closed_tabs: Vec<TabSnapshot>,
    pub theme_mode: ThemeMode,
    pub saved_at: String,
    pub active_collection_id: Option<String>,
}

/// The version of the session format.
pub const SESSION_SCHEMA_VERSION: u32 = 1;

/// How many closed tabs the reopen stack keeps.
pub const CLOSED_TABS_LIMIT: usize = 20;

/// Autosave, restore and startup notice.
#[derive(Debug)]
pub struct SessionStoreState {
    /// There are changes since the last autosave.
    pub dirty: bool,
    pub theme_mode: ThemeMode,
    /// The session read at startup, until it is restored.
    pub pending_restore: Option<SessionSnapshot>,
    pub startup_notice: Option<String>,
}

impl Default for SessionStoreState {
    fn default() -> (r: Self)
        ensures
            !r.dirty,
            r.theme_mode == ThemeMode::Dark,
            r.pending_restore is None,
            r.startup_notice is None,
    {
        SessionStoreState {
            dirty: false,
            theme_mode: ThemeMode::Dark,
            pending_restore: None,
            startup_notice: None,
        }
    }
}

#[derive(Debug)]
pub enum UpdaterStatus {
    NoUpdatesAvailable,
    UpdateAvailable { version: String },
    Downloading { progress_percent: u8 },
    ReadyToInstall { version: String },
}

#[derive(Debug)]
pub struct UpdaterState {
    pub status: UpdaterStatus,
}

/// The whole application state that the reducers drive.
#[derive(Debug)]
pub struct Midway {
    pub workspace: WorkspaceSnapshot,
    pub tabs: Vec<RequestTabState>,
    pub active_tab: Option<usize>,
    /// Closed tabs, most recently closed first.
    pub closed_tabs: VecDeque<TabSnapshot>,
    pub workspace_panel: WorkspacePanelState,
    pub palette: PaletteState,
    pub runner: Option<CollectionRunnerState>,
    pub session: SessionStoreState,
    pub theme_mode: ThemeMode,
    pub main_content_focus: MainContentFocus,
    pub updater: UpdaterState,
    pub unsaved_changes_prompt: Option<UnsavedChangesPromptState>,
    pub active_collection_id: Option<String>,
    pub top_bar_mode: TopBarMode,
    pub tree: TreeViewState,
    pub create_collection_prompt: Option<CreateCollectionPromptState>,
    pub save_request_prompt: Option<SaveRequestPromptState>,
    pub workspace_crud_dialog: Option<WorkspaceCrudDialogState>,
}

/// The active tab, when there is one, is an open tab.
pub open spec fn active_tab_valid(s: Midway) -> bool {
    s.active_tab matches Some(i) ==> i < s.tabs@.len()
}

/// Whether a collection run is in progress.
pub open spec fn run_in_progress(s: Midway) -> bool {
    s.runner matches Some(r) && r.running
}

/// The index of the first open tab with the id `id`, if any.
pub open spec fn tab_index(tabs: Seq<RequestTabState>, id: Seq<char>) -> Option<int>
    decreases tabs.len(),
{
    if tabs.len() == 0 {
        None
    } else if tabs[0].id@ == id {
        Some(0)
    } else {
        match tab_index(tabs.drop_first(), id) {
            Some(i) => Some(i + 1),
            None => None,
        }
    }
}

pub proof fn lemma_tab_index(tabs: Seq<RequestTabState>, id: Seq<char>)
    ensures
        match tab_index(tabs, id) {
            Some(i) => 0 <= i < tabs.len() && tabs[i].id@ == id && forall|k: int|
                0 <= k < i ==> tabs[k].id@ != id,
            None => forall|k: int| 0 <= k < tabs.len() ==> tabs[k].id@ != id,
        },
    decreases tabs.len(),
{
    if tabs.len() > 0 {
        lemma_tab_index(tabs.drop_first(), id);
        if tabs[0].id@ != id {
            match tab_index(tabs.drop_first(), id) {
                Some(i) => {
                    assert forall|k: int| 0 <= k < i + 1 implies tabs[k].id@ != id by {
                        if k > 0 {
                            assert(tabs[k] == tabs.drop_first()[k - 1]);
                        }
                    }
                },
                None => {
                    assert forall|k: int| 0 <= k < tabs.len() implies tabs[k].id@ != id by {
                        if k > 0 {
                            assert(tabs[k] == tabs.drop_first()[k - 1]);
                        }
                    }
                },
            }
        }
    }
}

/// Finds the first open tab with the id `id`.
pub fn find_tab(tabs: &Vec<RequestTabState>, id: &str) -> (r: Option<usize>)
    ensures
        r matches Some(i) ==> tab_index(tabs@, id@) == Some(i as int),
        r is None ==> tab_index(tabs@, id@) is None,
{
    proof {
        lemma_tab_index(tabs@, id@);
    }
    let mut i: usize = 0;
    while i < tabs.len()
        invariant
            i <= tabs@.len(),
            forall|k: int| 0 <= k < i ==> tabs@[k].id@ != id@,
            match tab_index(tabs@, id@) {
                Some(x) => 0 <= x < tabs@.len() && tabs@[x].id@ == id@ && forall|k: int|
                    0 <= k < x ==> tabs@[k].id@ != id@,
                None => forall|k: int| 0 <= k < tabs@.len() ==> tabs@[k].id@ != id@,
            },
        decreases tabs@.len() - i,
    {
        if crate::text::same_text(tabs[i].id.as_str(), id) {
            return Some(i);
        }
        i = i + 1;
    }
    None
}

} // verus!
