//! The outside work a reducer asks for: the window layer performs it and
//! feeds the result back as a message.

use vstd::prelude::*;
use crate::model::{KeyValueRow, RequestDraft};
use crate::records::EnvironmentRecord;
use crate::state::{
    RunCollectionInput, SessionSnapshot, WorkspaceCrudKind, WorkspaceExportFormat,
    WorkspaceImportFormat,
};

verus! {

#[derive(Debug)]
pub enum Effect {
    /// Nothing to do.
    Nothing,
    /// Write the session file.
    WriteSession(SessionSnapshot),
    /// Create a collection with this name.
    CreateCollection { name: String },
    /// Apply a create/rename/delete of the tree, then reload the workspace.
    ApplyCrud { kind: WorkspaceCrudKind, name: String },
    /// Create (no id) or update an environment.
    SaveEnvironment { environment_id: Option<String>, name: String, variables: Vec<KeyValueRow> },
    /// Delete an environment.
    DeleteEnvironment { environment_id: String },
    /// Reload the workspace from the store.
    LoadWorkspaceSnapshot,
    /// Read the crash records for the Diagnostics section.
    ReadCrashRecords,
    /// Export the workspace (or one collection) to a file.
    ExportWorkspace {
        path: String,
        format: WorkspaceExportFormat,
        collection_id: Option<String>,
    },
    /// Import a payload into the workspace.
    ImportWorkspace { payload: String, format: WorkspaceImportFormat },
    /// Send the request of a tab.
    SendRequest {
        tab_id: String,
        draft: RequestDraft,
        environment: Option<EnvironmentRecord>,
        execution_id: String,
    },
    /// Compute the preview of a tab's request.
    ComputePreview { tab_id: String, draft: RequestDraft, environment: Option<EnvironmentRecord> },
    /// Save a tab's request into a collection and folder.
    SaveRequest {
        tab_id: String,
        draft: RequestDraft,
        collection_id: String,
        folder_id: Option<String>,
    },
    /// Persist a tab about to close, into its collection or the default one.
    PersistTabDraft { tab_id: String, draft: RequestDraft, existing_collection_id: Option<String> },
    /// Start a collection run.
    StartCollectionRun(RunCollectionInput),
    /// Stop the collection run in progress.
    CancelCollectionRun,
}

} // verus!
