//! Verified core of the Midway desktop HTTP client: the state of the request
//! tabs, the workspace tree, the command palette, the session store and the
//! reducers that drive them.

pub mod app_update;
pub mod composer;
pub mod composer_update;
pub mod crud;
pub mod editing;
pub mod effects;
pub mod environments;
pub mod external;
pub mod import_plan;
pub mod keyboard;
pub mod laws;
pub mod model;
pub mod names;
pub mod palette;
pub mod navigation;
pub mod operation_laws;
pub mod reconcile;
pub mod records;
pub mod rows;
pub mod rows_by_id;
pub mod runner;
pub mod saving;
pub mod seqs;
pub mod sequence_laws;
pub mod session;
pub mod shortcuts;
pub mod state;
pub mod tabs;
pub mod text;
pub mod workspace_panel;
