//! The session store: restoring the last session at startup, the snapshot
//! that autosave writes, and the theme toggle.

use vstd::prelude::*;
use std::collections::VecDeque;
use crate::effects::Effect;
use crate::model::{clone_opt, is_blank_draft, opt_view};
use crate::records::WorkspaceSnapshot;
use crate::state::{
    MainContentFocus, Midway, PaletteState, RequestTabState, SESSION_SCHEMA_VERSION, SessionSnapshot,
    SessionStoreState, TabSnapshot, ThemeMode, TopBarMode, TreeViewState, UpdaterState,
    UpdaterStatus, WorkspacePanelState, find_tab, is_fresh_tab, tab_index,
};

verus! {

/// The tab at `k` of `tabs` is restored from the snapshot at `k`.
pub open spec fn restored_from(tabs: Seq<RequestTabState>, snaps: Seq<TabSnapshot>) -> bool {
    &&& tabs.len() == snaps.len()
    &&& forall|k: int|
        0 <= k < tabs.len() ==> (#[trigger] tabs[k]).id == snaps[k].id && tabs[k].draft
            == snaps[k].draft && tabs[k].active_request_tab == snaps[k].active_request_tab
            && is_fresh_tab(tabs[k])
}

/// A single blank tab.
pub open spec fn single_blank(tabs: Seq<RequestTabState>) -> bool {
    tabs.len() == 1 && is_blank_draft(tabs[0].draft@) && is_fresh_tab(tabs[0])
}

/// Restoring the session read at startup. Without one: a single blank,
/// active tab. With one: its open tabs come back in order (a session
/// without tabs gives a single blank tab), the tab it had active is active
/// again (else the first), its theme is taken and its active collection is
/// handed back; the pending session is consumed.
pub open spec fn restore_spec(
    pre: SessionStoreState,
    post: SessionStoreState,
    tabs: Seq<RequestTabState>,
    active: Option<usize>,
    collection: Option<String>,
) -> bool {
    match pre.pending_restore {
        None => post == pre && single_blank(tabs) && active == Some(0usize) && collection is None,
        Some(snap) => {
            &&& post == SessionStoreState {
                pending_restore: None,
                theme_mode: snap.theme_mode,
                ..pre
            }
            &&& collection == snap.active_collection_id
            &&& if snap.open_tabs@.len() == 0 {
                single_blank(tabs) && active == Some(0usize)
            } else {
                &&& restored_from(tabs, snap.open_tabs@)
                &&& active == Some(
                    match snap.active_tab_id {
                        Some(id) => match tab_index(tabs, id@) {
                            Some(i) => i as usize,
                            None => 0usize,
                        },
                        None => 0usize,
                    },
                )
            }
        },
    }
}

pub fn restore_pending_session(session: &mut SessionStoreState) -> (r: (
    Vec<RequestTabState>,
    Option<usize>,
    Option<String>,
))
    ensures
        restore_spec(*old(session), *final(session), r.0@, r.1, r.2),
{
    let Some(snapshot) = session.pending_restore.take() else {
        let mut tabs: Vec<RequestTabState> = Vec::new();
        tabs.push(RequestTabState::blank());
        return (tabs, Some(0), None);
    };
    let ghost snaps = snapshot.open_tabs@;
    let mut tabs: Vec<RequestTabState> = Vec::new();
    let mut open = snapshot.open_tabs;
    let n = open.len();
    let mut i: usize = 0;
    while i < n
        invariant
            n == snaps.len(),
            i <= n,
            open@ == snaps.subrange(i as int, n as int),
            tabs@.len() == i,
            forall|k: int|
                0 <= k < i ==> (#[trigger] tabs@[k]).id == snaps[k].id && tabs@[k].draft
                    == snaps[k].draft && tabs@[k].active_request_tab == snaps[k].active_request_tab
                    && is_fresh_tab(tabs@[k]),
        decreases n - i,
    {
        let snap = open.remove(0);
        tabs.push(RequestTabState::from_snapshot(snap));
        i = i + 1;
        assert(open@ =~= snaps.subrange(i as int, n as int));
    }
    session.theme_mode = snapshot.theme_mode;
    let collection = snapshot.active_collection_id;
    if tabs.len() == 0 {
        tabs.push(RequestTabState::blank());
        return (tabs, Some(0), collection);
    }
    let active = match &snapshot.active_tab_id {
        Some(target) => {
            proof {
                crate::state::lemma_tab_index(tabs@, target@);
            }
            match find_tab(&tabs, target.as_str()) {
                Some(index) => index,
                None => 0,
            }
        },
        None => 0,
    };
    (tabs, Some(active), collection)
}

/// The restored tabs are never empty, and the active one is among them.
pub proof fn lemma_restore_leaves_an_active_tab(
    pre: SessionStoreState,
    post: SessionStoreState,
    tabs: Seq<RequestTabState>,
    active: Option<usize>,
    collection: Option<String>,
)
    requires
        restore_spec(pre, post, tabs, active, collection),
    ensures
        tabs.len() >= 1,
        active matches Some(a) && a < tabs.len(),
{
    if let Some(snap) = pre.pending_restore {
        if snap.open_tabs@.len() > 0 {
            if let Some(id) = snap.active_tab_id {
                crate::state::lemma_tab_index(tabs, id@);
            }
        }
    }
}

impl Midway {
    /// The state at startup, from the session store (holding the session
    /// read from disk, if any): the restored tabs, an empty workspace until
    /// it loads, the session's active collection, and everything else at
    /// its default.
    pub fn from_session(session: SessionStoreState) -> (r: Midway)
        ensures
            restore_spec(session, r.session, r.tabs@, r.active_tab, r.active_collection_id),
            r.theme_mode == r.session.theme_mode,
            r.workspace.collections@.len() == 0,
            r.workspace.environments@.len() == 0,
            r.closed_tabs@.len() == 0,
            r.runner is None,
            r.main_content_focus == MainContentFocus::RequestTab,
            r.top_bar_mode == TopBarMode::Debug,
            r.unsaved_changes_prompt is None,
            r.create_collection_prompt is None,
            r.save_request_prompt is None,
            r.workspace_crud_dialog is None,
            crate::state::is_fresh_tree(r.tree),
            !r.palette.is_open,
    {
        let mut session = session;
        let (tabs, active_tab, active_collection_id) = restore_pending_session(&mut session);
        let theme_mode = session.theme_mode;
        Midway {
            workspace: WorkspaceSnapshot::empty(),
            tabs,
            active_tab,
            closed_tabs: VecDeque::new(),
            workspace_panel: WorkspacePanelState::default(),
            palette: PaletteState::default(),
            runner: None,
            session,
            theme_mode,
            main_content_focus: MainContentFocus::RequestTab,
            updater: UpdaterState { status: UpdaterStatus::NoUpdatesAvailable },
            unsaved_changes_prompt: None,
            active_collection_id,
            top_bar_mode: TopBarMode::Debug,
            tree: TreeViewState::default(),
            create_collection_prompt: None,
            save_request_prompt: None,
            workspace_crud_dialog: None,
        }
    }
}

/// `snaps` are the snapshots of `tabs`, in order.
pub open spec fn snapshots_of(snaps: Seq<TabSnapshot>, tabs: Seq<RequestTabState>) -> bool {
    &&& snaps.len() == tabs.len()
    &&& forall|k: int|
        0 <= k < snaps.len() ==> (#[trigger] snaps[k]).id == tabs[k].id && snaps[k].draft@
            == tabs[k].draft@ && snaps[k].active_request_tab == tabs[k].active_request_tab
}

/// `copy` holds copies of the snapshots `orig`, in order.
pub open spec fn snapshot_copies(copy: Seq<TabSnapshot>, orig: Seq<TabSnapshot>) -> bool {
    &&& copy.len() == orig.len()
    &&& forall|k: int|
        0 <= k < copy.len() ==> (#[trigger] copy[k]).id == orig[k].id && copy[k].draft@
            == orig[k].draft@ && copy[k].active_request_tab == orig[k].active_request_tab
}

/// The session snapshot of the state: its open tabs, the active tab's id,
/// the closed tabs, the theme and the active collection, stamped with the
/// current time.
pub open spec fn session_snapshot_of(s: Midway, snap: SessionSnapshot) -> bool {
    &&& snap.version == SESSION_SCHEMA_VERSION
    &&& snap.active_tab_id == match s.active_tab {
        Some(a) if a < s.tabs@.len() => Some(s.tabs@[a as int].id),
        _ => None,
    }
    &&& snapshots_of(snap.open_tabs@, s.tabs@)
    &&& snapshot_copies(snap.closed_tabs@, s.closed_tabs@)
    &&& snap.theme_mode == s.theme_mode
    &&& snap.active_collection_id == s.active_collection_id
}

pub fn build_session_snapshot(state: &Midway) -> (r: SessionSnapshot)
    ensures
        session_snapshot_of(*state, r),
        crate::external::is_rfc3339_utc_text(r.saved_at@),
{
    let active_tab_id = match state.active_tab {
        Some(index) => if index < state.tabs.len() {
            Some(state.tabs[index].id.clone())
        } else {
            None
        },
        None => None,
    };
    let mut open_tabs: Vec<TabSnapshot> = Vec::new();
    let mut i: usize = 0;
    while i < state.tabs.len()
        invariant
            i <= state.tabs@.len(),
            snapshots_of(open_tabs@, state.tabs@.subrange(0, i as int)),
        decreases state.tabs@.len() - i,
    {
        open_tabs.push(state.tabs[i].to_snapshot());
        i = i + 1;
    }
    assert(state.tabs@.subrange(0, state.tabs@.len() as int) =~= state.tabs@);
    let mut closed_tabs: Vec<TabSnapshot> = Vec::new();
    let mut j: usize = 0;
    while j < state.closed_tabs.len()
        invariant
            j <= state.closed_tabs@.len(),
            snapshot_copies(closed_tabs@, state.closed_tabs@.subrange(0, j as int)),
        decreases state.closed_tabs@.len() - j,
    {
        closed_tabs.push(state.closed_tabs[j].clone());
        j = j + 1;
    }
    assert(state.closed_tabs@.subrange(0, state.closed_tabs@.len() as int) =~= state.closed_tabs@);
    SessionSnapshot {
        version: SESSION_SCHEMA_VERSION,
        active_tab_id,
        open_tabs,
        closed_tabs,
        theme_mode: state.theme_mode,
        saved_at: crate::external::current_timestamp(),
        active_collection_id: clone_opt(&state.active_collection_id),
    }
}

#[derive(Debug)]
pub enum SessionMessage {
    AutosaveTick,
    AutosaveWritten(Result<(), String>),
}

/// The autosave tick writes the session only when it changed, marking it
/// clean first; a write result changes nothing.
pub open spec fn session_spec(pre: Midway, post: Midway, msg: SessionMessage, eff: Effect) -> bool {
    match msg {
        SessionMessage::AutosaveTick => if pre.session.dirty {
            &&& post == Midway { session: SessionStoreState { dirty: false, ..pre.session }, ..pre }
            &&& eff matches Effect::WriteSession(snap) && session_snapshot_of(post, snap)
        } else {
            post == pre && eff is Nothing
        },
        SessionMessage::AutosaveWritten(_) => post == pre && eff is Nothing,
    }
}

pub fn update_session(state: &mut Midway, message: SessionMessage) -> (eff: Effect)
    ensures
        session_spec(*old(state), *final(state), message, eff),
{
    match message {
        SessionMessage::AutosaveTick => {
            if !state.session.dirty {
                return Effect::Nothing;
            }
            state.session.dirty = false;
            Effect::WriteSession(build_session_snapshot(state))
        },
        SessionMessage::AutosaveWritten(_result) => Effect::Nothing,
    }
}

#[derive(Debug)]
pub enum ThemeMessage {
    Toggled,
}

/// The other theme.
pub open spec fn other_theme(m: ThemeMode) -> ThemeMode {
    match m {
        ThemeMode::Light => ThemeMode::Dark,
        ThemeMode::Dark => ThemeMode::Light,
    }
}

/// Toggling the theme switches it and marks the session dirty.
pub fn update_theme(state: &mut Midway, message: ThemeMessage)
    ensures
        *final(state) == (Midway {
            theme_mode: other_theme(old(state).theme_mode),
            session: SessionStoreState { dirty: true, ..old(state).session },
            ..*old(state)
        }),
{
    match message {
        ThemeMessage::Toggled => {
            state.theme_mode = match state.theme_mode {
                ThemeMode::Light => ThemeMode::Dark,
                ThemeMode::Dark => ThemeMode::Light,
            };
            state.session.dirty = true;
        },
    }
}

/// The notice shown at startup when the session file was there but could
/// not be used, with the reason.
pub fn discarded_session_notice(reason: &str) -> (r: String)
    ensures
        r@ == "No se pudo restaurar la sesión anterior, se descartó y se inició una sesión vacía. Motivo: "@
            + reason@,
{
    let mut s = crate::text::owned(
        "No se pudo restaurar la sesión anterior, se descartó y se inició una sesión vacía. Motivo: ",
    );
    crate::text::push_str(&mut s, reason);
    s
}

} // verus!
