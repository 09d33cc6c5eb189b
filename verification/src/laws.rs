//! Properties that span several operations of the library.

use vstd::prelude::*;
use crate::effects::Effect;
use crate::environments::{
    MAX_ENVIRONMENT_NAME_LEN, MAX_ENVIRONMENTS, environment_deleted_spec, environment_name_verdict,
    environment_saved_spec, name_taken,
};
use crate::import_plan::claimed_in_turn;
use crate::editing::kv_row_appended;
use crate::model::{KeyValueRow, opt_view};
use crate::names::{is_unique_name_for, suffixed};
use crate::navigation::{ActivityBarMessage, activity_bar_spec};
use crate::palette::{PaletteMessage, palette_spec};
use crate::reconcile::{keeps_tab, reconcile_spec, request_deleted};
use crate::records::{EnvironmentRecord, environment_index, lemma_environment_index};
use crate::rows::lacks_id;
use crate::session::{SessionMessage, other_theme, restore_spec, session_snapshot_of, session_spec};
use crate::state::{
    CLOSED_TABS_LIMIT, Midway, RequestTabState, SessionSnapshot, SessionStoreState, TabSnapshot,
    ThemeMode, active_tab_valid, lemma_tab_index, tab_index,
};
use crate::tabs::{
    active_after_close, closed_tab_spec, push_closed, reopen_spec, reopened_from, snapshot_of,
};

verus! {

/// The closed-tab stack never holds more than its limit, and the tab just
/// closed is the one a reopen brings back.
pub proof fn lemma_closed_stack_bounded(stack: Seq<TabSnapshot>, snap: TabSnapshot)
    requires
        stack.len() <= CLOSED_TABS_LIMIT,
    ensures
        push_closed(stack, snap).len() <= CLOSED_TABS_LIMIT,
        push_closed(stack, snap).len() == if stack.len() < CLOSED_TABS_LIMIT {
            stack.len() + 1
        } else {
            CLOSED_TABS_LIMIT as nat
        },
        push_closed(stack, snap)[0] == snap,
        forall|k: int|
            1 <= k < push_closed(stack, snap).len() ==> #[trigger] push_closed(stack, snap)[k]
                == stack[k - 1],
{
}

/// Closing a tab and reopening it brings it back, with the same id, draft
/// and configuration tab, at the end of the list and active; the closed
/// stack is as it was when it had room.
pub proof fn lemma_close_then_reopen(s0: Midway, s1: Midway, s2: Midway, id: Seq<char>)
    requires
        tab_index(s0.tabs@, id) is Some,
        closed_tab_spec(s0, s1, id),
        reopen_spec(s1, s2),
    ensures
        s2.tabs@.len() == s0.tabs@.len(),
        reopened_from(s2.tabs@.last(), snapshot_of(s0.tabs@[tab_index(s0.tabs@, id).unwrap()])),
        s2.active_tab == Some((s2.tabs@.len() - 1) as usize),
        s0.closed_tabs@.len() < CLOSED_TABS_LIMIT ==> s2.closed_tabs@ == s0.closed_tabs@,
{
    let i = tab_index(s0.tabs@, id).unwrap();
    crate::state::lemma_tab_index(s0.tabs@, id);
    let snap = snapshot_of(s0.tabs@[i]);
    assert(s1.closed_tabs@[0] == snap);
    if s0.closed_tabs@.len() < CLOSED_TABS_LIMIT {
        assert(s2.closed_tabs@ =~= s0.closed_tabs@);
    }
}

/// Closing a tab keeps the active tab among the open tabs.
pub proof fn lemma_close_keeps_active_tab_valid(s0: Midway, s1: Midway, id: Seq<char>)
    requires
        active_tab_valid(s0),
        closed_tab_spec(s0, s1, id),
    ensures
        active_tab_valid(s1),
{
    crate::state::lemma_tab_index(s0.tabs@, id);
}

/// Reopening a tab keeps the active tab among the open tabs.
pub proof fn lemma_reopen_keeps_active_tab_valid(s0: Midway, s1: Midway)
    requires
        active_tab_valid(s0),
        reopen_spec(s0, s1),
    ensures
        active_tab_valid(s1),
{
}

/// Pressing Home twice shows again what was shown, and never touches the
/// tabs, the active tab or the active collection.
pub proof fn lemma_home_twice(s0: Midway, s1: Midway, s2: Midway, e1: Effect, e2: Effect)
    requires
        activity_bar_spec(s0, s1, ActivityBarMessage::HomePressed, e1),
        activity_bar_spec(s1, s2, ActivityBarMessage::HomePressed, e2),
    ensures
        s2.main_content_focus == s0.main_content_focus,
        s1.tabs == s0.tabs && s2.tabs == s0.tabs,
        s1.active_tab == s0.active_tab && s2.active_tab == s0.active_tab,
        s2.active_collection_id == s0.active_collection_id,
{
}

/// Selecting a collection never touches the tabs or which one is active.
pub proof fn lemma_collection_selection_keeps_tabs(s0: Midway, s1: Midway, id: String, e: Effect)
    requires
        activity_bar_spec(s0, s1, ActivityBarMessage::CollectionSelected(id), e),
    ensures
        s1.tabs == s0.tabs,
        s1.active_tab == s0.active_tab,
        s1.active_collection_id == Some(id),
{
}

/// Toggling the palette twice leaves it open or closed as it was, with an
/// empty query, and nothing else changed.
pub proof fn lemma_palette_toggle_twice(s0: Midway, s1: Midway, s2: Midway)
    requires
        palette_spec(s0, s1, PaletteMessage::Toggled),
        palette_spec(s1, s2, PaletteMessage::Toggled),
    ensures
        s2.palette.is_open == s0.palette.is_open,
        s2.palette.query@.len() == 0,
        s2 == (Midway { palette: s2.palette, ..s0 }),
{
}

/// After an autosave tick the session is clean, and a second tick with no
/// change in between writes nothing.
pub proof fn lemma_autosave_settles(s0: Midway, s1: Midway, s2: Midway, e1: Effect, e2: Effect)
    requires
        session_spec(s0, s1, SessionMessage::AutosaveTick, e1),
        session_spec(s1, s2, SessionMessage::AutosaveTick, e2),
    ensures
        !s1.session.dirty,
        e2 is Nothing,
        s2 == s1,
        s0.session.dirty <==> e1 is WriteSession,
{
}

/// Toggling the theme twice gives the theme back.
pub proof fn lemma_theme_toggle_involutive(m: ThemeMode)
    ensures
        other_theme(other_theme(m)) == m,
        other_theme(m) != m,
{
}

/// Once an environment is deleted no environment has its id and no tab
/// selects it.
pub proof fn lemma_deleted_environment_is_gone(pre: Midway, post: Midway, id: String)
    requires
        environment_deleted_spec(pre, post, id, Ok(())),
    ensures
        forall|k: int|
            0 <= k < post.workspace.environments@.len() ==> (
            #[trigger] post.workspace.environments@[k]).id@ != id@,
        forall|k: int|
            0 <= k < post.tabs@.len() ==> opt_view((#[trigger] post.tabs@[k]).draft.environment_id)
                != Some(id@),
{
    broadcast use vstd::seq_lib::group_filter_ensures;

    assert forall|k: int| 0 <= k < post.workspace.environments@.len() implies (
    #[trigger] post.workspace.environments@[k]).id@ != id@ by {
        assert((crate::environments::env_lacks_id(id@))(post.workspace.environments@[k]));
    }
    assert forall|k: int| 0 <= k < post.tabs@.len() implies opt_view(
        (#[trigger] post.tabs@[k]).draft.environment_id,
    ) != Some(id@) by {
        assert(crate::environments::tab_without_environment(pre.tabs@[k], post.tabs@[k], id@));
    }
}

/// After a create/rename/delete, no open tab shows a deleted request, and
/// the active tab is an open tab.
pub proof fn lemma_reconcile_cleans_tabs(pre: Midway, post: Midway, ws: crate::records::WorkspaceSnapshot)
    requires
        reconcile_spec(pre, post, ws),
    ensures
        forall|k: int|
            0 <= k < post.tabs@.len() ==> match (#[trigger] post.tabs@[k]).draft.id {
                Some(r) => !request_deleted(pre.workspace.collections@, ws.collections@, r@),
                None => true,
            },
        post.tabs@.len() >= 1,
        active_tab_valid(post),
{
    broadcast use vstd::seq_lib::group_filter_ensures;

    let kept = pre.tabs@.filter(keeps_tab(pre.workspace.collections@, ws.collections@));
    if kept.len() > 0 {
        assert forall|k: int| 0 <= k < post.tabs@.len() implies match (
        #[trigger] post.tabs@[k]).draft.id {
            Some(r) => !request_deleted(pre.workspace.collections@, ws.collections@, r@),
            None => true,
        } by {
            assert((keeps_tab(pre.workspace.collections@, ws.collections@))(kept[k]));
        }
        let prev_id = match pre.active_tab {
            Some(a) if a < pre.tabs@.len() => Some(pre.tabs@[a as int].id@),
            _ => None,
        };
        if let Some(pid) = prev_id {
            crate::state::lemma_tab_index(kept, pid);
        }
    } else {
        assert(crate::model::is_blank_draft(post.tabs@[0].draft@));
    }
}

/// Adding a key/value row and then removing it by its id gives the rows
/// back, when no earlier row had that id.
pub proof fn lemma_add_then_remove_row(
    rows: Seq<KeyValueRow>,
    added: Seq<KeyValueRow>,
    removed: Seq<KeyValueRow>,
)
    requires
        kv_row_appended(rows, added),
        forall|k: int| 0 <= k < rows.len() ==> rows[k].id@ != added.last().id@,
        removed == added.filter(lacks_id::<KeyValueRow>(added.last().id@)),
    ensures
        removed == rows,
{
    let p = lacks_id::<KeyValueRow>(added.last().id@);
    assert(added.drop_last() =~= rows);
    assert(added =~= rows.push(added.last()));
    lemma_filter_keeps_all(rows, p);
    reveal(Seq::filter);
    assert(added.filter(p) == added.drop_last().filter(p));
}

proof fn lemma_filter_keeps_all<T>(s: Seq<T>, p: spec_fn(T) -> bool)
    requires
        forall|k: int| 0 <= k < s.len() ==> p(s[k]),
    ensures
        s.filter(p) == s,
    decreases s.len(),
{
    reveal(Seq::filter);
    if s.len() > 0 {
        lemma_filter_keeps_all(s.drop_last(), p);
        assert(s.drop_last().push(s.last()) =~= s);
    }
}

/// The name given to a candidate is determined by the names in use: two
/// names that both meet the naming rule are the same name.
pub proof fn lemma_unique_name_is_determined(
    names: Seq<Seq<char>>,
    candidate: Seq<char>,
    r1: Seq<char>,
    r2: Seq<char>,
)
    requires
        is_unique_name_for(names, candidate, r1),
        is_unique_name_for(names, candidate, r2),
    ensures
        r1 == r2,
{
    if names.contains(candidate) {
        let k1 = choose|k: nat|
            2 <= k && r1 == suffixed(candidate, k) && forall|j: nat|
                2 <= j < k ==> names.contains(#[trigger] suffixed(candidate, j));
        let k2 = choose|k: nat|
            2 <= k && r2 == suffixed(candidate, k) && forall|j: nat|
                2 <= j < k ==> names.contains(#[trigger] suffixed(candidate, j));
        if k1 < k2 {
            assert(names.contains(suffixed(candidate, k1)));
        } else if k2 < k1 {
            assert(names.contains(suffixed(candidate, k2)));
        }
    }
}

/// Every name an import hands out is new: no item of its kind had it
/// before, and no two imported items of one kind share it.
pub proof fn lemma_imported_names_are_fresh(
    used: Seq<Seq<char>>,
    candidates: Seq<Seq<char>>,
    results: Seq<Seq<char>>,
)
    requires
        claimed_in_turn(used, candidates, results),
    ensures
        forall|i: int| 0 <= i < results.len() ==> !used.contains(#[trigger] results[i]),
        forall|i: int, j: int|
            0 <= i < j < results.len() ==> #[trigger] results[i] != #[trigger] results[j],
{
    assert forall|i: int| 0 <= i < results.len() implies !used.contains(#[trigger] results[i]) by {
        assert(is_unique_name_for(used + results.take(i), candidates[i], results[i]));
        if used.contains(results[i]) {
            let k = choose|k: int| 0 <= k < used.len() && used[k] == results[i];
            assert((used + results.take(i))[k] == results[i]);
        }
    }
    assert forall|i: int, j: int| 0 <= i < j < results.len() implies #[trigger] results[i]
        != #[trigger] results[j] by {
        assert(is_unique_name_for(used + results.take(j), candidates[j], results[j]));
        assert((used + results.take(j))[used.len() + i] == results[i]);
    }
}

/// No two environments of `envs` share a name.
pub open spec fn environment_names_unique(envs: Seq<EnvironmentRecord>) -> bool {
    forall|i: int, j: int|
        0 <= i < j < envs.len() ==> (#[trigger] envs[i]).name@ != (#[trigger] envs[j]).name@
}

/// No two environments of `envs` share an id.
pub open spec fn environment_ids_unique(envs: Seq<EnvironmentRecord>) -> bool {
    forall|i: int, j: int|
        0 <= i < j < envs.len() ==> (#[trigger] envs[i]).id@ != (#[trigger] envs[j]).id@
}

/// Environment names stay unique and within their limits: when a name
/// passes validation and the store saves it (as a new environment, or
/// under the id being edited), the environments, applied the result, still
/// have different names, none too long, and no more of them than allowed.
pub proof fn lemma_validated_environment_save_keeps_names_unique(
    pre: Midway,
    post: Midway,
    raw: Seq<char>,
    saved: EnvironmentRecord,
)
    requires
        environment_names_unique(pre.workspace.environments@),
        environment_ids_unique(pre.workspace.environments@),
        forall|i: int|
            0 <= i < pre.workspace.environments@.len() ==> (
            #[trigger] pre.workspace.environments@[i]).name@.len() <= MAX_ENVIRONMENT_NAME_LEN,
        pre.workspace.environments@.len() <= MAX_ENVIRONMENTS,
        environment_name_verdict(
            pre.workspace.environments@,
            opt_view(pre.workspace_panel.environment_form.editing_id),
            raw,
        ) == Ok::<Seq<char>, Seq<char>>(saved.name@),
        pre.workspace_panel.environment_form.editing_id matches Some(e) ==> saved.id@ == e@,
        environment_saved_spec(pre, post, Ok(saved)),
    ensures
        environment_names_unique(post.workspace.environments@),
        forall|i: int|
            0 <= i < post.workspace.environments@.len() ==> (
            #[trigger] post.workspace.environments@[i]).name@.len() <= MAX_ENVIRONMENT_NAME_LEN,
        (pre.workspace_panel.environment_form.editing_id matches Some(e) ==> environment_index(
            pre.workspace.environments@,
            e@,
        ) is Some) ==> post.workspace.environments@.len() <= MAX_ENVIRONMENTS,
{
    let envs = pre.workspace.environments@;
    let editing = opt_view(pre.workspace_panel.environment_form.editing_id);
    let after = post.workspace.environments@;
    lemma_environment_index(envs, saved.id@);
    assert(!name_taken(envs, editing, saved.name@));
    match environment_index(envs, saved.id@) {
        Some(j) => {
            assert(after == envs.update(j, saved));
            assert forall|k: int| 0 <= k < envs.len() && k != j implies envs[k].name@
                != saved.name@ by {
                if envs[k].name@ == saved.name@ {
                    assert(editing == Some(envs[k].id@));
                    assert(envs[k].id@ == saved.id@);
                    assert(envs[j].id@ == saved.id@);
                    if k < j {
                        assert(envs[k].id@ != envs[j].id@);
                    } else {
                        assert(envs[j].id@ != envs[k].id@);
                    }
                }
            }
            assert forall|a: int, b: int| 0 <= a < b < after.len() implies (#[trigger] after[a]).name@
                != (#[trigger] after[b]).name@ by {
                if a != j && b != j {
                    assert(after[a] == envs[a] && after[b] == envs[b]);
                }
            }
        },
        None => {
            assert(after == envs.push(saved));
            assert forall|k: int| 0 <= k < envs.len() implies envs[k].name@ != saved.name@ by {
                if envs[k].name@ == saved.name@ {
                    assert(envs[k].id@ != saved.id@);
                    assert(editing != Some(envs[k].id@));
                }
            }
            assert forall|a: int, b: int| 0 <= a < b < after.len() implies (#[trigger] after[a]).name@
                != (#[trigger] after[b]).name@ by {
                if b < envs.len() {
                    assert(after[a] == envs[a] && after[b] == envs[b]);
                }
            }
        },
    }
}

/// No two tabs of `tabs` share an id.
pub open spec fn tab_ids_unique(tabs: Seq<RequestTabState>) -> bool {
    forall|i: int, j: int| 0 <= i < j < tabs.len() ==> (#[trigger] tabs[i]).id@ != (#[trigger] tabs[j]).id@
}

/// What the autosave writes, restoring it at startup gives back: the open
/// tabs in order (their ids, drafts and configuration tabs), the active
/// tab, the theme and the active collection.
pub proof fn lemma_session_round_trip(
    s: Midway,
    snap: SessionSnapshot,
    session: SessionStoreState,
    restored: SessionStoreState,
    tabs: Seq<RequestTabState>,
    active: Option<usize>,
    collection: Option<String>,
)
    requires
        session_snapshot_of(s, snap),
        s.tabs@.len() > 0,
        s.active_tab matches Some(a) && a < s.tabs@.len(),
        tab_ids_unique(s.tabs@),
        session.pending_restore == Some(snap),
        restore_spec(session, restored, tabs, active, collection),
    ensures
        tabs.len() == s.tabs@.len(),
        forall|k: int|
            0 <= k < tabs.len() ==> (#[trigger] tabs[k]).id == s.tabs@[k].id && tabs[k].draft@
                == s.tabs@[k].draft@ && tabs[k].active_request_tab == s.tabs@[k].active_request_tab,
        active == s.active_tab,
        restored.theme_mode == s.theme_mode,
        collection == s.active_collection_id,
{
    let a = s.active_tab->0;
    assert(snap.open_tabs@.len() == s.tabs@.len());
    assert forall|k: int| 0 <= k < tabs.len() implies (#[trigger] tabs[k]).id == s.tabs@[k].id
        && tabs[k].draft@ == s.tabs@[k].draft@ && tabs[k].active_request_tab
        == s.tabs@[k].active_request_tab by {
        assert(snap.open_tabs@[k].id == s.tabs@[k].id);
    }
    assert(snap.active_tab_id == Some(s.tabs@[a as int].id));
    lemma_tab_index(tabs, s.tabs@[a as int].id@);
    match tab_index(tabs, s.tabs@[a as int].id@) {
        Some(i) => {
            if i < a {
                assert(tabs[i].id@ == s.tabs@[i].id@);
                assert(s.tabs@[i].id@ != s.tabs@[a as int].id@);
            } else if i > a {
                assert(tabs[a as int].id@ == s.tabs@[a as int].id@);
            }
        },
        None => {
            assert(tabs[a as int].id@ == s.tabs@[a as int].id@);
        },
    }
}

} // verus!
