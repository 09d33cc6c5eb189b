//! Properties of whole sequences of operations: editing key/value rows,
//! and closing and reopening tabs.

use vstd::prelude::*;
use crate::composer::{active_index, has_active_tab};
use crate::composer_update::{RequestComposerMessage, composer_spec};
use crate::editing::KeyValueTarget;
use crate::effects::Effect;
use crate::model::{KeyValueRow, KeyValueRowView};
use crate::rows::{has_id, lacks_id};
use crate::seqs::{first_index, lemma_first_index, lemma_first_index_at, lemma_first_index_none, update_first};
use crate::state::{CLOSED_TABS_LIMIT, Midway, TabSnapshot, tab_index};
use crate::tabs::{closed_tab_spec, push_closed, reopen_spec, snapshot_of};

verus! {

/// The rows as the reference model sees them: id, key, value, enabled.
pub open spec fn row_views(rows: Seq<KeyValueRow>) -> Seq<KeyValueRowView> {
    rows.map_values(|r: KeyValueRow| r@)
}

/// A key/value row edit of the query parameters.
pub open spec fn is_query_row_message(m: RequestComposerMessage) -> bool {
    match m {
        RequestComposerMessage::KeyValueRowAdded(t) => t == KeyValueTarget::Query,
        RequestComposerMessage::KeyValueRowKeyChanged { target, .. } => target
            == KeyValueTarget::Query,
        RequestComposerMessage::KeyValueRowValueChanged { target, .. } => target
            == KeyValueTarget::Query,
        RequestComposerMessage::KeyValueRowEnabledToggled { target, .. } => target
            == KeyValueTarget::Query,
        RequestComposerMessage::KeyValueRowRemoved { target, .. } => target
            == KeyValueTarget::Query,
        _ => false,
    }
}

pub open spec fn view_has_id(id: Seq<char>) -> spec_fn(KeyValueRowView) -> bool {
    |v: KeyValueRowView| v.id == id
}

pub open spec fn view_lacks_id(id: Seq<char>) -> spec_fn(KeyValueRowView) -> bool {
    |v: KeyValueRowView| v.id != id
}

/// One edit on the reference list of rows: adding appends a blank, enabled
/// row with the id the editor gave it; setting the key or value, or
/// toggling, changes the first row with the id; removing drops every row
/// with the id. An edit of an absent id changes nothing.
pub open spec fn reference_row_step(
    rows: Seq<KeyValueRowView>,
    m: RequestComposerMessage,
    new_id: Seq<char>,
) -> Seq<KeyValueRowView> {
    match m {
        RequestComposerMessage::KeyValueRowAdded(_) => rows.push(
            KeyValueRowView { id: new_id, key: Seq::empty(), value: Seq::empty(), enabled: true },
        ),
        RequestComposerMessage::KeyValueRowKeyChanged { row_id, key, .. } => update_first(
            rows,
            view_has_id(row_id@),
            |v: KeyValueRowView| KeyValueRowView { key: key@, ..v },
        ),
        RequestComposerMessage::KeyValueRowValueChanged { row_id, value, .. } => update_first(
            rows,
            view_has_id(row_id@),
            |v: KeyValueRowView| KeyValueRowView { value: value@, ..v },
        ),
        RequestComposerMessage::KeyValueRowEnabledToggled { row_id, .. } => update_first(
            rows,
            view_has_id(row_id@),
            |v: KeyValueRowView| KeyValueRowView { enabled: !v.enabled, ..v },
        ),
        RequestComposerMessage::KeyValueRowRemoved { row_id, .. } => rows.filter(
            view_lacks_id(row_id@),
        ),
        _ => rows,
    }
}

/// The reference list after the edits `msgs`, the `k`-th add taking the id
/// `ids[k]`.
pub open spec fn reference_rows(
    rows: Seq<KeyValueRowView>,
    msgs: Seq<RequestComposerMessage>,
    ids: Seq<Seq<char>>,
) -> Seq<KeyValueRowView>
    decreases msgs.len(),
{
    if msgs.len() == 0 {
        rows
    } else {
        reference_row_step(
            reference_rows(rows, msgs.drop_last(), ids.drop_last()),
            msgs.last(),
            ids.last(),
        )
    }
}

proof fn lemma_views_update_first(
    s: Seq<KeyValueRow>,
    id: Seq<char>,
    f: spec_fn(KeyValueRow) -> KeyValueRow,
    g: spec_fn(KeyValueRowView) -> KeyValueRowView,
)
    requires
        forall|r: KeyValueRow| #[trigger] f(r)@ == g(r@),
    ensures
        row_views(update_first(s, has_id::<KeyValueRow>(id), f)) == update_first(
            row_views(s),
            view_has_id(id),
            g,
        ),
{
    let p = has_id::<KeyValueRow>(id);
    let q = view_has_id(id);
    let vs = row_views(s);
    lemma_first_index(s, p);
    match first_index(s, p) {
        Some(i) => {
            assert forall|k: int| 0 <= k < i implies !q(vs[k]) by {
                assert(!p(s[k]));
            }
            lemma_first_index_at(vs, q, i);
            assert(row_views(s.update(i, f(s[i]))) =~= vs.update(i, g(vs[i])));
        },
        None => {
            assert forall|k: int| 0 <= k < vs.len() implies !q(vs[k]) by {
                assert(!p(s[k]));
            }
            lemma_first_index_none(vs, q);
        },
    }
}

proof fn lemma_views_filter(s: Seq<KeyValueRow>, id: Seq<char>)
    ensures
        row_views(s.filter(lacks_id::<KeyValueRow>(id))) == row_views(s).filter(view_lacks_id(id)),
    decreases s.len(),
{
    reveal(Seq::filter);
    if s.len() > 0 {
        lemma_views_filter(s.drop_last(), id);
        assert(row_views(s).drop_last() =~= row_views(s.drop_last()));
        let sub = s.drop_last().filter(lacks_id::<KeyValueRow>(id));
        assert(row_views(sub.push(s.last())) =~= row_views(sub).push(s.last()@));
    } else {
        assert(row_views(s) =~= Seq::<KeyValueRowView>::empty());
    }
}

/// Editing the query rows by any sequence of adds, key and value changes,
/// toggles and removals gives, position by position, the rows of the
/// reference list model (the adds taking the ids the editor gave them),
/// leaves the headers alone, keeps the active tab and asks for nothing.
pub proof fn lemma_row_edits_follow_reference_model(
    states: Seq<Midway>,
    msgs: Seq<RequestComposerMessage>,
    effs: Seq<Effect>,
    ids: Seq<Seq<char>>,
)
    requires
        states.len() == msgs.len() + 1,
        effs.len() == msgs.len(),
        ids.len() == msgs.len(),
        has_active_tab(states[0]),
        forall|i: int| 0 <= i < msgs.len() ==> is_query_row_message(#[trigger] msgs[i]),
        forall|i: int|
            0 <= i < msgs.len() ==> #[trigger] composer_spec(
                states[i],
                states[i + 1],
                msgs[i],
                effs[i],
            ),
        forall|i: int|
            0 <= i < msgs.len() && (#[trigger] msgs[i]) is KeyValueRowAdded ==> states[i
                + 1].tabs@[active_index(states[0])].draft.query@.last().id@ == ids[i],
    ensures
        has_active_tab(states.last()),
        states.last().active_tab == states[0].active_tab,
        row_views(states.last().tabs@[active_index(states[0])].draft.query@) == reference_rows(
            row_views(states[0].tabs@[active_index(states[0])].draft.query@),
            msgs,
            ids,
        ),
        states.last().tabs@[active_index(states[0])].draft.headers
            == states[0].tabs@[active_index(states[0])].draft.headers,
        forall|i: int| 0 <= i < msgs.len() ==> (#[trigger] effs[i]) is Nothing,
    decreases msgs.len(),
{
    let n = msgs.len() as int;
    let a = active_index(states[0]);
    if n > 0 {
        let sp = states.drop_last();
        let mp = msgs.drop_last();
        let ep = effs.drop_last();
        let ip = ids.drop_last();
        assert forall|i: int| 0 <= i < mp.len() implies is_query_row_message(#[trigger] mp[i]) by {
            assert(mp[i] == msgs[i]);
        }
        assert forall|i: int| 0 <= i < mp.len() implies #[trigger] composer_spec(
            sp[i],
            sp[i + 1],
            mp[i],
            ep[i],
        ) by {
            assert(composer_spec(states[i], states[i + 1], msgs[i], effs[i]));
        }
        assert forall|i: int|
            0 <= i < mp.len() && (#[trigger] mp[i]) is KeyValueRowAdded implies sp[i
                + 1].tabs@[active_index(sp[0])].draft.query@.last().id@ == ip[i] by {
            assert(msgs[i] == mp[i]);
        }
        lemma_row_edits_follow_reference_model(sp, mp, ep, ip);
        let pre = states[n - 1];
        let post = states[n];
        let m = msgs[n - 1];
        assert(pre == sp.last());
        assert(is_query_row_message(m));
        assert(composer_spec(pre, post, m, effs[n - 1]));
        assert(has_active_tab(pre));
        assert(active_index(pre) == a);
        let t = pre.tabs@[a];
        let u = post.tabs@[a];
        assert(reference_rows(row_views(states[0].tabs@[a].draft.query@), msgs, ids)
            == reference_row_step(
            reference_rows(row_views(states[0].tabs@[a].draft.query@), mp, ip),
            m,
            ids[n - 1],
        ));
        match m {
            RequestComposerMessage::KeyValueRowAdded(_) => {
                let last = u.draft.query@.last();
                assert(u.draft.query@ =~= t.draft.query@.push(last));
                assert(last@.key =~= Seq::<char>::empty());
                assert(last@.value =~= Seq::<char>::empty());
                assert(row_views(t.draft.query@.push(last)) =~= row_views(t.draft.query@).push(
                    last@,
                ));
            },
            RequestComposerMessage::KeyValueRowKeyChanged { row_id, key, .. } => {
                let g = |v: KeyValueRowView| KeyValueRowView { key: key@, ..v };
                assert forall|r: KeyValueRow| #[trigger]
                    (crate::editing::kv_set_key(key))(r)@ == g(r@) by {}
                lemma_views_update_first(t.draft.query@, row_id@, crate::editing::kv_set_key(key), g);
            },
            RequestComposerMessage::KeyValueRowValueChanged { row_id, value, .. } => {
                let g = |v: KeyValueRowView| KeyValueRowView { value: value@, ..v };
                assert forall|r: KeyValueRow| #[trigger]
                    (crate::editing::kv_set_value(value))(r)@ == g(r@) by {}
                lemma_views_update_first(
                    t.draft.query@,
                    row_id@,
                    crate::editing::kv_set_value(value),
                    g,
                );
            },
            RequestComposerMessage::KeyValueRowEnabledToggled { row_id, .. } => {
                let g = |v: KeyValueRowView| KeyValueRowView { enabled: !v.enabled, ..v };
                assert forall|r: KeyValueRow| #[trigger] (crate::editing::kv_toggle())(r)@ == g(
                    r@,
                ) by {}
                lemma_views_update_first(t.draft.query@, row_id@, crate::editing::kv_toggle(), g);
            },
            RequestComposerMessage::KeyValueRowRemoved { row_id, .. } => {
                lemma_views_filter(t.draft.query@, row_id@);
            },
            _ => {},
        }
        assert forall|i: int| 0 <= i < n implies (#[trigger] effs[i]) is Nothing by {
            if i < n - 1 {
                assert(effs[i] == ep[i]);
            }
        }
    }
}

/// The ids of a closed-tab stack, front to back.
pub open spec fn closed_ids(stack: Seq<TabSnapshot>) -> Seq<Seq<char>> {
    stack.map_values(|t: TabSnapshot| t.id@)
}

/// One step of the closed-tab oracle: closing the tab `id` puts its id in
/// front and drops from the back what goes past the limit; a reopen takes
/// the front id off, when there is one.
pub open spec fn closed_oracle_step(ids: Seq<Seq<char>>, op: Option<Seq<char>>) -> Seq<Seq<char>> {
    match op {
        Some(id) => {
            let pushed = seq![id] + ids;
            if pushed.len() > CLOSED_TABS_LIMIT {
                pushed.take(CLOSED_TABS_LIMIT as int)
            } else {
                pushed
            }
        },
        None => if ids.len() == 0 {
            ids
        } else {
            ids.drop_first()
        },
    }
}

/// The oracle's ids after the operations `ops` (`Some(id)` closes the tab
/// `id`, `None` reopens).
pub open spec fn closed_oracle(ids: Seq<Seq<char>>, ops: Seq<Option<Seq<char>>>) -> Seq<Seq<char>>
    decreases ops.len(),
{
    if ops.len() == 0 {
        ids
    } else {
        closed_oracle_step(closed_oracle(ids, ops.drop_last()), ops.last())
    }
}

/// `post` follows `pre` by closing the open tab `id` (`Some(id)`) or by
/// reopening the last closed tab (`None`).
#[verifier::opaque]
pub open spec fn close_or_reopen(pre: Midway, post: Midway, op: Option<Seq<char>>) -> bool {
    match op {
        Some(id) => tab_index(pre.tabs@, id) is Some && closed_tab_spec(pre, post, id),
        None => reopen_spec(pre, post),
    }
}

proof fn lemma_close_or_reopen_step(pre: Midway, post: Midway, op: Option<Seq<char>>)
    requires
        close_or_reopen(pre, post, op),
        pre.closed_tabs@.len() <= CLOSED_TABS_LIMIT,
    ensures
        post.closed_tabs@.len() <= CLOSED_TABS_LIMIT,
        closed_ids(post.closed_tabs@) == closed_oracle_step(closed_ids(pre.closed_tabs@), op),
{
    reveal(close_or_reopen);
    let ids = closed_ids(pre.closed_tabs@);
    match op {
        Some(id) => {
            let i = tab_index(pre.tabs@, id).unwrap();
            crate::state::lemma_tab_index(pre.tabs@, id);
            let snap = snapshot_of(pre.tabs@[i]);
            let pushed = seq![snap] + pre.closed_tabs@;
            assert(closed_ids(pushed) =~= seq![id] + ids);
            if pushed.len() > CLOSED_TABS_LIMIT {
                assert(closed_ids(pushed.subrange(0, CLOSED_TABS_LIMIT as int)) =~= (seq![id]
                    + ids).take(CLOSED_TABS_LIMIT as int));
            }
        },
        None => {
            if pre.closed_tabs@.len() > 0 {
                assert(closed_ids(pre.closed_tabs@.drop_first()) =~= ids.drop_first());
            }
        },
    }
}

proof fn lemma_reopen_step(pre: Midway, post: Midway)
    requires
        close_or_reopen(pre, post, None),
        pre.closed_tabs@.len() > 0,
    ensures
        post.tabs@.last().id@ == closed_ids(pre.closed_tabs@)[0],
        post.active_tab == Some((post.tabs@.len() - 1) as usize),
{
    reveal(close_or_reopen);
}

proof fn lemma_closed_tabs_at(states: Seq<Midway>, ops: Seq<Option<Seq<char>>>, i: int)
    requires
        states.len() == ops.len() + 1,
        states[0].closed_tabs@.len() <= CLOSED_TABS_LIMIT,
        forall|k: int| 0 <= k < ops.len() ==> close_or_reopen(states[k], states[k + 1], #[trigger] ops[k]),
        0 <= i <= ops.len(),
    ensures
        states[i].closed_tabs@.len() <= CLOSED_TABS_LIMIT,
        closed_ids(states[i].closed_tabs@) == closed_oracle(
            closed_ids(states[0].closed_tabs@),
            ops.take(i),
        ),
    decreases i,
{
    let init = closed_ids(states[0].closed_tabs@);
    if i == 0 {
        assert(ops.take(0) =~= Seq::<Option<Seq<char>>>::empty());
    } else {
        lemma_closed_tabs_at(states, ops, i - 1);
        assert(close_or_reopen(states[i - 1], states[i], ops[i - 1]));
        lemma_close_or_reopen_step(states[i - 1], states[i], ops[i - 1]);
        assert(ops.take(i).drop_last() =~= ops.take(i - 1));
        assert(ops.take(i).last() == ops[i - 1]);
    }
}

/// Over any sequence of closes of open tabs and reopens, the closed-tab
/// stack never holds more than its limit and its ids, front to back, are
/// those of the oracle deque; each reopen of a non-empty stack brings back,
/// at the end and active, the tab whose id was in front.
pub proof fn lemma_closed_tabs_follow_oracle(states: Seq<Midway>, ops: Seq<Option<Seq<char>>>)
    requires
        states.len() == ops.len() + 1,
        states[0].closed_tabs@.len() <= CLOSED_TABS_LIMIT,
        forall|i: int| 0 <= i < ops.len() ==> close_or_reopen(states[i], states[i + 1], #[trigger] ops[i]),
    ensures
        forall|i: int|
            0 <= i <= ops.len() ==> (#[trigger] states[i]).closed_tabs@.len() <= CLOSED_TABS_LIMIT
                && closed_ids(states[i].closed_tabs@) == closed_oracle(
                closed_ids(states[0].closed_tabs@),
                ops.take(i),
            ),
        forall|i: int|
            0 <= i < ops.len() && (#[trigger] ops[i]) is None && closed_oracle(
                closed_ids(states[0].closed_tabs@),
                ops.take(i),
            ).len() > 0 ==> {
                &&& states[i + 1].tabs@.last().id@ == closed_oracle(
                    closed_ids(states[0].closed_tabs@),
                    ops.take(i),
                )[0]
                &&& states[i + 1].active_tab == Some((states[i + 1].tabs@.len() - 1) as usize)
            },
{
    assert forall|i: int| 0 <= i <= ops.len() implies (#[trigger] states[i]).closed_tabs@.len()
        <= CLOSED_TABS_LIMIT && closed_ids(states[i].closed_tabs@) == closed_oracle(
        closed_ids(states[0].closed_tabs@),
        ops.take(i),
    ) by {
        lemma_closed_tabs_at(states, ops, i);
    }
    assert forall|i: int|
        0 <= i < ops.len() && (#[trigger] ops[i]) is None && closed_oracle(
            closed_ids(states[0].closed_tabs@),
            ops.take(i),
        ).len() > 0 implies {
        &&& states[i + 1].tabs@.last().id@ == closed_oracle(
            closed_ids(states[0].closed_tabs@),
            ops.take(i),
        )[0]
        &&& states[i + 1].active_tab == Some((states[i + 1].tabs@.len() - 1) as usize)
    } by {
        lemma_closed_tabs_at(states, ops, i);
        assert(close_or_reopen(states[i], states[i + 1], ops[i]));
        lemma_reopen_step(states[i], states[i + 1]);
    }
}

} // verus!
