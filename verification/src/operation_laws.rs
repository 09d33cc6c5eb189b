//! What single operations are for, stated on their own terms: the keyboard
//! shortcut table, when a tab has unsaved changes, which configuration tab
//! a method opens on, where the save dialog proposes to save, and what the
//! end-of-run line counts.

use vstd::prelude::*;
use crate::app_update::Message;
use crate::composer::{active_index, has_active_tab};
use crate::composer_update::RequestComposerMessage;
use crate::editing::{TabEdit, tab_edit_spec};
use crate::keyboard::KeyboardMessage;
use crate::model::{HttpMethod, assertion_views, form_views, kv_views, opt_view};
use crate::palette::PaletteMessage;
use crate::records::{CollectionWithRequests, lemma_request_position, request_position};
use crate::runner::progress_label_spec;
use crate::saving::save_prompt_opened;
use crate::shortcuts::{KeyPress, PressedKey, shortcut_spec};
use crate::state::{CollectionRunPhase, CollectionRunProgressEvent, Midway, RequestTab, RequestTabState};
use crate::tabs::tab_dirty_spec;
use crate::model::BodyMode;
use crate::text::{is_blank, is_whitespace_char, lemma_decimal_injective, trim_end, trim_start};
use crate::workspace_panel::WorkspaceMessage;

verus! {

/// The tab an Alt+digit press names, counting from zero: the digit less
/// one.
pub open spec fn tab_of_digit_key(p: KeyPress) -> usize {
    match p.key {
        PressedKey::Character(c) => (c@[0] as int - '1' as int) as usize,
        _ => 0,
    }
}

/// The shortcut table. Letters match in either case: Ctrl+K toggles the
/// palette (with or without Shift); Ctrl+Shift+N, P and T open a blank
/// tab, the preview and the last closed tab; Ctrl+Enter sends, Ctrl+S
/// saves, Ctrl+W closes the tab and Ctrl+. folds the side panel; Alt with
/// a digit from 1 to 9 goes to that tab (counting from one); Esc with no
/// modifier closes the top overlay; without Ctrl or Alt nothing else is a
/// shortcut.
pub proof fn lemma_shortcut_table(p: KeyPress)
    ensures
        p.command && (p.key matches PressedKey::Character(c) && (c@ == seq!['k'] || c@ == seq!['K']))
            ==> shortcut_spec(p) == Some(Message::Palette(PaletteMessage::Toggled)),
        p.command && p.shift && (p.key matches PressedKey::Character(c) && (c@ == seq!['n'] || c@
            == seq!['N'])) ==> shortcut_spec(p) == Some(
            Message::Keyboard(KeyboardMessage::NewBlankTabRequested),
        ),
        p.command && p.shift && (p.key matches PressedKey::Character(c) && (c@ == seq!['p'] || c@
            == seq!['P'])) ==> shortcut_spec(p) == Some(
            Message::RequestComposer(RequestComposerMessage::SettingsPressed),
        ),
        p.command && p.shift && (p.key matches PressedKey::Character(c) && (c@ == seq!['t'] || c@
            == seq!['T'])) ==> shortcut_spec(p) == Some(
            Message::RequestComposer(RequestComposerMessage::ClosedTabReopened),
        ),
        p.command && !p.shift && p.key is Enter ==> shortcut_spec(p) == Some(
            Message::RequestComposer(RequestComposerMessage::SendPressed),
        ),
        p.command && !p.shift && (p.key matches PressedKey::Character(c) && (c@ == seq!['s'] || c@
            == seq!['S'])) ==> shortcut_spec(p) == Some(
            Message::Keyboard(KeyboardMessage::SaveRequested),
        ),
        p.command && !p.shift && (p.key matches PressedKey::Character(c) && (c@ == seq!['w'] || c@
            == seq!['W'])) ==> shortcut_spec(p) == Some(
            Message::Keyboard(KeyboardMessage::CloseActiveTabShortcut),
        ),
        p.command && !p.shift && (p.key matches PressedKey::Character(c) && c@ == seq!['.'])
            ==> shortcut_spec(p) == Some(Message::Workspace(WorkspaceMessage::ToggleCollapsed)),
        !p.command && p.alt && (p.key matches PressedKey::Character(c) && c@.len() == 1 && '1'
            <= c@[0] && c@[0] <= '9') ==> shortcut_spec(p) == Some(
            Message::Keyboard(KeyboardMessage::GoToTabShortcut { index: tab_of_digit_key(p) }),
        ),
        !p.command && !p.alt && p.no_modifiers && p.key is Escape ==> shortcut_spec(p) == Some(
            Message::Keyboard(KeyboardMessage::EscapePressed),
        ),
        !p.command && !p.alt && !(p.no_modifiers && p.key is Escape) ==> shortcut_spec(p) is None,
        p.command && p.shift && !(p.key matches PressedKey::Character(c) && (c@ == seq!['k'] || c@
            == seq!['K'] || c@ == seq!['n'] || c@ == seq!['N'] || c@ == seq!['p'] || c@ == seq!['P']
            || c@ == seq!['t'] || c@ == seq!['T'])) ==> shortcut_spec(p) is None,
        p.command && !p.shift && !(p.key is Enter) && !(p.key matches PressedKey::Character(c) && (c@
            == seq!['k'] || c@ == seq!['K'] || c@ == seq!['s'] || c@ == seq!['S'] || c@ == seq!['w']
            || c@ == seq!['W'] || c@ == seq!['.'])) ==> shortcut_spec(p) is None,
        !p.command && p.alt && !(p.key is Character) ==> shortcut_spec(p) is None,
{
    if let PressedKey::Character(c) = p.key {
        if c@.len() == 1 {
            assert(c@ =~= seq![c@[0]]);
        }
    }
}

/// A tab of a saved request has unsaved changes exactly when its draft
/// differs from the saved one in some field: id, name, method, URL, query
/// parameters, headers, auth, body mode, body text, form fields, timeout,
/// environment or assertions.
pub proof fn lemma_saved_tab_dirty_iff_some_field_differs(t: RequestTabState)
    requires
        t.saved_draft is Some,
    ensures
        ({
            let s = t.saved_draft->0;
            let d = t.draft;
            tab_dirty_spec(t) <==> !{
                &&& opt_view(s.id) == opt_view(d.id)
                &&& s.name@ == d.name@
                &&& s.method == d.method
                &&& s.url@ == d.url@
                &&& kv_views(s.query@) == kv_views(d.query@)
                &&& kv_views(s.headers@) == kv_views(d.headers@)
                &&& s.auth@ == d.auth@
                &&& s.body.mode == d.body.mode
                &&& s.body.value@ == d.body.value@
                &&& form_views(s.body.form_data@) == form_views(d.body.form_data@)
                &&& s.timeout_ms == d.timeout_ms
                &&& opt_view(s.environment_id) == opt_view(d.environment_id)
                &&& assertion_views(s.response_tests@) == assertion_views(d.response_tests@)
            }
        }),
{
}

/// Changing the method of a tab whose configuration tab was not chosen by
/// hand opens it on Body for the methods that carry a body (POST, PUT,
/// PATCH, DELETE) and on Params for GET, HEAD and OPTIONS; a tab chosen by
/// hand stays where it is.
pub proof fn lemma_method_change_picks_config_tab(t: RequestTabState, u: RequestTabState, m: HttpMethod)
    requires
        tab_edit_spec(t, u, TabEdit::MethodChanged(m)),
    ensures
        u.draft.method == m,
        t.manual_tab_override ==> u.active_request_tab == t.active_request_tab,
        !t.manual_tab_override ==> (u.active_request_tab == RequestTab::Body <==> (m
            == HttpMethod::POST || m == HttpMethod::PUT || m == HttpMethod::PATCH || m
            == HttpMethod::DELETE)),
        !t.manual_tab_override ==> (u.active_request_tab == RequestTab::Params <==> (m
            == HttpMethod::GET || m == HttpMethod::HEAD || m == HttpMethod::OPTIONS)),
{
}

/// No two saved requests of the workspace share an id.
pub open spec fn request_ids_unique(cs: Seq<CollectionWithRequests>) -> bool {
    forall|i1: int, j1: int, i2: int, j2: int|
        0 <= i1 < cs.len() && 0 <= j1 < cs[i1].requests@.len() && 0 <= i2 < cs.len() && 0 <= j2
            < cs[i2].requests@.len() && (#[trigger] cs[i1].requests@[j1]).id@ == (
        #[trigger] cs[i2].requests@[j2]).id@ ==> i1 == i2 && j1 == j2
}

/// Opening the save dialog on the tab of a saved request proposes where
/// the request is stored: the collection that holds its record and the
/// folder that record is in (none when it sits at the collection's root).
pub proof fn lemma_save_dialog_proposes_stored_location(pre: Midway, post: Midway, i: int, j: int)
    requires
        save_prompt_opened(pre, post),
        has_active_tab(pre),
        request_ids_unique(pre.workspace.collections@),
        0 <= i < pre.workspace.collections@.len(),
        0 <= j < pre.workspace.collections@[i].requests@.len(),
        pre.tabs@[active_index(pre)].draft.id matches Some(rid)
            && pre.workspace.collections@[i].requests@[j].id@ == rid@,
    ensures
        post.save_request_prompt matches Some(p) && p.collection_id == Some(
            pre.workspace.collections@[i].collection.id,
        ) && p.folder_id == pre.workspace.collections@[i].requests@[j].folder_id,
{
    let cs = pre.workspace.collections@;
    let rid = pre.tabs@[active_index(pre)].draft.id->0;
    lemma_request_position(cs, rid@);
    match request_position(cs, rid@) {
        Some((i2, j2)) => {
            assert(cs[i2].requests@[j2].id@ == cs[i].requests@[j].id@);
        },
        None => {
            assert(crate::records::has_request(cs, rid@)) by {
                assert(cs[i].requests@[j].id@ == rid@);
            }
        },
    }
}

/// The end-of-run line counts the requests that completed: it is the same
/// for runs that differ only in how many requests they processed (or any
/// field other than the four counters it reports), and it differs between
/// runs whose completed counts differ.
pub proof fn lemma_finished_line_counts_completed_requests(
    e1: CollectionRunProgressEvent,
    e2: CollectionRunProgressEvent,
)
    requires
        e1.phase == CollectionRunPhase::Finished,
        e2.phase == CollectionRunPhase::Finished,
        e1.errored_requests == e2.errored_requests,
        e1.passed_assertions == e2.passed_assertions,
        e1.failed_assertions == e2.failed_assertions,
    ensures
        e1.completed_requests == e2.completed_requests ==> progress_label_spec(e1)
            == progress_label_spec(e2),
        e1.completed_requests != e2.completed_requests ==> progress_label_spec(e1)
            != progress_label_spec(e2),
{
    let prefix = "Ejecución finalizada: "@;
    let d1 = crate::text::decimal(e1.completed_requests as nat);
    let d2 = crate::text::decimal(e2.completed_requests as nat);
    let rest = " completado(s), "@ + crate::text::decimal(e1.errored_requests as nat)
        + " con error, "@ + crate::text::decimal(e1.passed_assertions as nat)
        + " assertion(s) que pasaron y "@ + crate::text::decimal(e1.failed_assertions as nat)
        + " que fallaron."@;
    let l1 = progress_label_spec(e1);
    let l2 = progress_label_spec(e2);
    assert(l1 =~= prefix + d1 + rest);
    assert(l2 =~= prefix + d2 + rest);
    if e1.completed_requests != e2.completed_requests && l1 == l2 {
        assert(d1.len() == d2.len());
        assert(d1 =~= l1.subrange(prefix.len() as int, (prefix.len() + d1.len()) as int));
        assert(d2 =~= l2.subrange(prefix.len() as int, (prefix.len() + d2.len()) as int));
        lemma_decimal_injective(e1.completed_requests as nat, e2.completed_requests as nat);
    }
}

proof fn lemma_counter_in_text_decides(a: Seq<char>, x: nat, y: nat, b: Seq<char>)
    requires
        x != y,
    ensures
        a + crate::text::decimal(x) + b != a + crate::text::decimal(y) + b,
{
    let dx = crate::text::decimal(x);
    let dy = crate::text::decimal(y);
    let l1 = a + dx + b;
    let l2 = a + dy + b;
    assert(l1.len() == a.len() + dx.len() + b.len());
    assert(l2.len() == a.len() + dy.len() + b.len());
    if l1 == l2 {
        assert(dx.len() == dy.len());
        assert(dx =~= l1.subrange(a.len() as int, (a.len() + dx.len()) as int));
        assert(dy =~= l2.subrange(a.len() as int, (a.len() + dy.len()) as int));
        lemma_decimal_injective(x, y);
    }
}

proof fn lemma_started_line(e1: CollectionRunProgressEvent, e2: CollectionRunProgressEvent)
    requires
        e1.phase == CollectionRunPhase::Started,
        e2.phase == CollectionRunPhase::Started,
        e1.total_requests != e2.total_requests,
    ensures
        progress_label_spec(e1) != progress_label_spec(e2),
{
    let l1 = progress_label_spec(e1);
    let l2 = progress_label_spec(e2);
    let dec = |n: u64| crate::text::decimal(n as nat);
    let a = "Ejecución iniciada: "@;
    let b = " request(s) por ejecutar."@;
    if e1.total_requests != e2.total_requests {
        assert(l1 == a + dec(e1.total_requests) + b);
        assert(l2 == a + dec(e2.total_requests) + b);
        lemma_counter_in_text_decides(a, e1.total_requests as nat, e2.total_requests as nat, b);
    }
}

#[verifier::spinoff_prover]
#[verifier::rlimit(50)]
proof fn lemma_request_line(e1: CollectionRunProgressEvent, e2: CollectionRunProgressEvent)
    requires
        e1.phase == e2.phase,
        e1.phase == CollectionRunPhase::RequestStarted || e1.phase == CollectionRunPhase::RequestFinished,
        e1.request_name == e2.request_name,
    ensures
        e1.processed_requests != e2.processed_requests && e1.total_requests == e2.total_requests
    ==> progress_label_spec(e1) != progress_label_spec(e2),
        e1.processed_requests == e2.processed_requests && e1.total_requests != e2.total_requests
    ==> progress_label_spec(e1) != progress_label_spec(e2),
{
    let l1 = progress_label_spec(e1);
    let l2 = progress_label_spec(e2);
    let dec = |n: u64| crate::text::decimal(n as nat);
    let head = match (e1.phase, e1.request_name) {
        (CollectionRunPhase::RequestStarted, Some(name)) => "Ejecutando \""@ + name@ + "\" ("@,
        (CollectionRunPhase::RequestStarted, None) => "Ejecutando request ("@,
        (_, Some(name)) => "Terminó \""@ + name@ + "\" ("@,
        (_, None) => "Terminó un request ("@,
    };
    let tail = ")."@;
    assert(l1 =~= head + (dec(e1.processed_requests) + " de "@ + dec(e1.total_requests)) + tail);
    assert(l2 =~= head + (dec(e2.processed_requests) + " de "@ + dec(e2.total_requests)) + tail);
    if e1.processed_requests != e2.processed_requests && e1.total_requests == e2.total_requests {
        let b = " de "@ + dec(e1.total_requests) + tail;
        assert(l1 =~= head + dec(e1.processed_requests) + b);
        assert(l2 =~= head + dec(e2.processed_requests) + b);
        lemma_counter_in_text_decides(
            head,
            e1.processed_requests as nat,
            e2.processed_requests as nat,
            b,
        );
    }
    if e1.processed_requests == e2.processed_requests && e1.total_requests != e2.total_requests {
        let a = head + dec(e1.processed_requests) + " de "@;
        assert(l1 =~= a + dec(e1.total_requests) + tail);
        assert(l2 =~= a + dec(e2.total_requests) + tail);
        lemma_counter_in_text_decides(a, e1.total_requests as nat, e2.total_requests as nat, tail);
    }
}

#[verifier::rlimit(30)]
proof fn lemma_finished_line(e1: CollectionRunProgressEvent, e2: CollectionRunProgressEvent)
    requires
        e1.phase == CollectionRunPhase::Finished,
        e2.phase == CollectionRunPhase::Finished,
    ensures
        e1.completed_requests != e2.completed_requests && e1.errored_requests == e2.errored_requests
    && e1.passed_assertions == e2.passed_assertions && e1.failed_assertions
    == e2.failed_assertions ==> progress_label_spec(e1) != progress_label_spec(e2),
        e1.completed_requests == e2.completed_requests && e1.errored_requests != e2.errored_requests
    && e1.passed_assertions == e2.passed_assertions && e1.failed_assertions
    == e2.failed_assertions ==> progress_label_spec(e1) != progress_label_spec(e2),
        e1.completed_requests == e2.completed_requests && e1.errored_requests == e2.errored_requests
    && e1.passed_assertions != e2.passed_assertions && e1.failed_assertions
    == e2.failed_assertions ==> progress_label_spec(e1) != progress_label_spec(e2),
        e1.completed_requests == e2.completed_requests && e1.errored_requests == e2.errored_requests
    && e1.passed_assertions == e2.passed_assertions && e1.failed_assertions
    != e2.failed_assertions ==> progress_label_spec(e1) != progress_label_spec(e2),
{
    let l1 = progress_label_spec(e1);
    let l2 = progress_label_spec(e2);
    let dec = |n: u64| crate::text::decimal(n as nat);
    let p0 = "Ejecución finalizada: "@;
    let m1 = " completado(s), "@;
    let m2 = " con error, "@;
    let m3 = " assertion(s) que pasaron y "@;
    let m4 = " que fallaron."@;
    let c1 = e1.completed_requests;
    let c2 = e2.completed_requests;
    let r1 = e1.errored_requests;
    let r2 = e2.errored_requests;
    let s1 = e1.passed_assertions;
    let s2 = e2.passed_assertions;
    let f1 = e1.failed_assertions;
    let f2 = e2.failed_assertions;
    assert(l1 == p0 + dec(c1) + m1 + dec(r1) + m2 + dec(s1) + m3 + dec(f1) + m4);
    assert(l2 == p0 + dec(c2) + m1 + dec(r2) + m2 + dec(s2) + m3 + dec(f2) + m4);
    if c1 != c2 && r1 == r2 && s1 == s2 && f1 == f2 {
        let b = m1 + dec(r1) + m2 + dec(s1) + m3 + dec(f1) + m4;
        assert(l1 =~= p0 + dec(c1) + b);
        assert(l2 =~= p0 + dec(c2) + b);
        lemma_counter_in_text_decides(p0, c1 as nat, c2 as nat, b);
    }
    if c1 == c2 && r1 != r2 && s1 == s2 && f1 == f2 {
        let a = p0 + dec(c1) + m1;
        let b = m2 + dec(s1) + m3 + dec(f1) + m4;
        assert(l1 =~= a + dec(r1) + b);
        assert(l2 =~= a + dec(r2) + b);
        lemma_counter_in_text_decides(a, r1 as nat, r2 as nat, b);
    }
    if c1 == c2 && r1 == r2 && s1 != s2 && f1 == f2 {
        let a = p0 + dec(c1) + m1 + dec(r1) + m2;
        let b = m3 + dec(f1) + m4;
        assert(l1 =~= a + dec(s1) + b);
        assert(l2 =~= a + dec(s2) + b);
        lemma_counter_in_text_decides(a, s1 as nat, s2 as nat, b);
    }
    if c1 == c2 && r1 == r2 && s1 == s2 && f1 != f2 {
        let a = p0 + dec(c1) + m1 + dec(r1) + m2 + dec(s1) + m3;
        assert(l1 =~= a + dec(f1) + m4);
        assert(l2 =~= a + dec(f2) + m4);
        lemma_counter_in_text_decides(a, f1 as nat, f2 as nat, m4);
    }
}

/// Every progress line shows the counters of its phase and nothing else
/// of the event's numbers: two events of one phase (and one request name)
/// get the same line when those counters agree, and different lines when
/// exactly one of them differs. The start shows the number of requests;
/// a request starting or finishing shows how many were processed out of
/// how many; the end shows the completed, errored, passed and failed
/// counts.
pub proof fn lemma_progress_line_reports_its_counters(
    e1: CollectionRunProgressEvent,
    e2: CollectionRunProgressEvent,
)
    requires
        e1.phase == e2.phase,
        e1.request_name == e2.request_name,
    ensures
        e1.phase == CollectionRunPhase::Started ==> (progress_label_spec(e1) == progress_label_spec(e2)
            <==> e1.total_requests == e2.total_requests),
        (e1.phase == CollectionRunPhase::RequestStarted || e1.phase
            == CollectionRunPhase::RequestFinished) ==> {
            &&& e1.processed_requests == e2.processed_requests && e1.total_requests
                == e2.total_requests ==> progress_label_spec(e1) == progress_label_spec(e2)
            &&& e1.processed_requests != e2.processed_requests && e1.total_requests
                == e2.total_requests ==> progress_label_spec(e1) != progress_label_spec(e2)
            &&& e1.processed_requests == e2.processed_requests && e1.total_requests
                != e2.total_requests ==> progress_label_spec(e1) != progress_label_spec(e2)
        },
        e1.phase == CollectionRunPhase::Finished ==> {
            let same_completed = e1.completed_requests == e2.completed_requests;
            let same_errored = e1.errored_requests == e2.errored_requests;
            let same_passed = e1.passed_assertions == e2.passed_assertions;
            let same_failed = e1.failed_assertions == e2.failed_assertions;
            &&& same_completed && same_errored && same_passed && same_failed ==> progress_label_spec(
                e1,
            ) == progress_label_spec(e2)
            &&& !same_completed && same_errored && same_passed && same_failed
                ==> progress_label_spec(e1) != progress_label_spec(e2)
            &&& same_completed && !same_errored && same_passed && same_failed
                ==> progress_label_spec(e1) != progress_label_spec(e2)
            &&& same_completed && same_errored && !same_passed && same_failed
                ==> progress_label_spec(e1) != progress_label_spec(e2)
            &&& same_completed && same_errored && same_passed && !same_failed
                ==> progress_label_spec(e1) != progress_label_spec(e2)
        },
{
    if e1.phase == CollectionRunPhase::Started && e1.total_requests != e2.total_requests {
        lemma_started_line(e1, e2);
    }
    if e1.phase == CollectionRunPhase::RequestStarted || e1.phase == CollectionRunPhase::RequestFinished {
        lemma_request_line(e1, e2);
    }
    if e1.phase == CollectionRunPhase::Finished {
        lemma_finished_line(e1, e2);
    }
}

proof fn lemma_trim_start_blank(s: Seq<char>)
    ensures
        trim_start(s).len() == 0 <==> forall|i: int| 0 <= i < s.len() ==> is_whitespace_char(#[trigger] s[i]),
        trim_start(s).len() > 0 ==> !is_whitespace_char(trim_start(s)[0]),
    decreases s.len(),
{
    if s.len() > 0 && is_whitespace_char(s[0]) {
        lemma_trim_start_blank(s.drop_first());
        if trim_start(s).len() == 0 {
            assert forall|i: int| 0 <= i < s.len() implies is_whitespace_char(#[trigger] s[i]) by {
                if i > 0 {
                    assert(s[i] == s.drop_first()[i - 1]);
                }
            }
        } else {
            let k = choose|k: int| 0 <= k < s.drop_first().len() && !is_whitespace_char(s.drop_first()[k]);
            assert(s[k + 1] == s.drop_first()[k]);
        }
    } else if s.len() > 0 {
        assert(!is_whitespace_char(s[0]));
    }
}

proof fn lemma_trim_end_keeps_nonblank(t: Seq<char>)
    requires
        t.len() > 0,
        !is_whitespace_char(t[0]),
    ensures
        trim_end(t).len() > 0,
    decreases t.len(),
{
    if is_whitespace_char(t.last()) {
        assert(t.len() > 1);
        lemma_trim_end_keeps_nonblank(t.drop_last());
    }
}

/// A URL is blank (what `str::trim` empties) exactly when every character
/// of it is whitespace.
proof fn lemma_blank_iff_all_whitespace(s: Seq<char>)
    ensures
        is_blank(s) <==> forall|i: int| 0 <= i < s.len() ==> is_whitespace_char(#[trigger] s[i]),
{
    lemma_trim_start_blank(s);
    if trim_start(s).len() > 0 {
        lemma_trim_end_keeps_nonblank(trim_start(s));
    }
}

/// A tab that was never saved has unsaved changes exactly when its draft
/// holds something: a method other than GET, a URL that is not all
/// whitespace, a query parameter, a header, an auth, or a body.
pub proof fn lemma_unsaved_tab_dirty_iff_not_empty(t: RequestTabState)
    requires
        t.saved_draft is None,
    ensures
        tab_dirty_spec(t) <==> !{
            &&& t.draft.method == HttpMethod::GET
            &&& forall|i: int| 0 <= i < t.draft.url@.len() ==> is_whitespace_char(#[trigger] t.draft.url@[i])
            &&& t.draft.query@.len() == 0
            &&& t.draft.headers@.len() == 0
            &&& t.draft.auth is NoAuth
            &&& t.draft.body.mode == BodyMode::NoBody
        },
{
    lemma_blank_iff_all_whitespace(t.draft.url@);
}

/// Opening the save dialog on a tab whose request the workspace does not
/// hold proposes no folder and, for the collection, the active collection
/// when the workspace has it, else the first collection, else none.
pub proof fn lemma_save_dialog_proposes_active_or_first_collection(pre: Midway, post: Midway)
    requires
        save_prompt_opened(pre, post),
        has_active_tab(pre),
        ({
            let cs = pre.workspace.collections@;
            pre.tabs@[active_index(pre)].draft.id matches Some(rid) ==> forall|i: int, j: int|
                0 <= i < cs.len() && 0 <= j < cs[i].requests@.len() ==> (
                #[trigger] cs[i].requests@[j]).id@ != rid@
        }),
    ensures
        ({
            let cs = pre.workspace.collections@;
            post.save_request_prompt matches Some(p) && p.folder_id is None && p.collection_id == if (
            pre.active_collection_id matches Some(a) && exists|k: int|
                0 <= k < cs.len() && (#[trigger] cs[k]).collection.id@ == a@) {
                pre.active_collection_id
            } else if cs.len() > 0 {
                Some(cs[0].collection.id)
            } else {
                None
            }
        }),
{
    let cs = pre.workspace.collections@;
    if let Some(rid) = pre.tabs@[active_index(pre)].draft.id {
        lemma_request_position(cs, rid@);
        if let Some((i, j)) = request_position(cs, rid@) {
            assert(cs[i].requests@[j].id@ == rid@);
        }
    }
}

} // verus!
