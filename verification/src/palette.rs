//! The command palette: the items it lists and what selecting one does.

use vstd::prelude::*;
use crate::model::{method_name_spec, opt_view};
use crate::records::{CollectionWithRequests, SavedRequestRecord, find_request, request_position};
use crate::state::{
    MainContentFocus, Midway, PaletteState, RequestTabState, WorkspacePanelSection,
    WorkspacePanelState, ExportFormState, is_fresh_tab,
};
use crate::text::{decimal, decimal_string, owned, push_str, strip_prefix};

verus! {

/// An entry of the command palette.
#[derive(Debug)]
pub struct CommandPaletteItem {
    pub id: String,
    pub title: String,
    pub subtitle: Option<String>,
    pub keywords: Vec<String>,
    pub section: String,
}

pub struct PaletteItemView {
    pub id: Seq<char>,
    pub title: Seq<char>,
    pub subtitle: Option<Seq<char>>,
    pub keywords: Seq<Seq<char>>,
    pub section: Seq<char>,
}

impl View for CommandPaletteItem {
    type V = PaletteItemView;

    open spec fn view(&self) -> PaletteItemView {
        PaletteItemView {
            id: self.id@,
            title: self.title@,
            subtitle: opt_view(self.subtitle),
            keywords: self.keywords@.map_values(|k: String| k@),
            section: self.section@,
        }
    }
}

/// The fixed action that opens a blank tab.
pub open spec fn new_request_item() -> PaletteItemView {
    PaletteItemView {
        id: "action:new-request"@,
        title: "Nuevo request"@,
        subtitle: Some("Abrir una pestaña en blanco"@),
        keywords: seq!["new"@, "request"@, "nuevo"@],
        section: "Acción"@,
    }
}

/// The item of a collection.
pub open spec fn collection_item(c: CollectionWithRequests) -> PaletteItemView {
    PaletteItemView {
        id: "collection:"@ + c.collection.id@,
        title: c.collection.name@,
        subtitle: Some(decimal(c.requests@.len()) + " request(s)"@),
        keywords: seq!["collection"@, "colección"@, c.collection.name@],
        section: "Colección"@,
    }
}

/// The item of a saved request of a collection.
pub open spec fn request_item(c: CollectionWithRequests, r: SavedRequestRecord) -> PaletteItemView {
    PaletteItemView {
        id: "request:"@ + r.id@,
        title: r.name@,
        subtitle: Some(method_name_spec(r.draft.method) + " "@ + r.draft.url@),
        keywords: seq![
            method_name_spec(r.draft.method),
            r.name@,
            r.draft.url@,
            c.collection.name@,
        ],
        section: "Request"@,
    }
}

/// The items of a collection: its own, then one per saved request.
pub open spec fn collection_items(c: CollectionWithRequests) -> Seq<PaletteItemView> {
    seq![collection_item(c)] + c.requests@.map_values(|r: SavedRequestRecord| request_item(c, r))
}

/// The items of a list of collections, in order.
pub open spec fn collections_items(cs: Seq<CollectionWithRequests>) -> Seq<PaletteItemView>
    decreases cs.len(),
{
    if cs.len() == 0 {
        Seq::empty()
    } else {
        collections_items(cs.drop_last()) + collection_items(cs.last())
    }
}

/// Everything the palette lists: the "new request" action, then each
/// collection followed by its saved requests.
pub open spec fn palette_items_spec(cs: Seq<CollectionWithRequests>) -> Seq<PaletteItemView> {
    seq![new_request_item()] + collections_items(cs)
}

pub open spec fn item_views(items: Seq<CommandPaletteItem>) -> Seq<PaletteItemView> {
    items.map_values(|i: CommandPaletteItem| i@)
}

fn text_list(a: &str, b: &str, c: &str) -> (r: Vec<String>)
    ensures
        r@.map_values(|k: String| k@) == seq![a@, b@, c@],
{
    let mut v: Vec<String> = Vec::new();
    v.push(owned(a));
    v.push(owned(b));
    v.push(owned(c));
    assert(v@.map_values(|k: String| k@) =~= seq![a@, b@, c@]);
    v
}

fn new_request_entry() -> (r: CommandPaletteItem)
    ensures
        r@ == new_request_item(),
{
    let keywords = text_list("new", "request", "nuevo");
    CommandPaletteItem {
        id: owned("action:new-request"),
        title: owned("Nuevo request"),
        subtitle: Some(owned("Abrir una pestaña en blanco")),
        keywords,
        section: owned("Acción"),
    }
}

fn collection_entry(c: &CollectionWithRequests) -> (r: CommandPaletteItem)
    ensures
        r@ == collection_item(*c),
{
    let mut id = owned("collection:");
    push_str(&mut id, c.collection.id.as_str());
    let mut subtitle = decimal_string(c.requests.len() as u64);
    push_str(&mut subtitle, " request(s)");
    let keywords = text_list("collection", "colección", c.collection.name.as_str());
    CommandPaletteItem {
        id,
        title: c.collection.name.clone(),
        subtitle: Some(subtitle),
        keywords,
        section: owned("Colección"),
    }
}

fn request_entry(c: &CollectionWithRequests, r: &SavedRequestRecord) -> (item: CommandPaletteItem)
    ensures
        item@ == request_item(*c, *r),
{
    let mut id = owned("request:");
    push_str(&mut id, r.id.as_str());
    let method = r.draft.method.name();
    let mut subtitle = owned(method);
    push_str(&mut subtitle, " ");
    push_str(&mut subtitle, r.draft.url.as_str());
    let mut keywords: Vec<String> = Vec::new();
    keywords.push(owned(method));
    keywords.push(r.name.clone());
    keywords.push(r.draft.url.clone());
    keywords.push(c.collection.name.clone());
    assert(keywords@.map_values(|k: String| k@) =~= seq![
        method_name_spec(r.draft.method),
        r.name@,
        r.draft.url@,
        c.collection.name@,
    ]);
    CommandPaletteItem {
        id,
        title: r.name.clone(),
        subtitle: Some(subtitle),
        keywords,
        section: owned("Request"),
    }
}

/// The items the palette lists for the current workspace.
pub fn build_palette_items(state: &Midway) -> (r: Vec<CommandPaletteItem>)
    ensures
        item_views(r@) == palette_items_spec(state.workspace.collections@),
{
    let cs = &state.workspace.collections;
    let mut items: Vec<CommandPaletteItem> = Vec::new();
    items.push(new_request_entry());
    assert(item_views(items@) =~= seq![new_request_item()] + collections_items(
        cs@.subrange(0, 0),
    ));
    let mut i: usize = 0;
    while i < cs.len()
        invariant
            i <= cs@.len(),
            item_views(items@) == seq![new_request_item()] + collections_items(
                cs@.subrange(0, i as int),
            ),
        decreases cs@.len() - i,
    {
        let c = &cs[i];
        let ghost before = item_views(items@);
        items.push(collection_entry(c));
        let mut j: usize = 0;
        while j < c.requests.len()
            invariant
                j <= c.requests@.len(),
                c == cs@[i as int],
                item_views(items@) == before + seq![collection_item(*c)]
                    + c.requests@.subrange(0, j as int).map_values(
                    |r: SavedRequestRecord| request_item(*c, r),
                ),
            decreases c.requests@.len() - j,
        {
            let ghost mid = item_views(items@);
            items.push(request_entry(c, &c.requests[j]));
            j = j + 1;
            assert(c.requests@.subrange(0, j as int).map_values(
                |r: SavedRequestRecord| request_item(*c, r),
            ) =~= c.requests@.subrange(0, j - 1).map_values(
                |r: SavedRequestRecord| request_item(*c, r),
            ).push(request_item(*c, c.requests@[j - 1])));
            assert(item_views(items@) =~= mid.push(request_item(*c, c.requests@[j - 1])));
        }
        assert(c.requests@.subrange(0, c.requests@.len() as int) =~= c.requests@);
        let ghost sub = cs@.subrange(0, i + 1);
        assert(sub.drop_last() =~= cs@.subrange(0, i as int));
        assert(sub.last() == *c);
        i = i + 1;
    }
    assert(cs@.subrange(0, cs@.len() as int) =~= cs@);
    items
}

} // verus!

verus! {

/// The tab has been saved as the request with the id `id`.
pub open spec fn tab_saved_as(id: Seq<char>) -> spec_fn(RequestTabState) -> bool {
    |t: RequestTabState|
        match t.saved_draft {
            Some(d) => opt_view(d.id) == Some(id),
            None => false,
        }
}

/// Opening the saved request with the id `id`: a tab already saved as it
/// becomes active; otherwise, if the request exists, a new active tab
/// under a fresh identifier holds its draft and remembers it as saved,
/// with nothing sent, previewed or failed yet.
pub open spec fn open_saved_spec(pre: Midway, post: Midway, id: Seq<char>) -> bool {
    match crate::seqs::first_index(pre.tabs@, tab_saved_as(id)) {
        Some(i) => post == Midway { active_tab: Some(i as usize), ..pre },
        None => match request_position(pre.workspace.collections@, id) {
            None => post == pre,
            Some((c, j)) => {
                let saved = pre.workspace.collections@[c].requests@[j].draft;
                &&& post.tabs@.len() == pre.tabs@.len() + 1
                &&& post.tabs@.subrange(0, pre.tabs@.len() as int) == pre.tabs@
                &&& post.tabs@.last().draft@ == saved@
                &&& post.tabs@.last().saved_draft matches Some(d) && d@ == saved@
                &&& crate::state::is_fresh_tab(
                    RequestTabState { saved_draft: None, ..post.tabs@.last() },
                )
                &&& crate::external::is_uuid_v4_text(post.tabs@.last().id@)
                &&& post.tabs@.last().active_request_tab == crate::state::RequestTab::Params
                &&& post.active_tab == Some(pre.tabs@.len() as usize)
                &&& post == Midway { tabs: post.tabs, active_tab: post.active_tab, ..pre }
            },
        },
    }
}

pub fn open_saved_request_in_tab(state: &mut Midway, request_id: &str)
    ensures
        open_saved_spec(*old(state), *final(state), request_id@),
{
    let mut i: usize = 0;
    while i < state.tabs.len()
        invariant
            *state == *old(state),
            i <= state.tabs@.len(),
            forall|k: int| 0 <= k < i ==> !(tab_saved_as(request_id@))(state.tabs@[k]),
        decreases state.tabs@.len() - i,
    {
        let saved = match &state.tabs[i].saved_draft {
            Some(d) => match &d.id {
                Some(id) => crate::text::same_text(id.as_str(), request_id),
                None => false,
            },
            None => false,
        };
        if saved {
            proof {
                crate::seqs::lemma_first_index_at(state.tabs@, tab_saved_as(request_id@), i as int);
            }
            state.active_tab = Some(i);
            return ;
        }
        i = i + 1;
    }
    proof {
        crate::seqs::lemma_first_index_none(state.tabs@, tab_saved_as(request_id@));
        crate::records::lemma_request_position(state.workspace.collections@, request_id@);
    }
    let Some((c, j)) = find_request(&state.workspace.collections, request_id) else {
        return ;
    };
    let draft = state.workspace.collections[c].requests[j].draft.clone();
    let copy = draft.clone();
    let mut tab = RequestTabState::from_draft(copy);
    tab.saved_draft = Some(draft);
    let ghost pre_tabs = state.tabs@;
    state.tabs.push(tab);
    assert(state.tabs@.subrange(0, pre_tabs.len() as int) =~= pre_tabs);
    state.active_tab = Some(state.tabs.len() - 1);
}

/// What selecting a palette item does: the "new request" action opens a
/// blank active tab; a collection opens the Data section with its id in
/// the export form; a saved request opens in a tab; anything else does
/// nothing.
pub open spec fn execute_palette_spec(pre: Midway, post: Midway, item_id: Seq<char>) -> bool {
    let cp = "collection:"@;
    let rp = "request:"@;
    if item_id == "action:new-request"@ {
        &&& post.tabs@.len() == pre.tabs@.len() + 1
        &&& post.tabs@.subrange(0, pre.tabs@.len() as int) == pre.tabs@
        &&& crate::model::is_blank_draft(post.tabs@.last().draft@)
        &&& is_fresh_tab(post.tabs@.last())
        &&& post.active_tab == Some(pre.tabs@.len() as usize)
        &&& post == Midway { tabs: post.tabs, active_tab: post.active_tab, ..pre }
    } else if cp.len() <= item_id.len() && item_id.subrange(0, cp.len() as int) == cp {
        &&& post.workspace_panel.export_form.collection_id_input@ == item_id.subrange(
            cp.len() as int,
            item_id.len() as int,
        )
        &&& post == Midway {
            workspace_panel: WorkspacePanelState {
                collapsed: false,
                active_section: WorkspacePanelSection::Data,
                export_form: ExportFormState {
                    collection_id_input: post.workspace_panel.export_form.collection_id_input,
                    ..pre.workspace_panel.export_form
                },
                ..pre.workspace_panel
            },
            ..pre
        }
    } else if rp.len() <= item_id.len() && item_id.subrange(0, rp.len() as int) == rp {
        open_saved_spec(pre, post, item_id.subrange(rp.len() as int, item_id.len() as int))
    } else {
        post == pre
    }
}

pub fn execute_palette_item(state: &mut Midway, item_id: &str)
    ensures
        execute_palette_spec(*old(state), *final(state), item_id@),
{
    if crate::text::same_text(item_id, "action:new-request") {
        let ghost pre_tabs = state.tabs@;
        state.tabs.push(RequestTabState::blank());
        assert(state.tabs@.subrange(0, pre_tabs.len() as int) =~= pre_tabs);
        state.active_tab = Some(state.tabs.len() - 1);
        return ;
    }
    if let Some(collection_id) = strip_prefix(item_id, "collection:") {
        state.workspace_panel.collapsed = false;
        state.workspace_panel.active_section = WorkspacePanelSection::Data;
        state.workspace_panel.export_form.collection_id_input = collection_id;
        return ;
    }
    if let Some(request_id) = strip_prefix(item_id, "request:") {
        open_saved_request_in_tab(state, request_id.as_str());
    }
}

#[derive(Debug)]
pub enum PaletteMessage {
    Toggled,
    QueryChanged(String),
    ItemSelected { item_id: String },
    Dismissed,
}

/// `post` is `pre` with the palette `open` or not, with an empty query.
pub open spec fn palette_set(pre: Midway, post: Midway, open: bool) -> bool {
    post.palette.is_open == open && post.palette.query@.len() == 0 && post == Midway {
        palette: post.palette,
        ..pre
    }
}

/// The palette: Ctrl+K toggles it with an empty query; selecting an item
/// runs it and closes the palette; dismissing closes it.
pub open spec fn palette_spec(pre: Midway, post: Midway, msg: PaletteMessage) -> bool {
    match msg {
        PaletteMessage::Toggled => palette_set(pre, post, !pre.palette.is_open),
        PaletteMessage::QueryChanged(q) => post == Midway {
            palette: PaletteState { query: q, ..pre.palette },
            ..pre
        },
        PaletteMessage::ItemSelected { item_id } => {
            &&& post.palette.is_open == false
            &&& post.palette.query@.len() == 0
            &&& execute_palette_spec(pre, Midway { palette: pre.palette, ..post }, item_id@)
        },
        PaletteMessage::Dismissed => palette_set(pre, post, false),
    }
}

pub fn update_palette(state: &mut Midway, message: PaletteMessage)
    ensures
        palette_spec(*old(state), *final(state), message),
{
    match message {
        PaletteMessage::Toggled => {
            state.palette.is_open = !state.palette.is_open;
            state.palette.query = String::new();
        },
        PaletteMessage::QueryChanged(query) => {
            state.palette.query = query;
        },
        PaletteMessage::ItemSelected { item_id } => {
            execute_palette_item(state, item_id.as_str());
            state.palette.is_open = false;
            state.palette.query = String::new();
        },
        PaletteMessage::Dismissed => {
            state.palette.is_open = false;
            state.palette.query = String::new();
        },
    }
}

} // verus!
