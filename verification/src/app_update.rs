//! The top-level message of the application and its reducer, and the text
//! of a caught panic.

use vstd::prelude::*;
use crate::composer::{active_index, has_active_tab, only_tab_changed};
use crate::composer_update::{RequestComposerMessage, composer_spec, update_request_composer};
use crate::crud::{WorkspaceCrudMessage, crud_spec, update_workspace_crud};
use crate::effects::Effect;
use crate::keyboard::{KeyboardMessage, keyboard_spec, update_keyboard};
use crate::navigation::{
    ActivityBarMessage, TopBarMessage, activity_bar_spec, top_bar_spec, update_activity_bar,
    update_top_bar,
};
use crate::palette::{PaletteMessage, palette_spec, update_palette};
use crate::runner::{RunnerMessage, runner_spec, update_runner};
use crate::session::{SessionMessage, ThemeMessage, other_theme, session_spec, update_session, update_theme};
use crate::state::{Midway, RequestTabState, ResponseInspectorTab, SessionStoreState};
use crate::workspace_panel::{WorkspaceMessage, update_workspace, workspace_spec};

verus! {

#[derive(Debug)]
pub enum ResponseInspectorMessage {
    TabSelected(ResponseInspectorTab),
}

/// Selecting a tab of the response inspector for the active request tab.
pub open spec fn inspector_spec(pre: Midway, post: Midway, msg: ResponseInspectorMessage) -> bool {
    match msg {
        ResponseInspectorMessage::TabSelected(tab) => if has_active_tab(pre) {
            let a = active_index(pre);
            only_tab_changed(pre, post, a) && post.tabs@[a] == RequestTabState {
                response_tab: tab,
                ..pre.tabs@[a]
            }
        } else {
            post == pre
        },
    }
}

pub fn update_response_inspector(state: &mut Midway, message: ResponseInspectorMessage)
    ensures
        inspector_spec(*old(state), *final(state), message),
{
    let Some(a) = state.active_tab else {
        return ;
    };
    if a >= state.tabs.len() {
        return ;
    }
    match message {
        ResponseInspectorMessage::TabSelected(tab) => {
            state.tabs[a].response_tab = tab;
        },
    }
}

/// The in-app updater sends no message of its own yet; this variant only
/// gives the area its slot in `Message`.
#[derive(Debug)]
pub enum UpdaterMessage {
    Placeholder,
}

/// A message of the application, by area.
#[derive(Debug)]
pub enum Message {
    RequestComposer(RequestComposerMessage),
    ResponseInspector(ResponseInspectorMessage),
    Workspace(WorkspaceMessage),
    Runner(RunnerMessage),
    Palette(PaletteMessage),
    Theme(ThemeMessage),
    Session(SessionMessage),
    Updater(UpdaterMessage),
    Keyboard(KeyboardMessage),
    ActivityBar(ActivityBarMessage),
    WorkspaceCrud(WorkspaceCrudMessage),
    TopBar(TopBarMessage),
    Tick,
}

/// What the application does with each message: it hands it to its area.
pub open spec fn update_spec(pre: Midway, post: Midway, msg: Message, eff: Effect) -> bool {
    match msg {
        Message::RequestComposer(m) => composer_spec(pre, post, m, eff),
        Message::ResponseInspector(m) => eff is Nothing && inspector_spec(pre, post, m),
        Message::Workspace(m) => workspace_spec(pre, post, m, eff),
        Message::Runner(m) => runner_spec(pre, post, m, eff),
        Message::Palette(m) => eff is Nothing && palette_spec(pre, post, m),
        Message::Theme(_) => eff is Nothing && post == Midway {
            theme_mode: other_theme(pre.theme_mode),
            session: SessionStoreState { dirty: true, ..pre.session },
            ..pre
        },
        Message::Session(m) => session_spec(pre, post, m, eff),
        Message::Updater(_) => eff is Nothing && post == pre,
        Message::Keyboard(m) => keyboard_spec(pre, post, m, eff),
        Message::ActivityBar(m) => activity_bar_spec(pre, post, m, eff),
        Message::WorkspaceCrud(m) => crud_spec(pre, post, m, eff),
        Message::TopBar(m) => eff is Nothing && top_bar_spec(pre, post, m),
        Message::Tick => eff is Nothing && post == pre,
    }
}

pub fn update(state: &mut Midway, message: Message) -> (eff: Effect)
    ensures
        update_spec(*old(state), *final(state), message, eff),
{
    match message {
        Message::RequestComposer(m) => update_request_composer(state, m),
        Message::ResponseInspector(m) => {
            update_response_inspector(state, m);
            Effect::Nothing
        },
        Message::Workspace(m) => update_workspace(state, m),
        Message::Runner(m) => update_runner(state, m),
        Message::Palette(m) => {
            update_palette(state, m);
            Effect::Nothing
        },
        Message::Theme(m) => {
            update_theme(state, m);
            Effect::Nothing
        },
        Message::Session(m) => update_session(state, m),
        Message::Updater(_) => Effect::Nothing,
        Message::Keyboard(m) => update_keyboard(state, m),
        Message::ActivityBar(m) => update_activity_bar(state, m),
        Message::WorkspaceCrud(m) => update_workspace_crud(state, m),
        Message::TopBar(m) => {
            update_top_bar(state, m);
            Effect::Nothing
        },
        Message::Tick => Effect::Nothing,
    }
}

/// What a caught panic carried.
#[derive(Debug)]
pub enum PanicPayload {
    /// A `&'static str`, as `panic!("literal")` leaves.
    StaticText(String),
    /// A `String`, as a formatted `panic!` or `expect` leaves.
    OwnedText(String),
    /// Anything else.
    Opaque,
}

/// The text of a panic: its message when it carried text, a generic notice
/// otherwise.
pub open spec fn panic_message_spec(payload: PanicPayload) -> Seq<char> {
    match payload {
        PanicPayload::StaticText(s) => s@,
        PanicPayload::OwnedText(s) => s@,
        PanicPayload::Opaque => "panic con payload no textual"@,
    }
}

pub fn panic_payload_message(payload: PanicPayload) -> (r: String)
    ensures
        r@ == panic_message_spec(payload),
{
    match payload {
        PanicPayload::StaticText(message) => message,
        PanicPayload::OwnedText(message) => message,
        PanicPayload::Opaque => crate::text::owned("panic con payload no textual"),
    }
}

} // verus!
