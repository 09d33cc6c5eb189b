//! The global keyboard shortcuts.

use vstd::prelude::*;
use crate::composer::{active_index, handle_settings_pressed, has_active_tab, settings_pressed_spec};
use crate::effects::Effect;
use crate::palette::{PaletteMessage, palette_spec, update_palette};
use crate::saving::{open_save_request_prompt, save_prompt_opened};
use crate::state::{
    MainContentFocus, Midway, RequestTabState, SessionStoreState, TopBarMode,
    is_fresh_tab,
};
use crate::tabs::{close_request_spec, close_tab_or_prompt_unsaved_changes};

verus! {

#[derive(Debug)]
pub enum KeyboardMessage {
    /// Ctrl+S: the save dialog.
    SaveRequested,
    /// Ctrl+Shift+N: a new blank tab.
    NewBlankTabRequested,
    /// Ctrl+W: close the active tab.
    CloseActiveTabShortcut,
    /// Alt+1..9: go to the tab at `index`.
    GoToTabShortcut { index: usize },
    /// Esc: close the palette, else the active tab's preview.
    EscapePressed,
}

/// Esc closes one thing: the command palette when it is open (leaving the
/// preview as it is); otherwise the active tab's preview when it is open;
/// otherwise nothing happens.
pub open spec fn escape_spec(pre: Midway, post: Midway, eff: Effect) -> bool {
    if pre.palette.is_open {
        eff is Nothing && palette_spec(pre, post, PaletteMessage::Dismissed)
    } else if has_active_tab(pre) && pre.tabs@[active_index(pre)].preview is Some {
        settings_pressed_spec(pre, post, eff)
    } else {
        eff is Nothing && post == pre
    }
}

/// What each shortcut does.
pub open spec fn keyboard_spec(pre: Midway, post: Midway, msg: KeyboardMessage, eff: Effect) -> bool {
    match msg {
        KeyboardMessage::SaveRequested => eff is Nothing && save_prompt_opened(pre, post),
        KeyboardMessage::NewBlankTabRequested => {
            &&& eff is Nothing
            &&& post.tabs@.len() == pre.tabs@.len() + 1
            &&& post.tabs@.subrange(0, pre.tabs@.len() as int) == pre.tabs@
            &&& crate::model::is_blank_draft(post.tabs@.last().draft@)
            &&& is_fresh_tab(post.tabs@.last())
            &&& post.active_tab == Some(pre.tabs@.len() as usize)
            &&& post == Midway {
                tabs: post.tabs,
                active_tab: post.active_tab,
                main_content_focus: MainContentFocus::RequestTab,
                top_bar_mode: TopBarMode::Debug,
                session: SessionStoreState { dirty: true, ..pre.session },
                ..pre
            }
        },
        KeyboardMessage::CloseActiveTabShortcut => eff is Nothing && if has_active_tab(pre) {
            close_request_spec(pre, post, pre.tabs@[active_index(pre)].id)
        } else {
            post == pre
        },
        KeyboardMessage::GoToTabShortcut { index } => eff is Nothing && if index
            < pre.tabs@.len() {
            post == Midway { active_tab: Some(index), ..pre }
        } else {
            post == pre
        },
        KeyboardMessage::EscapePressed => escape_spec(pre, post, eff),
    }
}

pub fn update_keyboard(state: &mut Midway, message: KeyboardMessage) -> (eff: Effect)
    ensures
        keyboard_spec(*old(state), *final(state), message, eff),
{
    match message {
        KeyboardMessage::SaveRequested => {
            open_save_request_prompt(state);
            Effect::Nothing
        },
        KeyboardMessage::NewBlankTabRequested => {
            let ghost pre_tabs = state.tabs@;
            state.tabs.push(RequestTabState::blank());
            assert(state.tabs@.subrange(0, pre_tabs.len() as int) =~= pre_tabs);
            state.active_tab = Some(state.tabs.len() - 1);
            state.main_content_focus = MainContentFocus::RequestTab;
            state.top_bar_mode = TopBarMode::Debug;
            state.session.dirty = true;
            Effect::Nothing
        },
        KeyboardMessage::CloseActiveTabShortcut => {
            let Some(a) = state.active_tab else {
                return Effect::Nothing;
            };
            if a >= state.tabs.len() {
                return Effect::Nothing;
            }
            let tab_id = state.tabs[a].id.clone();
            close_tab_or_prompt_unsaved_changes(state, tab_id);
            Effect::Nothing
        },
        KeyboardMessage::GoToTabShortcut { index } => {
            if index < state.tabs.len() {
                state.active_tab = Some(index);
            }
            Effect::Nothing
        },
        KeyboardMessage::EscapePressed => {
            if state.palette.is_open {
                update_palette(state, PaletteMessage::Dismissed);
                return Effect::Nothing;
            }
            let preview_open = match state.active_tab {
                Some(a) => a < state.tabs.len() && state.tabs[a].preview.is_some(),
                None => false,
            };
            if preview_open {
                return handle_settings_pressed(state);
            }
            Effect::Nothing
        },
    }
}

} // verus!
