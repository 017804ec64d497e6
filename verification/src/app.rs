//! The application state: the snapshot, the selection over it, the running
//! flag, and the dispatcher that turns input events into state changes.

use vstd::prelude::*;
use crate::input::{action_of_key, classify_key, AppAction, InputEvent, KeyEventKind, KeyPress};
use crate::selection::{
    nav_apply, nav_clear, nav_first, nav_last, nav_next, nav_previous, sel_wf, NavCommand,
    SelectionState,
};
use crate::snapshot::Environment;

verus! {

/// The snapshot together with the selection over it.
pub struct EnvList {
    pub items: Vec<Environment>,
    pub state: SelectionState,
}

impl EnvList {
    /// Takes the snapshot; nothing is selected to begin with.
    pub fn new(items: Vec<Environment>) -> (l: EnvList)
        ensures
            l.items == items,
            l.state.selected is None,
            l.wf(),
    {
        EnvList { items, state: SelectionState::new() }
    }

    /// The selection, if any, is an index into the snapshot.
    pub open spec fn wf(self) -> bool {
        sel_wf(self.state.selected, self.items.len())
    }
}

/// The whole application state: a two-state machine (running, stopped) over
/// the snapshot and its selection. Stopping is final: no event starts a
/// stopped application again.
pub struct App {
    pub is_running: bool,
    pub env_list: EnvList,
}

/// What one key press does to the application state: quit keys stop it,
/// navigation keys move the selection, anything else changes nothing.
pub open spec fn key_step(app: App, k: KeyPress) -> App {
    match action_of_key(k) {
        AppAction::Quit => App { is_running: false, env_list: app.env_list },
        AppAction::Nav(c) => App {
            is_running: app.is_running,
            env_list: EnvList {
                items: app.env_list.items,
                state: SelectionState {
                    selected: nav_apply(c, app.env_list.state.selected, app.env_list.items.len()),
                },
            },
        },
        AppAction::Ignore => app,
    }
}

/// What one input event does: only key presses act; key releases and
/// repeats, mouse and resize events change nothing.
pub open spec fn event_step(app: App, ev: InputEvent) -> App {
    match ev {
        InputEvent::Key(k) => if k.kind is Press {
            key_step(app, k)
        } else {
            app
        },
        _ => app,
    }
}

impl App {
    /// A running application over the given snapshot, nothing selected.
    pub fn new(items: Vec<Environment>) -> (app: App)
        ensures
            app.is_running,
            app.env_list.items == items,
            app.env_list.state.selected is None,
            app.env_list.wf(),
    {
        App { is_running: true, env_list: EnvList::new(items) }
    }

    /// The selection, if any, is an index into the snapshot.
    pub open spec fn wf(self) -> bool {
        self.env_list.wf()
    }

    /// Stops the application.
    pub fn quit(&mut self)
        ensures
            !final(self).is_running,
            final(self).env_list == old(self).env_list,
    {
        self.is_running = false;
    }

    /// Deselects.
    pub fn select_none(&mut self)
        ensures
            final(self).env_list.state.selected == nav_clear(old(self).env_list.state.selected),
            final(self).env_list.items == old(self).env_list.items,
            final(self).is_running == old(self).is_running,
    {
        self.env_list.state.clear();
    }

    /// Moves the selection down one entry, saturating at the last.
    pub fn select_next(&mut self)
        ensures
            final(self).env_list.state.selected == nav_next(
                old(self).env_list.state.selected,
                old(self).env_list.items.len(),
            ),
            final(self).env_list.items == old(self).env_list.items,
            final(self).is_running == old(self).is_running,
    {
        let n = self.env_list.items.len();
        self.env_list.state.next(n);
    }

    /// Moves the selection up one entry, saturating at the first.
    pub fn select_previous(&mut self)
        ensures
            final(self).env_list.state.selected == nav_previous(
                old(self).env_list.state.selected,
                old(self).env_list.items.len(),
            ),
            final(self).env_list.items == old(self).env_list.items,
            final(self).is_running == old(self).is_running,
    {
        let n = self.env_list.items.len();
        self.env_list.state.previous(n);
    }

    /// Jumps to the first entry.
    pub fn select_first(&mut self)
        ensures
            final(self).env_list.state.selected == nav_first(
                old(self).env_list.state.selected,
                old(self).env_list.items.len(),
            ),
            final(self).env_list.items == old(self).env_list.items,
            final(self).is_running == old(self).is_running,
    {
        let n = self.env_list.items.len();
        self.env_list.state.first(n);
    }

    /// Jumps to the last entry.
    pub fn select_last(&mut self)
        ensures
            final(self).env_list.state.selected == nav_last(
                old(self).env_list.state.selected,
                old(self).env_list.items.len(),
            ),
            final(self).env_list.items == old(self).env_list.items,
            final(self).is_running == old(self).is_running,
    {
        let n = self.env_list.items.len();
        self.env_list.state.last(n);
    }

    /// Dispatches one key press through the key table.
    pub fn on_key_event(&mut self, key: KeyPress)
        ensures
            *final(self) == key_step(*old(self), key),
            old(self).wf() ==> final(self).wf(),
    {
        match classify_key(&key) {
            AppAction::Quit => self.quit(),
            AppAction::Nav(NavCommand::Clear) => self.select_none(),
            AppAction::Nav(NavCommand::Next) => self.select_next(),
            AppAction::Nav(NavCommand::Previous) => self.select_previous(),
            AppAction::Nav(NavCommand::First) => self.select_first(),
            AppAction::Nav(NavCommand::Last) => self.select_last(),
            AppAction::Ignore => {},
        }
    }

    /// Dispatches one input event: acts on key presses, ignores the rest.
    pub fn handle_event(&mut self, ev: InputEvent)
        ensures
            *final(self) == event_step(*old(self), ev),
            old(self).wf() ==> final(self).wf(),
    {
        match ev {
            InputEvent::Key(k) => {
                if matches!(k.kind, KeyEventKind::Press) {
                    self.on_key_event(k);
                }
            },
            InputEvent::Mouse => {},
            InputEvent::Resize(_, _) => {},
            InputEvent::Other => {},
        }
    }
}

} // verus!
