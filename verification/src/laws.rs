//! Laws of the navigation model and of the event step: what holds of every
//! snapshot size, every selection and every sequence of commands.

use vstd::prelude::*;
use crate::app::{event_step, App};
use crate::input::InputEvent;
use crate::selection::{nav_apply, nav_apply_all, sel_wf, NavCommand};

verus! {

/// Any sequence of navigation commands, applied to a valid selection over a
/// snapshot of `n` entries, leaves the selection valid: either nothing or an
/// index in the snapshot.
pub proof fn lemma_navigation_keeps_selection_valid(
    cs: Seq<NavCommand>,
    s: Option<usize>,
    n: usize,
)
    requires
        sel_wf(s, n),
    ensures
        sel_wf(nav_apply_all(cs, s, n), n),
    decreases cs.len(),
{
    if cs.len() > 0 {
        lemma_navigation_keeps_selection_valid(cs.drop_first(), nav_apply(cs[0], s, n), n);
    }
}

/// On an empty snapshot no sequence of navigation commands ever selects
/// anything.
pub proof fn lemma_empty_snapshot_never_selects(cs: Seq<NavCommand>, s: Option<usize>)
    requires
        sel_wf(s, 0),
    ensures
        nav_apply_all(cs, s, 0) is None,
    decreases cs.len(),
{
    if cs.len() > 0 {
        lemma_empty_snapshot_never_selects(cs.drop_first(), nav_apply(cs[0], s, 0));
    }
}

/// Clearing deselects from any state, and the step right after a clear
/// selects the first entry whenever the snapshot has one.
pub proof fn lemma_clear_then_next_selects_first(s: Option<usize>, n: usize)
    ensures
        nav_apply(NavCommand::Clear, s, n) is None,
        nav_apply(NavCommand::Next, nav_apply(NavCommand::Clear, s, n), n) == (if n > 0 {
            Some(0usize)
        } else {
            None::<usize>
        }),
{
}

/// One input event, dispatched to a valid application state, leaves the
/// state valid and leaves the snapshot itself untouched.
pub proof fn lemma_event_step_keeps_state_valid(app: App, ev: InputEvent)
    requires
        app.wf(),
    ensures
        event_step(app, ev).wf(),
        event_step(app, ev).env_list.items == app.env_list.items,
{
}

/// Stopping is final: no input event sets the running flag again.
pub proof fn lemma_stopped_stays_stopped(app: App, ev: InputEvent)
    requires
        !app.is_running,
    ensures
        !event_step(app, ev).is_running,
{
}

} // verus!
