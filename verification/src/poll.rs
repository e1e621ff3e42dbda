//! The poll driver's per-tick decisions: the focus override computed from
//! the current window list, and the tick step that stores a changed pointer
//! position and says whether the watchers must be woken.
//!
//! The surrounding program queries the compositor each tick and hands the
//! results in as plain values; on a failed query it passes `None`.

use vstd::prelude::*;

use crate::cursor::CursorState;
use crate::cursor::spec_position_changed;
use crate::geometry::CursorPos;

verus! {

/// One open window as reported by the compositor: its fullscreen and
/// floating flags and its focus-order index, 0 being the most recently
/// focused.
#[derive(Clone, Copy, Debug, PartialEq, Eq, Structural)]
pub struct Client {
    pub fullscreen: bool,
    pub floating: bool,
    pub focus_history_id: u16,
}

/// The focus override: some window is both most recently focused and
/// fullscreen or floating.  An empty window list gives no override.
pub open spec fn spec_focus_override(clients: Seq<Client>) -> bool {
    exists|i: int|
        0 <= i < clients.len() && clients[i].focus_history_id == 0 && (clients[i].fullscreen
            || clients[i].floating)
}

/// The override as derived from a window query that may have failed: a
/// failed query suppresses nothing (fail open).
pub open spec fn spec_override_of(q: Option<Seq<Client>>) -> bool {
    match q {
        Option::None => false,
        Option::Some(clients) => spec_focus_override(clients),
    }
}

/// The view of a window query result.
pub open spec fn spec_query_view(q: Option<Vec<Client>>) -> Option<Seq<Client>> {
    match q {
        Option::None => Option::None,
        Option::Some(clients) => Option::Some(clients@),
    }
}

/// Whether the most recently focused window is fullscreen or floating.
pub fn fullscreen_or_floating_focused(clients: &Vec<Client>) -> (r: bool)
    ensures
        r == spec_focus_override(clients@),
{
    let mut i: usize = 0;
    while i < clients.len()
        invariant
            0 <= i <= clients@.len(),
            forall|j: int|
                0 <= j < i ==> !(clients@[j].focus_history_id == 0 && (clients@[j].fullscreen
                    || clients@[j].floating)),
        decreases clients@.len() - i,
    {
        let client = clients[i];
        if client.focus_history_id == 0 && (client.fullscreen || client.floating) {
            return true;
        }
        i = i + 1;
    }
    false
}

/// Whether this tick is suppressed by the focus override, treating a failed
/// window query as no override.
pub fn override_active(clients_query: &Option<Vec<Client>>) -> (r: bool)
    ensures
        r == spec_override_of(spec_query_view(*clients_query)),
{
    match clients_query {
        Option::None => false,
        Option::Some(clients) => fullscreen_or_floating_focused(clients),
    }
}

/// What one poll tick did.
#[derive(Clone, Copy, Debug, PartialEq, Eq, Structural)]
pub enum TickOutcome {
    /// The focus override held: no position query, no store, no wake.
    Suppressed,
    /// The position query failed: no store, no wake.
    PositionUnavailable,
    /// The queried position equals the stored one: no store, no wake.
    Unchanged,
    /// The queried position was stored; the watchers must be woken.
    Updated,
}

/// The tick step as a function of the stored position, the override, and the
/// position query: its outcome and the position stored afterwards.
pub open spec fn spec_tick(prev: CursorPos, overridden: bool, pos_query: Option<CursorPos>) -> (
    TickOutcome,
    CursorPos,
) {
    if overridden {
        (TickOutcome::Suppressed, prev)
    } else {
        match pos_query {
            Option::None => (TickOutcome::PositionUnavailable, prev),
            Option::Some(p) => if spec_position_changed(prev, p) {
                (TickOutcome::Updated, p)
            } else {
                (TickOutcome::Unchanged, prev)
            },
        }
    }
}

/// One poll tick over the shared cursor state.  The caller evaluates the
/// override before querying the position and passes `None` for the query it
/// skipped or that failed; it broadcasts a wake to all watchers exactly when
/// the outcome is `Updated`.
pub fn poll_tick(state: &mut CursorState, overridden: bool, pos_query: &Option<CursorPos>) -> (r:
    TickOutcome)
    ensures
        ({
            let t = spec_tick(old(state).pos, overridden, *pos_query);
            r == t.0 && final(state).pos == t.1
        }),
{
    if overridden {
        TickOutcome::Suppressed
    } else {
        match pos_query {
            Option::None => TickOutcome::PositionUnavailable,
            Option::Some(p) => {
                if state.update(*p) {
                    TickOutcome::Updated
                } else {
                    TickOutcome::Unchanged
                }
            },
        }
    }
}

/// No spurious wake: when two unsuppressed ticks in a row query the same
/// position, the second tick stores nothing and issues no broadcast.
pub proof fn lemma_no_spurious_wake(prev: CursorPos, p: CursorPos)
    ensures
        spec_tick(spec_tick(prev, false, Option::Some(p)).1, false, Option::Some(p)).0
            == TickOutcome::Unchanged,
{
}

/// Fail open: a tick whose window query failed behaves exactly as one whose
/// query found no focus override.
pub proof fn lemma_fail_open(prev: CursorPos, pos_query: Option<CursorPos>)
    ensures
        spec_tick(prev, spec_override_of(Option::None), pos_query) == spec_tick(
            prev,
            false,
            pos_query,
        ),
{
}

} // verus!
