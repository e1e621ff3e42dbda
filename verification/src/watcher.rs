//! The surface watcher's decision step: from the surface's visibility belief
//! and the current pointer position to the toggle action, and the belief
//! update that commits a completed toggle.
//!
//! The surrounding program runs one watcher loop per surface.  On each wake
//! it calls `decide`, performs the actuation that the returned action asks
//! for (for `Hide`, only after the fixed debounce delay, and without
//! re-testing the pointer afterwards), and calls `apply_toggle` only when the
//! actuation was dispatched, so that a failed toggle never changes the
//! belief.

use vstd::prelude::*;

use crate::geometry::CursorPos;
use crate::geometry::Layer;
use crate::geometry::lemma_hidden_region_within_visible;
use crate::geometry::spec_contains;

verus! {

/// What a watcher wake should do to the surface.
#[derive(Clone, Copy, Debug, PartialEq, Eq, Structural)]
pub enum ToggleAction {
    /// Pointer inside the hit region while the surface is hidden: actuate
    /// and believe it shown.
    Reveal,
    /// Pointer outside the hit region while the surface is shown: wait the
    /// debounce interval, actuate, and believe it hidden.
    Hide,
    /// No transition.
    Stay,
}

/// The decision as a function of the surface and the pointer.
pub open spec fn spec_decide(l: Layer, p: CursorPos) -> ToggleAction {
    if spec_contains(l, p) && !l.visible {
        ToggleAction::Reveal
    } else if !spec_contains(l, p) && l.visible {
        ToggleAction::Hide
    } else {
        ToggleAction::Stay
    }
}

/// The belief after committing an action.
pub open spec fn spec_apply(l: Layer, action: ToggleAction) -> Layer {
    match action {
        ToggleAction::Reveal => Layer { visible: true, ..l },
        ToggleAction::Hide => Layer { visible: false, ..l },
        ToggleAction::Stay => l,
    }
}

impl Layer {
    /// One watcher decision step: re-evaluate the hit test against the
    /// current visibility belief and return the transition it calls for.
    pub fn decide(&self, cursorpos: &CursorPos) -> (action: ToggleAction)
        ensures
            action == spec_decide(*self, *cursorpos),
    {
        let cursor_over_layer = self.does_contain_cursor(cursorpos);
        if cursor_over_layer && !self.visible {
            ToggleAction::Reveal
        } else if !cursor_over_layer && self.visible {
            ToggleAction::Hide
        } else {
            ToggleAction::Stay
        }
    }

    /// Commit a completed toggle to the visibility belief.  Called only
    /// after the actuation was dispatched; on actuation failure the belief
    /// is left as it was by not calling this.
    pub fn apply_toggle(&mut self, action: ToggleAction)
        ensures
            *final(self) == spec_apply(*old(self), action),
    {
        match action {
            ToggleAction::Reveal => {
                self.visible = true;
            },
            ToggleAction::Hide => {
                self.visible = false;
            },
            ToggleAction::Stay => {},
        }
    }
}

/// Idempotence of the decision step: once a decision has been committed, a
/// second decision at an unchanged pointer position asks for nothing more.
/// In particular, a watcher that stays in the visible state over an
/// unchanged hit-test result issues no additional actuation.
pub proof fn lemma_decide_idempotent(l: Layer, p: CursorPos)
    ensures
        spec_decide(spec_apply(l, spec_decide(l, p)), p) == ToggleAction::Stay,
{
    let l2 = spec_apply(l, spec_decide(l, p));
    if spec_decide(l, p) == ToggleAction::Reveal {
        lemma_hidden_region_within_visible(l, p);
        assert(spec_contains(l2, p));
    } else if spec_decide(l, p) == ToggleAction::Hide {
        if spec_contains(l2, p) {
            lemma_hidden_region_within_visible(l2, p);
            assert(spec_contains(l, p));
        }
    }
}

} // verus!
