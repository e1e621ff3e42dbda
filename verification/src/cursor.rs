//! The shared cursor state: the last-known pointer position and the
//! change-detection step of the poll driver's tick.
//!
//! The surrounding program keeps one `CursorState` behind its read/write
//! exclusion primitive.  The poll driver calls `update` under the exclusive
//! write side and broadcasts a wake to all watchers exactly when `update`
//! reports a change; watchers call `read` for a snapshot before deciding.

use vstd::prelude::*;

use crate::geometry::CursorPos;

verus! {

/// Whether a freshly queried position differs from the stored one, by exact
/// equality on both coordinates.
pub open spec fn spec_position_changed(prev: CursorPos, new: CursorPos) -> bool {
    new != prev
}

/// The position stored after a tick that queried `new` with `prev` stored:
/// the new position when it changed, the old one untouched otherwise.
pub open spec fn spec_position_after(prev: CursorPos, new: CursorPos) -> CursorPos {
    if spec_position_changed(prev, new) {
        new
    } else {
        prev
    }
}

/// Holder of the latest pointer position.  Written only by the poll driver,
/// read by every watcher.
pub struct CursorState {
    pub pos: CursorPos,
}

impl CursorState {
    /// The holder starts from the first successfully queried position.
    pub fn new(initial: CursorPos) -> (s: CursorState)
        ensures
            s.pos == initial,
    {
        CursorState { pos: initial }
    }

    /// Snapshot read of the stored position.
    pub fn read(&self) -> (p: CursorPos)
        ensures
            p == self.pos,
    {
        self.pos
    }

    /// Exclusive write: store the queried position if it differs from the
    /// stored one, and report whether it did.  The caller broadcasts a wake
    /// to all watchers exactly when the report is true.
    pub fn update(&mut self, new: CursorPos) -> (changed: bool)
        ensures
            changed == spec_position_changed(old(self).pos, new),
            final(self).pos == spec_position_after(old(self).pos, new),
    {
        if self.pos == new {
            false
        } else {
            self.pos = new;
            true
        }
    }
}

} // verus!
