//! Operations that test what they rely on.
//!
//! The operations of a buffer take it for granted that the buffer is well
//! formed, and a few of them that the gap lies where they need it. A caller
//! that cannot know this calls the operations here instead: they test it and,
//! where it does not hold, answer with the [`InvariantViolation`] that they
//! found and leave the buffer alone.

use vstd::prelude::*;
use crate::buffer::{position_view, Buffer, GROWTH_INCREMENT, MAX_CAPACITY};
use crate::text::Position;

verus! {

/// What is amiss with a buffer, or with a buffer for what was asked of it.
#[derive(Clone, Copy, Debug, PartialEq, Eq)]
pub enum InvariantViolation {
    /// The storage has, or would have, more than [`MAX_CAPACITY`] cells.
    StorageTooLarge,
    /// The gap reaches beyond the end of the storage.
    GapOutOfBounds,
    /// The cursor lies beyond the end of the storage.
    CursorOutOfBounds,
    /// The cursor lies inside the gap.
    CursorInGap,
    /// The gap does not begin at the cursor.
    GapMisaligned,
    /// The gap is not used up.
    GapNotExhausted,
}

impl Buffer {
    /// What keeps the buffer from being well formed, if anything: the first
    /// of too large a storage, a gap beyond the storage, a cursor beyond the
    /// storage, and a cursor inside the gap.
    pub open spec fn violation(&self) -> Option<InvariantViolation> {
        if self.capacity() > MAX_CAPACITY {
            Some(InvariantViolation::StorageTooLarge)
        } else if self.gap_end() > self.capacity() {
            Some(InvariantViolation::GapOutOfBounds)
        } else if self.cursor_offset > self.capacity() {
            Some(InvariantViolation::CursorOutOfBounds)
        } else if self.gap_start < self.cursor_offset < self.gap_end() {
            Some(InvariantViolation::CursorInGap)
        } else {
            None
        }
    }

    /// What keeps the position of the cursor from being asked for, if
    /// anything: what keeps the buffer from being well formed or, in a
    /// well-formed buffer, a gap that does not begin at the cursor.
    pub open spec fn position_violation(&self) -> Option<InvariantViolation> {
        if self.violation() is Some {
            self.violation()
        } else if !self.aligned() {
            Some(InvariantViolation::GapMisaligned)
        } else {
            None
        }
    }

    /// What keeps the storage from being widened, if anything: what keeps the
    /// position of the cursor from being asked for or, failing that, a gap
    /// that is not used up, or a storage that would grow too large.
    pub open spec fn growth_violation(&self) -> Option<InvariantViolation> {
        if self.position_violation() is Some {
            self.position_violation()
        } else if self.gap_len != 0 {
            Some(InvariantViolation::GapNotExhausted)
        } else if self.capacity() + GROWTH_INCREMENT > MAX_CAPACITY {
            Some(InvariantViolation::StorageTooLarge)
        } else {
            None
        }
    }

    /// A buffer is well formed exactly when nothing keeps it from being so.
    pub proof fn lemma_violation(&self)
        ensures
            self.wf() <==> self.violation() is None,
    {
    }

    /// Tests whether the buffer is well formed, and says what is amiss where
    /// it is not.
    pub fn validate(&self) -> (result: Result<(), InvariantViolation>)
        ensures
            result is Ok <==> self.wf(),
            result matches Err(violation) ==> self.violation() == Some(violation),
    {
        let capacity: usize = self.data.len();
        if capacity > MAX_CAPACITY {
            Err(InvariantViolation::StorageTooLarge)
        } else if self.gap_start > capacity || self.gap_len > capacity - self.gap_start {
            Err(InvariantViolation::GapOutOfBounds)
        } else if self.cursor_offset > capacity {
            Err(InvariantViolation::CursorOutOfBounds)
        } else if self.gap_start < self.cursor_offset && self.cursor_offset - self.gap_start
            < self.gap_len {
            Err(InvariantViolation::CursorInGap)
        } else {
            Ok(())
        }
    }

    /// The position of the cursor, where the buffer is well formed and its gap
    /// begins at the cursor; else what is amiss.
    pub fn checked_cursor_position(&self) -> (result: Result<Position, InvariantViolation>)
        ensures
            result is Ok <==> self.wf() && self.aligned(),
            result matches Ok(position) ==> position_view(position) == self@.cursor_position(),
            result matches Err(violation) ==> self.position_violation() == Some(violation),
    {
        match self.validate() {
            Err(violation) => Err(violation),
            Ok(_) => if self.is_aligned() {
                Ok(self.cursor_position())
            } else {
                Err(InvariantViolation::GapMisaligned)
            },
        }
    }

    /// Widens the storage as [`Buffer::grow`] does, where the buffer is well
    /// formed, its gap begins at the cursor and is used up, and the storage
    /// can grow; else says what is amiss and leaves the buffer as it is.
    pub fn checked_grow(&mut self) -> (result: Result<(), InvariantViolation>)
        ensures
            result is Ok <==> old(self).growth_violation() is None,
            result is Ok ==> final(self).grows(*old(self)),
            result matches Err(violation) ==> old(self).growth_violation() == Some(violation)
                && *final(self) == *old(self),
    {
        match self.validate() {
            Err(violation) => Err(violation),
            Ok(_) => if !self.is_aligned() {
                Err(InvariantViolation::GapMisaligned)
            } else if self.gap_len != 0 {
                Err(InvariantViolation::GapNotExhausted)
            } else if self.data.len() > MAX_CAPACITY - GROWTH_INCREMENT {
                Err(InvariantViolation::StorageTooLarge)
            } else {
                self.grow();
                Ok(())
            },
        }
    }
}

} // verus!
