//! The context's current-program slot, modelled explicitly.
//!
//! In the real backend the current program is a process-wide mutable
//! slot that every draw call reads. Here that slot is an explicit
//! value, so the ordering dependency — apply before drawing — stands in
//! signatures instead of in ambient state. The view of a context is the
//! handle of the program bound to it, with `0` for none, as the backend
//! itself spells "no program".

use vstd::prelude::*;

verus! {

/// One rendering context: the slot that holds the current program.
pub struct GraphicsContext {
    current: u32,
}

impl View for GraphicsContext {
    type V = u32;

    closed spec fn view(&self) -> u32 {
        self.current
    }
}

impl GraphicsContext {
    /// A fresh context: no program bound.
    pub fn new() -> (context: Self)
        ensures
            context@ == 0,
    {
        GraphicsContext { current: 0 }
    }

    /// The handle of the program currently bound, `0` for none.
    pub fn current_program(&self) -> (id: u32)
        ensures
            id == self@,
    {
        self.current
    }

    /// Bind this program handle as the current one.
    pub(crate) fn bind_program(&mut self, id: u32)
        ensures
            final(self)@ == id,
    {
        self.current = id;
    }
}

/// What applying a program does to the slot: the program's handle
/// becomes current, whatever was bound before.
pub open spec fn apply_spec(current: u32, id: u32) -> u32 {
    id
}

/// A later apply strictly supersedes an earlier one: after applying a
/// first program and then a second, the second is current — and the
/// first no longer is, whenever the two handles differ.
pub proof fn lemma_apply_supersedes(current: u32, first_id: u32, second_id: u32)
    ensures
        apply_spec(apply_spec(current, first_id), second_id) == second_id,
        first_id != second_id ==> apply_spec(apply_spec(current, first_id), second_id)
            != first_id,
{
}

} // verus!
