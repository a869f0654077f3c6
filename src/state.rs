use vstd::prelude::*;

verus! {

/// The coarse phase the game is in.
#[derive(Debug, Clone, Copy, PartialEq, Eq, Structural)]
pub enum AppState {
    Menu,
    OverWorld,
    Battle,
}

/// A push-down stack of game modes: the mode on top is the current one, and
/// the modes below it are kept so that they can be resumed. A requested
/// transition waits until the end of the step to be applied.
pub struct ModeStack {
    stack: Vec<AppState>,
    pending: Option<AppState>,
}

impl ModeStack {
    /// The modes from the bottom of the stack to its top.
    pub closed spec fn stack(&self) -> Seq<AppState> {
        self.stack@
    }

    /// The transition requested in this step, if any.
    pub closed spec fn pending(&self) -> Option<AppState> {
        self.pending
    }

    /// The stack is never empty.
    pub open spec fn wf(&self) -> bool {
        self.stack().len() >= 1
    }

    pub open spec fn current_spec(&self) -> AppState {
        self.stack().last()
    }

    /// A stack holding the starting mode, the overworld.
    pub fn new() -> (r: ModeStack)
        ensures
            r.wf(),
            r.stack() == seq![AppState::OverWorld],
            r.pending() is None,
    {
        ModeStack { stack: vec![AppState::OverWorld], pending: None }
    }

    pub fn current_state(&self) -> (r: AppState)
        requires
            self.wf(),
        ensures
            r == self.current_spec(),
    {
        self.stack[self.stack.len() - 1]
    }

    pub fn pending_transition(&self) -> (r: Option<AppState>)
        ensures
            r == self.pending(),
    {
        self.pending
    }

    /// Asks for `mode` to be entered at the end of the step; a later request
    /// in the same step replaces an earlier one.
    pub fn request_transition(&mut self, mode: AppState)
        ensures
            final(self).stack() == old(self).stack(),
            final(self).pending() == Some(mode),
    {
        self.pending = Some(mode);
    }

    /// Enters the requested mode, if any, by pushing it on the stack.
    /// Returns whether a mode was entered.
    pub fn apply_transition(&mut self) -> (r: bool)
        requires
            old(self).wf(),
        ensures
            final(self).wf(),
            r == old(self).pending() is Some,
            final(self).pending() is None,
            final(self).stack() == match old(self).pending() {
                Some(m) => old(self).stack().push(m),
                None => old(self).stack(),
            },
    {
        match self.pending {
            Some(m) => {
                self.stack.push(m);
                self.pending = None;
                true
            },
            None => false,
        }
    }

    /// Leaves the current mode and resumes the one below it. The bottom mode
    /// is never left: with one mode on the stack nothing changes.
    pub fn pop(&mut self) -> (r: Option<AppState>)
        requires
            old(self).wf(),
        ensures
            final(self).wf(),
            final(self).pending() == old(self).pending(),
            old(self).stack().len() > 1 ==> r == Some(old(self).stack().last())
                && final(self).stack() == old(self).stack().drop_last(),
            old(self).stack().len() == 1 ==> r is None && final(self).stack() == old(self).stack(),
    {
        if self.stack.len() > 1 {
            self.stack.pop()
        } else {
            None
        }
    }
}

} // verus!
