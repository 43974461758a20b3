//! The shared driver context: a verified record of every driver call.
//!
//! [`GL`] stands for the single GPU driver context the whole stack shares.
//! Every component that wants to talk to the driver appends its calls here;
//! the context keeps the full command trace, and the driver's binding state
//! is by definition the fold of [`crate::command::apply`] over that trace,
//! so the trace is the single source of truth.
//!
//! Handles for driver objects the library asks to create are drawn from a
//! counter owned by the context, so freshness and distinctness of handles
//! are facts, not assumptions. Program identities come from a second counter,
//! which makes them process-unique exactly as the location guard needs.

use vstd::prelude::*;

use crate::command::{apply, initial_state, lemma_state_after_push, state_after, CommandView,
    DriverState, GlCommand};

verus! {

/// The shared driver context; see the module documentation.
pub struct GL {
    commands: Vec<GlCommand>,
    next_handle: u64,
    next_program_uid: u64,
}

impl GL {
    /// The full trace of driver calls issued so far, oldest first.
    pub closed spec fn trace(&self) -> Seq<CommandView> {
        self.commands@.map_values(|c: GlCommand| c@)
    }

    /// The driver's binding state after the recorded trace.
    pub open spec fn state(&self) -> DriverState {
        state_after(self.trace())
    }

    /// The next object handle this context will hand out.
    pub closed spec fn next_handle(&self) -> u64 {
        self.next_handle
    }

    /// The next process-unique program identity this context will hand out.
    pub closed spec fn next_program_uid(&self) -> u64 {
        self.next_program_uid
    }

    /// A fresh context: empty trace, clean driver state, counters at zero.
    pub fn new() -> (gl: GL)
        ensures
            gl.trace() =~= Seq::<CommandView>::empty(),
            gl.state() == initial_state(),
            gl.next_handle() == 0,
            gl.next_program_uid() == 0,
    {
        let commands: Vec<GlCommand> = Vec::new();
        proof {
            assert(commands@.map_values(|c: GlCommand| c@) =~= Seq::<CommandView>::empty());
        }
        GL { commands, next_handle: 0, next_program_uid: 0 }
    }

    /// Record one driver call.
    pub(crate) fn issue(&mut self, command: GlCommand)
        ensures
            final(self).trace() =~= old(self).trace().push(command@),
            final(self).state() == apply(old(self).state(), command@),
            final(self).next_handle() == old(self).next_handle(),
            final(self).next_program_uid() == old(self).next_program_uid(),
    {
        let ghost old_trace = self.trace();
        let ghost cv = command@;
        self.commands.push(command);
        proof {
            assert(self.trace() =~= old_trace.push(cv));
            lemma_state_after_push(old_trace, cv);
        }
    }

    /// Draw a fresh object handle; handles never repeat within one context.
    pub(crate) fn take_handle(&mut self) -> (handle: u64)
        requires
            old(self).next_handle() < u64::MAX,
        ensures
            handle == old(self).next_handle(),
            final(self).next_handle() == old(self).next_handle() + 1,
            final(self).trace() == old(self).trace(),
            final(self).next_program_uid() == old(self).next_program_uid(),
    {
        let handle = self.next_handle;
        self.next_handle = self.next_handle + 1;
        handle
    }

    /// Draw a fresh program identity; identities never repeat within one
    /// context.
    pub(crate) fn take_program_uid(&mut self) -> (uid: u64)
        requires
            old(self).next_program_uid() < u64::MAX,
        ensures
            uid == old(self).next_program_uid(),
            final(self).next_program_uid() == old(self).next_program_uid() + 1,
            final(self).trace() == old(self).trace(),
            final(self).next_handle() == old(self).next_handle(),
    {
        let uid = self.next_program_uid;
        self.next_program_uid = self.next_program_uid + 1;
        uid
    }

    /// Turn the depth test on.
    pub fn enable_depth_test(&mut self)
        ensures
            final(self).trace() =~= old(self).trace().push(CommandView::EnableDepthTest),
            final(self).state() == (DriverState { depth_test: true, ..old(self).state() }),
            final(self).next_handle() == old(self).next_handle(),
            final(self).next_program_uid() == old(self).next_program_uid(),
    {
        self.issue(GlCommand::EnableDepthTest);
    }

    /// Turn the depth test off.
    pub fn disable_depth_test(&mut self)
        ensures
            final(self).trace() =~= old(self).trace().push(CommandView::DisableDepthTest),
            final(self).state() == (DriverState { depth_test: false, ..old(self).state() }),
            final(self).next_handle() == old(self).next_handle(),
            final(self).next_program_uid() == old(self).next_program_uid(),
    {
        self.issue(GlCommand::DisableDepthTest);
    }

    /// The recorded driver calls, for an unverified shell to execute or a
    /// test to inspect.
    pub fn commands(&self) -> (commands: &Vec<GlCommand>)
        ensures
            commands@.map_values(|c: GlCommand| c@) == self.trace(),
    {
        &self.commands
    }

    /// How many driver calls have been recorded.
    pub fn command_count(&self) -> (count: usize)
        ensures
            count == self.trace().len(),
    {
        self.commands.len()
    }
}

} // verus!
