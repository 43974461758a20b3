//! The use scope: a scoped session during which one program is current.
//!
//! Constructing the scope makes its program current; while it is live,
//! typed uniform sets and draw calls against that program are valid.
//! Setting a uniform through an invalid location is a silent no-op that
//! issues no driver call at all, so shaders may omit optional uniforms
//! without call-site branching. Ending the scope clears the current
//! program to none.

use vstd::prelude::*;

use crate::command::{CommandView, DriverState, GlCommand};
use crate::context::GL;
use crate::locations::UniformLocation;
use crate::program::ShaderProgram;
use crate::uniform_value::UniformValue;

verus! {

/// A scoped binding session that keeps one program current; see the
/// module documentation.
pub struct ShaderUseCtx<'a> {
    program: &'a ShaderProgram,
}

impl<'a> ShaderUseCtx<'a> {
    /// The identity of the program this scope keeps current.
    pub open spec fn spec_program_uid(&self) -> u64 {
        self.spec_program().uid()
    }

    /// The driver handle of the program this scope keeps current.
    pub open spec fn spec_program_handle(&self) -> u64 {
        self.spec_program().as_gl_program()
    }

    /// The program this scope keeps current.
    pub closed spec fn spec_program(&self) -> ShaderProgram {
        *self.program
    }

    /// Whether this scope's program is the one current in `state`.
    pub open spec fn is_current(&self, state: DriverState) -> bool {
        state.current_program == Some(self.spec_program_handle())
    }

    /// Open the scope: make `program` current.
    pub fn new(gl: &mut GL, program: &'a ShaderProgram) -> (scope: ShaderUseCtx<'a>)
        ensures
            final(gl).trace() =~= old(gl).trace() + seq![
                CommandView::UseProgram { program: Some(program.as_gl_program()) },
            ],
            final(gl).state() == (DriverState {
                current_program: Some(program.as_gl_program()),
                ..old(gl).state()
            }),
            final(gl).next_handle() == old(gl).next_handle(),
            final(gl).next_program_uid() == old(gl).next_program_uid(),
            scope.spec_program() == *program,
            scope.is_current(final(gl).state()),
    {
        gl.issue(GlCommand::UseProgram { program: Some(program.as_gl_program()) });
        ShaderUseCtx { program }
    }

    /// The program this scope keeps current.
    pub fn as_program(&self) -> (program: &'a ShaderProgram)
        ensures
            *program == self.spec_program(),
    {
        self.program
    }

    /// Push `value` through `location`, only if the location is valid: an
    /// invalid location issues no driver call at all and changes nothing.
    pub fn set_uniform<V: UniformValue>(&self, gl: &mut GL, location: &V::Location, value: &V)
        requires
            self.is_current(old(gl).state()),
        ensures
            location.valid() ==> final(gl).trace() =~= old(gl).trace() + value.uniform_trace(
                location,
            ),
            !location.valid() ==> final(gl).trace() == old(gl).trace(),
            final(gl).state() == old(gl).state(),
            final(gl).next_handle() == old(gl).next_handle(),
            final(gl).next_program_uid() == old(gl).next_program_uid(),
    {
        if location.is_valid() {
            value.set_to(gl, location);
        }
    }

    /// Close the scope: clear the current program to none.
    pub fn end(self, gl: &mut GL)
        ensures
            final(gl).trace() =~= old(gl).trace() + seq![
                CommandView::UseProgram { program: None },
            ],
            final(gl).state() == (DriverState {
                current_program: None,
                ..old(gl).state()
            }),
            final(gl).next_handle() == old(gl).next_handle(),
            final(gl).next_program_uid() == old(gl).next_program_uid(),
    {
        gl.issue(GlCommand::UseProgram { program: None });
    }
}

impl ShaderProgram {
    /// Open a use scope over this program; see [`ShaderUseCtx`].
    pub fn use_program<'a>(&'a self, gl: &mut GL) -> (scope: ShaderUseCtx<'a>)
        ensures
            final(gl).trace() =~= old(gl).trace() + seq![
                CommandView::UseProgram { program: Some(self.as_gl_program()) },
            ],
            final(gl).state() == (DriverState {
                current_program: Some(self.as_gl_program()),
                ..old(gl).state()
            }),
            final(gl).next_handle() == old(gl).next_handle(),
            final(gl).next_program_uid() == old(gl).next_program_uid(),
            scope.spec_program() == *self,
            scope.is_current(final(gl).state()),
    {
        ShaderUseCtx::new(gl, self)
    }
}

} // verus!
