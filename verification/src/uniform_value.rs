//! Type-directed uniform dispatch.
//!
//! A value type declares its own location type and how to push itself to
//! the driver given a resolved location. The closed set of primitive
//! shapes — scalar, 2-vector, 3-vector, 4x4 matrix — each dispatch to
//! their own driver call, so the wrong setter can never be used for a
//! resolved location; composite values build on these (see
//! [`crate::camera`]). Values carry raw 32-bit words: the bit patterns of
//! the host's scalars, which the library hands through untouched.

use vstd::prelude::*;

use crate::command::{CommandView, GlCommand};
use crate::context::GL;
use crate::locations::{SimpleUniformLocation, UniformLocation};

verus! {

/// A host value that knows how to push itself to a resolved uniform
/// location of its own location type.
pub trait UniformValue: Sized {
    /// The location type this value is set through.
    type Location: UniformLocation;

    /// The driver calls one set of this value through `location` issues.
    spec fn uniform_trace(&self, location: &Self::Location) -> Seq<CommandView>;

    /// Push this value to the driver through a valid location.
    fn set_to(&self, gl: &mut GL, location: &Self::Location)
        requires
            location.valid(),
        ensures
            final(gl).trace() =~= old(gl).trace() + self.uniform_trace(location),
            final(gl).state() == old(gl).state(),
            final(gl).next_handle() == old(gl).next_handle(),
            final(gl).next_program_uid() == old(gl).next_program_uid(),
    ;
}

/// A scalar uniform value: one raw 32-bit word.
#[derive(Debug, Clone, Copy, PartialEq, Eq, Structural)]
pub struct ScalarValue {
    pub word: u32,
}

/// A 2-vector uniform value: two raw 32-bit words.
#[derive(Debug, Clone, Copy)]
pub struct Vec2Value {
    pub words: [u32; 2],
}

/// A 3-vector uniform value: three raw 32-bit words.
#[derive(Debug, Clone, Copy)]
pub struct Vec3Value {
    pub words: [u32; 3],
}

/// A 4x4-matrix uniform value: sixteen raw 32-bit words, column-major.
#[derive(Debug, Clone, Copy)]
pub struct Mat4Value {
    pub words: [u32; 16],
}

impl UniformValue for ScalarValue {
    type Location = SimpleUniformLocation<ScalarValue>;

    open spec fn uniform_trace(&self, location: &Self::Location) -> Seq<CommandView> {
        seq![CommandView::Uniform1f { location: location.spec_handle(), word: self.word }]
    }

    fn set_to(&self, gl: &mut GL, location: &Self::Location)
        ensures
            final(gl).trace() =~= old(gl).trace() + self.uniform_trace(location),
            final(gl).state() == old(gl).state(),
            final(gl).next_handle() == old(gl).next_handle(),
            final(gl).next_program_uid() == old(gl).next_program_uid(),
    {
        gl.issue(GlCommand::Uniform1f { location: location.handle(), word: self.word });
    }
}

impl UniformValue for Vec2Value {
    type Location = SimpleUniformLocation<Vec2Value>;

    open spec fn uniform_trace(&self, location: &Self::Location) -> Seq<CommandView> {
        seq![CommandView::Uniform2f { location: location.spec_handle(), words: self.words }]
    }

    fn set_to(&self, gl: &mut GL, location: &Self::Location)
        ensures
            final(gl).trace() =~= old(gl).trace() + self.uniform_trace(location),
            final(gl).state() == old(gl).state(),
            final(gl).next_handle() == old(gl).next_handle(),
            final(gl).next_program_uid() == old(gl).next_program_uid(),
    {
        gl.issue(GlCommand::Uniform2f { location: location.handle(), words: self.words });
    }
}

impl UniformValue for Vec3Value {
    type Location = SimpleUniformLocation<Vec3Value>;

    open spec fn uniform_trace(&self, location: &Self::Location) -> Seq<CommandView> {
        seq![CommandView::Uniform3f { location: location.spec_handle(), words: self.words }]
    }

    fn set_to(&self, gl: &mut GL, location: &Self::Location)
        ensures
            final(gl).trace() =~= old(gl).trace() + self.uniform_trace(location),
            final(gl).state() == old(gl).state(),
            final(gl).next_handle() == old(gl).next_handle(),
            final(gl).next_program_uid() == old(gl).next_program_uid(),
    {
        gl.issue(GlCommand::Uniform3f { location: location.handle(), words: self.words });
    }
}

impl UniformValue for Mat4Value {
    type Location = SimpleUniformLocation<Mat4Value>;

    open spec fn uniform_trace(&self, location: &Self::Location) -> Seq<CommandView> {
        seq![CommandView::UniformMatrix4f { location: location.spec_handle(), words: self.words }]
    }

    fn set_to(&self, gl: &mut GL, location: &Self::Location)
        ensures
            final(gl).trace() =~= old(gl).trace() + self.uniform_trace(location),
            final(gl).state() == old(gl).state(),
            final(gl).next_handle() == old(gl).next_handle(),
            final(gl).next_program_uid() == old(gl).next_program_uid(),
    {
        gl.issue(GlCommand::UniformMatrix4f { location: location.handle(), words: self.words });
    }
}

} // verus!
