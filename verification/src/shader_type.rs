//! The shader-stage kinds a program can be built from.

use vstd::prelude::*;

verus! {

/// The driver's numeric code for a vertex stage.
pub const GL_VERTEX_SHADER: u32 = 0x8B31;

/// The driver's numeric code for a fragment stage.
pub const GL_FRAGMENT_SHADER: u32 = 0x8B30;

/// The kind of one shader stage.
#[derive(Debug, Clone, Copy, PartialEq, Eq, Structural)]
pub enum ShaderType {
    Vertex,
    Fragment,
}

impl ShaderType {
    /// The driver's numeric code for this stage kind.
    pub fn to_gl_type(self) -> (code: u32)
        ensures
            code == self.spec_gl_type(),
    {
        match self {
            ShaderType::Vertex => GL_VERTEX_SHADER,
            ShaderType::Fragment => GL_FRAGMENT_SHADER,
        }
    }

    /// What [`Self::to_gl_type`] returns for each kind.
    pub open spec fn spec_gl_type(self) -> u32 {
        match self {
            ShaderType::Vertex => GL_VERTEX_SHADER,
            ShaderType::Fragment => GL_FRAGMENT_SHADER,
        }
    }
}

} // verus!
