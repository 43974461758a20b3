//! The top-level error type: any failure a mesh construction can report.

use vstd::prelude::*;

use crate::object::GLObjectError;
use crate::shader_error::{ShaderError, ShaderErrorView};

verus! {

/// Any failure of the GPU-facing constructions: an object allocation
/// failure or a shader-program build failure.
#[derive(Debug, Clone)]
pub enum GLError {
    GLObjectError(GLObjectError),
    ShaderError(ShaderError),
}

/// The mathematical image of a [`GLError`].
#[verifier::ext_equal]
pub ghost enum GLErrorView {
    GLObjectError(GLObjectError),
    ShaderError(ShaderErrorView),
}

impl View for GLError {
    type V = GLErrorView;

    open spec fn view(&self) -> GLErrorView {
        match self {
            GLError::GLObjectError(error) => GLErrorView::GLObjectError(*error),
            GLError::ShaderError(error) => GLErrorView::ShaderError(error@),
        }
    }
}

impl From<GLObjectError> for GLError {
    fn from(error: GLObjectError) -> (converted: GLError) {
        GLError::GLObjectError(error)
    }
}

impl vstd::std_specs::convert::FromSpecImpl<GLObjectError> for GLError {
    open spec fn obeys_from_spec() -> bool {
        true
    }

    open spec fn from_spec(error: GLObjectError) -> GLError {
        GLError::GLObjectError(error)
    }
}

impl From<ShaderError> for GLError {
    fn from(error: ShaderError) -> (converted: GLError) {
        GLError::ShaderError(error)
    }
}

impl vstd::std_specs::convert::FromSpecImpl<ShaderError> for GLError {
    open spec fn obeys_from_spec() -> bool {
        true
    }

    open spec fn from_spec(error: ShaderError) -> GLError {
        GLError::ShaderError(error)
    }
}

} // verus!
