//! The camera bundle: a composite uniform of three matrices.
//!
//! A camera is set through three uniform slots named by the dotted
//! convention `<base>.model`, `<base>.view`, `<base>.projection`. The
//! composite location is valid only when every constituent resolved, so
//! one typed set either reaches all three driver slots or none.

use vstd::prelude::*;
use vstd::string::StringExecFns;

use crate::command::CommandView;
use crate::context::GL;
use crate::locations::{SimpleUniformLocation, UniformLocation};
use crate::program::ShaderProgram;
use crate::uniform_value::{Mat4Value, UniformValue};

verus! {

/// Model, view and projection matrices, each sixteen raw 32-bit words.
#[derive(Debug, Clone, Copy)]
pub struct Camera {
    pub model: Mat4Value,
    pub view: Mat4Value,
    pub projection: Mat4Value,
}

/// The driver's replies to the three dotted-name lookups a camera location
/// resolution performs.
#[derive(Debug, Clone, Copy)]
pub struct CameraLocationReplies {
    pub model: Option<u64>,
    pub view: Option<u64>,
    pub projection: Option<u64>,
}

/// The three constituent locations of a camera uniform.
pub struct CameraUniformLocation {
    model: SimpleUniformLocation<Mat4Value>,
    view: SimpleUniformLocation<Mat4Value>,
    projection: SimpleUniformLocation<Mat4Value>,
}

/// The lookup conversation a camera location resolution records: one query
/// per dotted field name, in field order.
pub open spec fn camera_query_trace(base: Seq<char>, replies: CameraLocationReplies) -> Seq<
    CommandView,
> {
    seq![
        CommandView::QueryUniformLocation { name: base + ".model"@, result: replies.model },
        CommandView::QueryUniformLocation { name: base + ".view"@, result: replies.view },
        CommandView::QueryUniformLocation { name: base + ".projection"@, result: replies.projection },
    ]
}

impl CameraUniformLocation {
    /// The constituent location for the model matrix.
    pub closed spec fn spec_model(&self) -> SimpleUniformLocation<Mat4Value> {
        self.model
    }

    /// The constituent location for the view matrix.
    pub closed spec fn spec_view(&self) -> SimpleUniformLocation<Mat4Value> {
        self.view
    }

    /// The constituent location for the projection matrix.
    pub closed spec fn spec_projection(&self) -> SimpleUniformLocation<Mat4Value> {
        self.projection
    }

    /// Resolve the three constituent slots against `program` under the
    /// dotted naming convention, recording one lookup per field.
    pub fn new(
        program: &ShaderProgram,
        gl: &mut GL,
        base: &str,
        replies: &CameraLocationReplies,
    ) -> (location: CameraUniformLocation)
        ensures
            final(gl).trace() =~= old(gl).trace() + camera_query_trace(base@, *replies),
            final(gl).state() == old(gl).state(),
            final(gl).next_handle() == old(gl).next_handle(),
            final(gl).next_program_uid() == old(gl).next_program_uid(),
            location.spec_model().spec_loc() == replies.model,
            location.spec_view().spec_loc() == replies.view,
            location.spec_projection().spec_loc() == replies.projection,
    {
        let model_name = String::from_str(base).concat(".model");
        let view_name = String::from_str(base).concat(".view");
        let projection_name = String::from_str(base).concat(".projection");
        let model = program.get_uniform_location::<Mat4Value>(
            gl,
            model_name.as_str(),
            replies.model,
        );
        let view = program.get_uniform_location::<Mat4Value>(gl, view_name.as_str(), replies.view);
        let projection = program.get_uniform_location::<Mat4Value>(
            gl,
            projection_name.as_str(),
            replies.projection,
        );
        CameraUniformLocation { model, view, projection }
    }
}

impl UniformLocation for CameraUniformLocation {
    /// A composite location is valid only when every constituent is.
    open spec fn valid(&self) -> bool {
        self.spec_model().valid() && self.spec_view().valid() && self.spec_projection().valid()
    }

    fn is_valid(&self) -> (valid: bool)
        ensures
            valid == self.valid(),
    {
        self.model.is_valid() && self.view.is_valid() && self.projection.is_valid()
    }
}

impl UniformValue for Camera {
    type Location = CameraUniformLocation;

    /// One camera set pushes the three matrices in field order.
    open spec fn uniform_trace(&self, location: &CameraUniformLocation) -> Seq<CommandView> {
        self.model.uniform_trace(&location.spec_model()) + self.view.uniform_trace(
            &location.spec_view(),
        ) + self.projection.uniform_trace(&location.spec_projection())
    }

    fn set_to(&self, gl: &mut GL, location: &CameraUniformLocation)
        ensures
            final(gl).trace() =~= old(gl).trace() + self.uniform_trace(location),
            final(gl).state() == old(gl).state(),
            final(gl).next_handle() == old(gl).next_handle(),
            final(gl).next_program_uid() == old(gl).next_program_uid(),
    {
        self.model.set_to(gl, &location.model);
        self.view.set_to(gl, &location.view);
        self.projection.set_to(gl, &location.projection);
    }
}

} // verus!
