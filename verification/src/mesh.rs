//! Meshes: interleaved geometry storage, partial updates, and the draw.
//!
//! A mesh owns its geometry arrays and one GPU object. The buffer byte
//! layout is always `[positions][normals][texcoords]`, contiguous in that
//! order; every offset is recomputed from the current array sizes on every
//! upload, so an optional array of zero length contributes a zero offset
//! and is never configured as a vertex attribute. Rendering activates the
//! depth test, opens a use scope, resolves the camera uniform and the
//! attribute locations, opens a bind scope, configures exactly the
//! attribute slots whose arrays are non-empty and whose names resolved,
//! issues one instanced draw, and closes both scopes again — all of which
//! the contract states as the exact command trace [`render_trace`].

use vstd::prelude::*;

use crate::bind_scope::{bind_trace, teardown_trace};
use crate::camera::{camera_query_trace, Camera, CameraLocationReplies, CameraUniformLocation};
use crate::command::{count_matching, lemma_count_matching_concat, lemma_count_matching_none,
    CommandView, DriverState};
use crate::context::GL;
use crate::geometry::{AttribArray2, AttribArray3, FaceArray, SizeInBytes, MAX_BUFFER_BYTES};
use crate::gl_error::{GLError, GLErrorView};
use crate::object::{allocation_trace, AllocationReplies, GLObject, GLObjectError};
use crate::program::ShaderProgram;
use crate::shader_use_ctx::ShaderUseCtx;

verus! {

/// The driver's replies to the name lookups one render performs: the three
/// dotted camera fields, and the three attribute names.
#[derive(Debug, Clone, Copy)]
pub struct RenderResolution {
    pub camera: CameraLocationReplies,
    pub position: i32,
    pub normal: i32,
    pub tex_coords: i32,
}

/// The three sub-range uploads that place the geometry arrays in the
/// interleaved layout: positions at zero, normals right after the
/// positions, texture coordinates right after the normals.
pub open spec fn vertex_payload_trace(
    vertices: Seq<u32>,
    normals: Seq<u32>,
    tex_coords: Seq<u32>,
) -> Seq<CommandView> {
    seq![
        CommandView::UploadArraySubData { byte_offset: 0, words: vertices },
        CommandView::UploadArraySubData {
            byte_offset: ((4 * vertices.len()) as usize),
            words: normals,
        },
        CommandView::UploadArraySubData {
            byte_offset: ((4 * (vertices.len() + normals.len())) as usize),
            words: tex_coords,
        },
    ]
}

/// The conversation a mesh construction records after its object is
/// allocated: bind, size the dynamic buffer to the whole layout, upload
/// the three arrays, upload the face indices, tear the scope down.
pub open spec fn mesh_upload_trace(
    vertices: Seq<u32>,
    normals: Seq<u32>,
    tex_coords: Seq<u32>,
    faces: Seq<i32>,
    vao: u64,
    data: u64,
    indices: u64,
) -> Seq<CommandView> {
    bind_trace(vao, data, indices) + seq![
        CommandView::AllocateArrayData {
            byte_size: ((4 * (vertices.len() + normals.len() + tex_coords.len())) as usize),
        },
    ] + vertex_payload_trace(vertices, normals, tex_coords) + seq![
        CommandView::UploadElementData { indices: faces },
    ] + teardown_trace(Seq::<u32>::empty())
}

/// The conversation an update records: bind, re-upload only the vertex
/// payload (the index buffer is topologically static), tear down.
pub open spec fn mesh_update_trace(
    vertices: Seq<u32>,
    normals: Seq<u32>,
    tex_coords: Seq<u32>,
    vao: u64,
    data: u64,
    indices: u64,
) -> Seq<CommandView> {
    bind_trace(vao, data, indices) + vertex_payload_trace(vertices, normals, tex_coords)
        + teardown_trace(Seq::<u32>::empty())
}

/// The three camera-matrix sets one render issues — all three, or none
/// when any of the dotted names failed to resolve.
pub open spec fn camera_set_trace(camera: Camera, replies: CameraLocationReplies) -> Seq<
    CommandView,
> {
    if replies.model is Some && replies.view is Some && replies.projection is Some {
        seq![
            CommandView::UniformMatrix4f {
                location: replies.model->Some_0,
                words: camera.model.words,
            },
            CommandView::UniformMatrix4f { location: replies.view->Some_0, words: camera.view.words },
            CommandView::UniformMatrix4f {
                location: replies.projection->Some_0,
                words: camera.projection.words,
            },
        ]
    } else {
        Seq::<CommandView>::empty()
    }
}

/// The three attribute-name lookups one render records.
pub open spec fn attrib_query_trace(resolution: RenderResolution) -> Seq<CommandView> {
    seq![
        CommandView::QueryAttribLocation { name: "a_position"@, result: resolution.position },
        CommandView::QueryAttribLocation { name: "a_normal"@, result: resolution.normal },
        CommandView::QueryAttribLocation { name: "a_tex_coords"@, result: resolution.tex_coords },
    ]
}

/// The enable-and-describe pair for one attribute slot, or nothing when
/// the array is inactive (zero bytes) or the name found no slot.
pub open spec fn pointer_segment(
    slot_reply: i32,
    components: u32,
    byte_offset: int,
    active: bool,
) -> Seq<CommandView> {
    if active && slot_reply >= 0 {
        seq![
            CommandView::EnableVertexAttribArray { slot: slot_reply as u32 },
            CommandView::VertexAttribPointer {
                slot: slot_reply as u32,
                components,
                stride: 0,
                byte_offset: byte_offset as u32,
            },
        ]
    } else {
        Seq::<CommandView>::empty()
    }
}

/// The slots one render enables, in enable order: the position slot when
/// it resolved, the normal slot when normals are present and it resolved,
/// the texcoord slot when texture coordinates are present and it resolved.
pub open spec fn render_attrib_slots(
    resolution: RenderResolution,
    normal_bytes: int,
    tex_bytes: int,
) -> Seq<u32> {
    (if resolution.position >= 0 {
        seq![resolution.position as u32]
    } else {
        Seq::<u32>::empty()
    }) + (if normal_bytes > 0 && resolution.normal >= 0 {
        seq![resolution.normal as u32]
    } else {
        Seq::<u32>::empty()
    }) + (if tex_bytes > 0 && resolution.tex_coords >= 0 {
        seq![resolution.tex_coords as u32]
    } else {
        Seq::<u32>::empty()
    })
}

/// The conversation the geometry pass of one render records: the three
/// attribute-name lookups, the bind, the attribute configurations of the
/// non-empty arrays that resolved, one instanced draw of all faces, and
/// the scope teardown.
pub open spec fn geometry_pass_trace(
    vertices: Seq<u32>,
    normals: Seq<u32>,
    tex_coords: Seq<u32>,
    faces: Seq<i32>,
    vao: u64,
    data: u64,
    indices: u64,
    resolution: RenderResolution,
    instance_count: u32,
) -> Seq<CommandView> {
    let vertex_bytes = 4 * vertices.len() as int;
    let normal_bytes = 4 * normals.len() as int;
    let tex_bytes = 4 * tex_coords.len() as int;
    attrib_query_trace(resolution) + bind_trace(vao, data, indices) + pointer_segment(
        resolution.position,
        3,
        0,
        true,
    ) + pointer_segment(resolution.normal, 3, vertex_bytes, normal_bytes > 0) + pointer_segment(
        resolution.tex_coords,
        2,
        vertex_bytes + normal_bytes,
        tex_bytes > 0,
    ) + seq![
        CommandView::DrawTrianglesInstanced {
            index_count: ((3 * (faces.len() as int / 3)) as u32),
            instance_count,
        },
    ] + teardown_trace(render_attrib_slots(resolution, normal_bytes, tex_bytes))
}

/// The whole conversation one render records; see the module
/// documentation.
pub open spec fn render_trace(
    vertices: Seq<u32>,
    normals: Seq<u32>,
    tex_coords: Seq<u32>,
    faces: Seq<i32>,
    vao: u64,
    data: u64,
    indices: u64,
    program_handle: u64,
    camera: Camera,
    resolution: RenderResolution,
    instance_count: u32,
) -> Seq<CommandView> {
    seq![
        CommandView::EnableDepthTest,
        CommandView::UseProgram { program: Some(program_handle) },
    ] + camera_query_trace("u_camera"@, resolution.camera) + camera_set_trace(
        camera,
        resolution.camera,
    ) + geometry_pass_trace(
        vertices,
        normals,
        tex_coords,
        faces,
        vao,
        data,
        indices,
        resolution,
        instance_count,
    ) + seq![CommandView::DisableDepthTest, CommandView::UseProgram { program: None }]
}

/// Collects geometry for a mesh: positions and faces up front, normals and
/// texture coordinates optional (empty when not added).
pub struct MeshBuilder {
    vertices: AttribArray3,
    normals: AttribArray3,
    tex_coords: AttribArray2,
    faces: FaceArray,
}

impl MeshBuilder {
    /// The collected positions.
    pub closed spec fn spec_vertices(&self) -> Seq<u32> {
        self.vertices.view_words()
    }

    /// The collected normals.
    pub closed spec fn spec_normals(&self) -> Seq<u32> {
        self.normals.view_words()
    }

    /// The collected texture coordinates.
    pub closed spec fn spec_tex_coords(&self) -> Seq<u32> {
        self.tex_coords.view_words()
    }

    /// The collected faces.
    pub closed spec fn spec_faces(&self) -> Seq<i32> {
        self.faces.view_indices()
    }

    /// Start from positions and faces; normals and texture coordinates
    /// start empty.
    pub fn new(vertices: AttribArray3, faces: FaceArray) -> (builder: MeshBuilder)
        ensures
            builder.spec_vertices() == vertices.view_words(),
            builder.spec_normals() =~= Seq::<u32>::empty(),
            builder.spec_tex_coords() =~= Seq::<u32>::empty(),
            builder.spec_faces() == faces.view_indices(),
    {
        MeshBuilder {
            vertices,
            normals: AttribArray3::empty(),
            tex_coords: AttribArray2::empty(),
            faces,
        }
    }

    /// Use the given normals.
    pub fn add_normals(self, normals: AttribArray3) -> (builder: MeshBuilder)
        ensures
            builder.spec_vertices() == self.spec_vertices(),
            builder.spec_normals() == normals.view_words(),
            builder.spec_tex_coords() == self.spec_tex_coords(),
            builder.spec_faces() == self.spec_faces(),
    {
        MeshBuilder { normals, ..self }
    }

    /// Use the given texture coordinates.
    pub fn add_tex_coords(self, tex_coords: AttribArray2) -> (builder: MeshBuilder)
        ensures
            builder.spec_vertices() == self.spec_vertices(),
            builder.spec_normals() == self.spec_normals(),
            builder.spec_tex_coords() == tex_coords.view_words(),
            builder.spec_faces() == self.spec_faces(),
    {
        MeshBuilder { tex_coords, ..self }
    }

    /// Allocate the GPU object and upload the collected geometry; see
    /// [`Mesh::try_new`].
    pub fn build(self, gl: &mut GL, replies: &AllocationReplies) -> (result: Result<Mesh, GLError>)
        requires
            old(gl).next_handle() + 3 <= u64::MAX,
            4 * (self.spec_vertices().len() + self.spec_normals().len()
                + self.spec_tex_coords().len()) <= MAX_BUFFER_BYTES,
        ensures
            final(gl).next_program_uid() == old(gl).next_program_uid(),
            result is Ok <==> replies.all_ok(),
            replies.all_ok() ==> (result matches Ok(mesh) && {
                &&& mesh.spec_vertices() == self.spec_vertices()
                &&& mesh.spec_normals() == self.spec_normals()
                &&& mesh.spec_tex_coords() == self.spec_tex_coords()
                &&& mesh.spec_faces() == self.spec_faces()
                &&& mesh.spec_vao() == old(gl).next_handle()
                &&& mesh.spec_data() == old(gl).next_handle() + 1
                &&& mesh.spec_indices() == old(gl).next_handle() + 2
                &&& final(gl).next_handle() == old(gl).next_handle() + 3
                &&& final(gl).trace() =~= old(gl).trace() + allocation_trace(
                    *replies,
                    old(gl).next_handle(),
                ) + mesh_upload_trace(
                    self.spec_vertices(),
                    self.spec_normals(),
                    self.spec_tex_coords(),
                    self.spec_faces(),
                    mesh.spec_vao(),
                    mesh.spec_data(),
                    mesh.spec_indices(),
                )
                &&& final(gl).state() == (DriverState {
                    bound_vertex_array: None,
                    bound_array_buffer: None,
                    bound_element_array_buffer: None,
                    ..old(gl).state()
                })
            }),
            !replies.all_ok() ==> (result matches Err(error) && error@ == GLErrorView::GLObjectError(
                if !replies.vertex_array {
                    GLObjectError::CreateVAOError
                } else {
                    GLObjectError::CreateBufferError
                },
            ) && final(gl).trace() =~= old(gl).trace() + allocation_trace(
                *replies,
                old(gl).next_handle(),
            ) && final(gl).state() == old(gl).state()),
    {
        Mesh::try_new(gl, replies, self.vertices, self.normals, self.tex_coords, self.faces)
    }
}

/// Geometry arrays and the GPU object that stores them; see the module
/// documentation.
pub struct Mesh {
    vertices: AttribArray3,
    normals: AttribArray3,
    tex_coords: AttribArray2,
    faces: FaceArray,
    object: GLObject,
}

impl Mesh {
    /// The whole interleaved layout fits the driver's addressing.
    #[verifier::type_invariant]
    spec fn wf(&self) -> bool {
        4 * (self.vertices.view_words().len() + self.normals.view_words().len()
            + self.tex_coords.view_words().len()) <= MAX_BUFFER_BYTES
    }

    /// The positions, column-major, one 3-word column per vertex.
    pub closed spec fn spec_vertices(&self) -> Seq<u32> {
        self.vertices.view_words()
    }

    /// The normals, column-major; empty when the mesh has none.
    pub closed spec fn spec_normals(&self) -> Seq<u32> {
        self.normals.view_words()
    }

    /// The texture coordinates, column-major; empty when the mesh has
    /// none.
    pub closed spec fn spec_tex_coords(&self) -> Seq<u32> {
        self.tex_coords.view_words()
    }

    /// The faces: three 0-based vertex indices per triangle.
    pub closed spec fn spec_faces(&self) -> Seq<i32> {
        self.faces.view_indices()
    }

    /// The owned object's vertex-array handle.
    pub closed spec fn spec_vao(&self) -> u64 {
        self.object.spec_vao()
    }

    /// The owned object's vertex-data buffer handle.
    pub closed spec fn spec_data(&self) -> u64 {
        self.object.spec_data()
    }

    /// The owned object's index buffer handle.
    pub closed spec fn spec_indices(&self) -> u64 {
        self.object.spec_indices()
    }

    /// How many faces the mesh draws.
    pub fn face_count(&self) -> (count: usize)
        ensures
            count == self.spec_faces().len() as int / 3,
    {
        self.faces.face_count()
    }

    /// Start collecting geometry for a mesh.
    pub fn new_builder(vertices: AttribArray3, faces: FaceArray) -> (builder: MeshBuilder)
        ensures
            builder.spec_vertices() == vertices.view_words(),
            builder.spec_normals() =~= Seq::<u32>::empty(),
            builder.spec_tex_coords() =~= Seq::<u32>::empty(),
            builder.spec_faces() == faces.view_indices(),
    {
        MeshBuilder::new(vertices, faces)
    }

    /// Allocate a GPU object and upload the interleaved layout: succeeds
    /// exactly when the driver grants all three handles, and then records
    /// exactly [`allocation_trace`] followed by [`mesh_upload_trace`]. A
    /// denied allocation reports which kind failed and uploads nothing.
    pub fn try_new(
        gl: &mut GL,
        replies: &AllocationReplies,
        vertices: AttribArray3,
        normals: AttribArray3,
        tex_coords: AttribArray2,
        faces: FaceArray,
    ) -> (result: Result<Mesh, GLError>)
        requires
            old(gl).next_handle() + 3 <= u64::MAX,
            4 * (vertices.view_words().len() + normals.view_words().len()
                + tex_coords.view_words().len()) <= MAX_BUFFER_BYTES,
        ensures
            final(gl).next_program_uid() == old(gl).next_program_uid(),
            result is Ok <==> replies.all_ok(),
            replies.all_ok() ==> (result matches Ok(mesh) && {
                &&& mesh.spec_vertices() == vertices.view_words()
                &&& mesh.spec_normals() == normals.view_words()
                &&& mesh.spec_tex_coords() == tex_coords.view_words()
                &&& mesh.spec_faces() == faces.view_indices()
                &&& mesh.spec_vao() == old(gl).next_handle()
                &&& mesh.spec_data() == old(gl).next_handle() + 1
                &&& mesh.spec_indices() == old(gl).next_handle() + 2
                &&& final(gl).next_handle() == old(gl).next_handle() + 3
                &&& final(gl).trace() =~= old(gl).trace() + allocation_trace(
                    *replies,
                    old(gl).next_handle(),
                ) + mesh_upload_trace(
                    vertices.view_words(),
                    normals.view_words(),
                    tex_coords.view_words(),
                    faces.view_indices(),
                    mesh.spec_vao(),
                    mesh.spec_data(),
                    mesh.spec_indices(),
                )
                &&& final(gl).state() == (DriverState {
                    bound_vertex_array: None,
                    bound_array_buffer: None,
                    bound_element_array_buffer: None,
                    ..old(gl).state()
                })
            }),
            !replies.all_ok() ==> (result matches Err(error) && error@ == GLErrorView::GLObjectError(
                if !replies.vertex_array {
                    GLObjectError::CreateVAOError
                } else {
                    GLObjectError::CreateBufferError
                },
            ) && final(gl).trace() =~= old(gl).trace() + allocation_trace(
                *replies,
                old(gl).next_handle(),
            ) && final(gl).state() == old(gl).state()),
    {
        let object = match GLObject::try_new(gl, replies) {
            Ok(object) => object,
            Err(error) => {
                return Err(GLError::from(error));
            },
        };
        let binded = object.bind(gl);
        let vertex_bytes = vertices.size_in_bytes();
        let normal_bytes = normals.size_in_bytes();
        let tex_bytes = tex_coords.size_in_bytes();
        binded.init_dyn_array_buffer(gl, vertex_bytes + normal_bytes + tex_bytes);
        binded.upload_sub_array(gl, &vertices, 0);
        binded.upload_sub_array(gl, &normals, vertex_bytes);
        binded.upload_sub_array(gl, &tex_coords, vertex_bytes + normal_bytes);
        binded.upload_static_elem_buffer(gl, &faces);
        binded.end(gl);
        proof {
            assert(old(gl).state().enabled_attributes.difference(
                Seq::<u32>::empty().to_set(),
            ) =~= old(gl).state().enabled_attributes);
        }
        Ok(Mesh { vertices, normals, tex_coords, faces, object })
    }

    /// Replace the geometry arrays — each with the same vertex count, the
    /// topology being static — and re-upload only the vertex payload; the
    /// index buffer is left alone. Records exactly [`mesh_update_trace`].
    pub fn update(
        &mut self,
        gl: &mut GL,
        vertices: AttribArray3,
        normals: AttribArray3,
        tex_coords: AttribArray2,
    )
        requires
            vertices.view_words().len() == old(self).spec_vertices().len(),
            normals.view_words().len() == old(self).spec_normals().len(),
            tex_coords.view_words().len() == old(self).spec_tex_coords().len(),
        ensures
            final(self).spec_vertices() == vertices.view_words(),
            final(self).spec_normals() == normals.view_words(),
            final(self).spec_tex_coords() == tex_coords.view_words(),
            final(self).spec_faces() == old(self).spec_faces(),
            final(self).spec_vao() == old(self).spec_vao(),
            final(self).spec_data() == old(self).spec_data(),
            final(self).spec_indices() == old(self).spec_indices(),
            final(gl).trace() =~= old(gl).trace() + mesh_update_trace(
                vertices.view_words(),
                normals.view_words(),
                tex_coords.view_words(),
                old(self).spec_vao(),
                old(self).spec_data(),
                old(self).spec_indices(),
            ),
            final(gl).state() == (DriverState {
                bound_vertex_array: None,
                bound_array_buffer: None,
                bound_element_array_buffer: None,
                ..old(gl).state()
            }),
            final(gl).next_handle() == old(gl).next_handle(),
            final(gl).next_program_uid() == old(gl).next_program_uid(),
    {
        proof {
            use_type_invariant(&*self);
        }
        self.vertices = vertices;
        self.normals = normals;
        self.tex_coords = tex_coords;
        let binded = self.object.bind(gl);
        let vertex_bytes = self.vertices.size_in_bytes();
        let normal_bytes = self.normals.size_in_bytes();
        binded.upload_sub_array(gl, &self.vertices, 0);
        binded.upload_sub_array(gl, &self.normals, vertex_bytes);
        binded.upload_sub_array(gl, &self.tex_coords, vertex_bytes + normal_bytes);
        binded.end(gl);
        proof {
            assert(old(gl).state().enabled_attributes.difference(
                Seq::<u32>::empty().to_set(),
            ) =~= old(gl).state().enabled_attributes);
        }
    }

    /// Draw the mesh with `shader` and `camera`: activate the depth test,
    /// open a use scope, resolve the camera uniform and the attribute
    /// names, open a bind scope, configure exactly the attribute slots of
    /// the non-empty arrays whose names resolved, issue one instanced
    /// draw of all faces, and close everything again. Records exactly
    /// [`render_trace`].
    pub fn render(
        &self,
        gl: &mut GL,
        shader: &ShaderProgram,
        camera: &Camera,
        resolution: &RenderResolution,
        instance_count: u32,
    )
        ensures
            final(gl).trace() =~= old(gl).trace() + render_trace(
                self.spec_vertices(),
                self.spec_normals(),
                self.spec_tex_coords(),
                self.spec_faces(),
                self.spec_vao(),
                self.spec_data(),
                self.spec_indices(),
                shader.as_gl_program(),
                *camera,
                *resolution,
                instance_count,
            ),
            final(gl).state() == (DriverState {
                bound_vertex_array: None,
                bound_array_buffer: None,
                bound_element_array_buffer: None,
                current_program: None,
                enabled_attributes: old(gl).state().enabled_attributes.difference(
                    render_attrib_slots(
                        *resolution,
                        4 * self.spec_normals().len() as int,
                        4 * self.spec_tex_coords().len() as int,
                    ).to_set(),
                ),
                depth_test: false,
            }),
            final(gl).next_handle() == old(gl).next_handle(),
            final(gl).next_program_uid() == old(gl).next_program_uid(),
    {
        gl.enable_depth_test();
        let shader_use = shader.use_program(gl);
        let u_camera = CameraUniformLocation::new(shader, gl, "u_camera", &resolution.camera);
        shader_use.set_uniform(gl, &u_camera, camera);
        self.geometry_pass(gl, &shader_use, resolution, instance_count);
        gl.disable_depth_test();
        shader_use.end(gl);
    }

    /// The geometry pass of one render: resolve the attribute names, open
    /// the bind scope, configure exactly the attribute slots of the
    /// non-empty arrays whose names resolved, and issue the instanced draw
    /// that tears the scope down again. Records exactly
    /// [`geometry_pass_trace`].
    #[verifier::rlimit(100)]
    fn geometry_pass(
        &self,
        gl: &mut GL,
        shader_use: &ShaderUseCtx<'_>,
        resolution: &RenderResolution,
        instance_count: u32,
    )
        requires
            shader_use.is_current(old(gl).state()),
        ensures
            final(gl).trace() =~= old(gl).trace() + geometry_pass_trace(
                self.spec_vertices(),
                self.spec_normals(),
                self.spec_tex_coords(),
                self.spec_faces(),
                self.spec_vao(),
                self.spec_data(),
                self.spec_indices(),
                *resolution,
                instance_count,
            ),
            final(gl).state() == (DriverState {
                bound_vertex_array: None,
                bound_array_buffer: None,
                bound_element_array_buffer: None,
                enabled_attributes: old(gl).state().enabled_attributes.difference(
                    render_attrib_slots(
                        *resolution,
                        4 * self.spec_normals().len() as int,
                        4 * self.spec_tex_coords().len() as int,
                    ).to_set(),
                ),
                ..old(gl).state()
            }),
            final(gl).next_handle() == old(gl).next_handle(),
            final(gl).next_program_uid() == old(gl).next_program_uid(),
    {
        proof {
            use_type_invariant(&*self);
            use_type_invariant(&self.faces);
        }
        let shader = shader_use.as_program();
        let a_position = shader.get_attrib_location(gl, "a_position", resolution.position);
        let a_normal = shader.get_attrib_location(gl, "a_normal", resolution.normal);
        let a_tex_coords = shader.get_attrib_location(gl, "a_tex_coords", resolution.tex_coords);
        let mut binded = self.object.bind(gl);
        let vertex_bytes = self.vertices.size_in_bytes();
        let normal_bytes = self.normals.size_in_bytes();
        let tex_bytes = self.tex_coords.size_in_bytes();
        binded.vertex_attrib_pointer(gl, &shader_use, a_position, 3, 0, 0);
        if normal_bytes > 0 {
            binded.vertex_attrib_pointer(gl, &shader_use, a_normal, 3, 0, vertex_bytes);
        }
        if tex_bytes > 0 {
            binded.vertex_attrib_pointer(
                gl,
                &shader_use,
                a_tex_coords,
                2,
                0,
                vertex_bytes + normal_bytes,
            );
        }
        let ghost slots = render_attrib_slots(
            *resolution,
            4 * self.spec_normals().len() as int,
            4 * self.spec_tex_coords().len() as int,
        );
        proof {
            assert(binded.enabled() =~= slots);
            if resolution.position >= 0 {
                assert(slots.contains(resolution.position as u32)) by {
                    assert(slots[0] == resolution.position as u32);
                }
            }
            if normal_bytes > 0 && resolution.normal >= 0 {
                assert(slots.contains(resolution.normal as u32)) by {
                    let at = if resolution.position >= 0 { 1int } else { 0int };
                    assert(slots[at] == resolution.normal as u32);
                }
            }
            if tex_bytes > 0 && resolution.tex_coords >= 0 {
                assert(slots.contains(resolution.tex_coords as u32)) by {
                    let at = (if resolution.position >= 0 { 1int } else { 0int })
                        + (if normal_bytes > 0 && resolution.normal >= 0 { 1int } else { 0int });
                    assert(slots[at] == resolution.tex_coords as u32);
                }
            }
        }
        let triangle_count = self.faces.face_count();
        proof {
            let n = self.faces.view_indices().len() as int;
            vstd::arithmetic::div_mod::lemma_fundamental_div_mod(n, 3);
            assert(3 * (n / 3) <= n);
            assert(3 * triangle_count <= MAX_BUFFER_BYTES);
        }
        binded.draw_triangles(gl, &shader_use, triangle_count, instance_count);
        proof {
            assert(gl.state().enabled_attributes =~= old(gl).state().enabled_attributes.difference(
                slots.to_set(),
            ));
        }
    }

    /// Release the owned GPU object. Consuming the mesh makes the release
    /// happen exactly once.
    pub fn delete(self, gl: &mut GL)
        ensures
            final(gl).trace() =~= old(gl).trace() + seq![
                CommandView::DeleteBuffer { buffer: self.spec_data() },
                CommandView::DeleteBuffer { buffer: self.spec_indices() },
                CommandView::DeleteVertexArray { vao: self.spec_vao() },
            ],
            final(gl).state() == old(gl).state(),
            final(gl).next_handle() == old(gl).next_handle(),
            final(gl).next_program_uid() == old(gl).next_program_uid(),
    {
        self.object.delete(gl);
    }
}


/// How one render's commands satisfy a condition that can only hold of
/// draw calls and attribute enables: one hit per enabled slot the
/// condition accepts, plus one for the draw if the condition accepts it.
/// Every other command of the render — queries, binds, uniform sets,
/// pointers, disables, unbinds, depth toggles — contributes nothing.
proof fn lemma_render_trace_count(
    vertices: Seq<u32>,
    normals: Seq<u32>,
    tex_coords: Seq<u32>,
    faces: Seq<i32>,
    vao: u64,
    data: u64,
    indices: u64,
    program_handle: u64,
    camera: Camera,
    resolution: RenderResolution,
    instance_count: u32,
    condition: spec_fn(CommandView) -> bool,
)
    requires
        forall|c: CommandView| #[trigger] condition(c) ==> (c is DrawTrianglesInstanced
            || c is EnableVertexAttribArray),
    ensures
        count_matching(
            render_trace(
                vertices,
                normals,
                tex_coords,
                faces,
                vao,
                data,
                indices,
                program_handle,
                camera,
                resolution,
                instance_count,
            ),
            condition,
        ) == (if resolution.position >= 0 && condition(
            CommandView::EnableVertexAttribArray { slot: resolution.position as u32 },
        ) {
            1int
        } else {
            0int
        }) + (if 4 * normals.len() > 0 && resolution.normal >= 0 && condition(
            CommandView::EnableVertexAttribArray { slot: resolution.normal as u32 },
        ) {
            1int
        } else {
            0int
        }) + (if 4 * tex_coords.len() > 0 && resolution.tex_coords >= 0 && condition(
            CommandView::EnableVertexAttribArray { slot: resolution.tex_coords as u32 },
        ) {
            1int
        } else {
            0int
        }) + (if condition(
            CommandView::DrawTrianglesInstanced {
                index_count: ((3 * (faces.len() as int / 3)) as u32),
                instance_count,
            },
        ) {
            1int
        } else {
            0int
        }),
{
    let vertex_bytes = 4 * vertices.len() as int;
    let normal_bytes = 4 * normals.len() as int;
    let tex_bytes = 4 * tex_coords.len() as int;
    let prologue = seq![
        CommandView::EnableDepthTest,
        CommandView::UseProgram { program: Some(program_handle) },
    ];
    let queries = camera_query_trace("u_camera"@, resolution.camera);
    let camera_sets = camera_set_trace(camera, resolution.camera);
    let geometry = geometry_pass_trace(
        vertices,
        normals,
        tex_coords,
        faces,
        vao,
        data,
        indices,
        resolution,
        instance_count,
    );
    let epilogue = seq![CommandView::DisableDepthTest, CommandView::UseProgram { program: None }];
    let attrib_queries = attrib_query_trace(resolution);
    let binds = bind_trace(vao, data, indices);
    let position_segment = pointer_segment(resolution.position, 3, 0, true);
    let normal_segment = pointer_segment(resolution.normal, 3, vertex_bytes, normal_bytes > 0);
    let tex_segment = pointer_segment(
        resolution.tex_coords,
        2,
        vertex_bytes + normal_bytes,
        tex_bytes > 0,
    );
    let draw = CommandView::DrawTrianglesInstanced {
        index_count: ((3 * (faces.len() as int / 3)) as u32),
        instance_count,
    };
    let teardown = teardown_trace(render_attrib_slots(resolution, normal_bytes, tex_bytes));
    lemma_count_matching_concat(
        prologue + queries + camera_sets + geometry,
        epilogue,
        condition,
    );
    lemma_count_matching_concat(prologue + queries + camera_sets, geometry, condition);
    lemma_count_matching_concat(prologue + queries, camera_sets, condition);
    lemma_count_matching_concat(prologue, queries, condition);
    lemma_count_matching_none(prologue, condition);
    lemma_count_matching_none(queries, condition);
    lemma_count_matching_none(camera_sets, condition);
    lemma_count_matching_none(epilogue, condition);
    lemma_count_matching_concat(
        attrib_queries + binds + position_segment + normal_segment + tex_segment + seq![draw],
        teardown,
        condition,
    );
    lemma_count_matching_concat(
        attrib_queries + binds + position_segment + normal_segment + tex_segment,
        seq![draw],
        condition,
    );
    lemma_count_matching_concat(
        attrib_queries + binds + position_segment + normal_segment,
        tex_segment,
        condition,
    );
    lemma_count_matching_concat(
        attrib_queries + binds + position_segment,
        normal_segment,
        condition,
    );
    lemma_count_matching_concat(attrib_queries + binds, position_segment, condition);
    lemma_count_matching_concat(attrib_queries, binds, condition);
    lemma_count_matching_none(attrib_queries, condition);
    lemma_count_matching_none(binds, condition);
    lemma_pointer_segment_count(resolution.position, 3, 0, true, condition);
    lemma_pointer_segment_count(resolution.normal, 3, vertex_bytes, normal_bytes > 0, condition);
    lemma_pointer_segment_count(
        resolution.tex_coords,
        2,
        vertex_bytes + normal_bytes,
        tex_bytes > 0,
        condition,
    );
    assert(count_matching(seq![draw], condition) == if condition(draw) {
        1int
    } else {
        0int
    }) by {
        reveal_with_fuel(count_matching, 2);
        assert(seq![draw].drop_last() =~= Seq::<CommandView>::empty());
    }
    lemma_teardown_count(render_attrib_slots(resolution, normal_bytes, tex_bytes), condition);
}

/// A pointer segment counts its enable call, when present and accepted.
proof fn lemma_pointer_segment_count(
    slot_reply: i32,
    components: u32,
    byte_offset: int,
    active: bool,
    condition: spec_fn(CommandView) -> bool,
)
    requires
        forall|c: CommandView| #[trigger] condition(c) ==> (c is DrawTrianglesInstanced
            || c is EnableVertexAttribArray),
    ensures
        count_matching(pointer_segment(slot_reply, components, byte_offset, active), condition)
            == if active && slot_reply >= 0 && condition(
            CommandView::EnableVertexAttribArray { slot: slot_reply as u32 },
        ) {
            1int
        } else {
            0int
        },
{
    let segment = pointer_segment(slot_reply, components, byte_offset, active);
    if active && slot_reply >= 0 {
        reveal_with_fuel(count_matching, 3);
        assert(segment.drop_last() =~= seq![
            CommandView::EnableVertexAttribArray { slot: slot_reply as u32 },
        ]);
        assert(segment.drop_last().drop_last() =~= Seq::<CommandView>::empty());
        assert(!condition(segment.last()));
    } else {
        lemma_count_matching_none(segment, condition);
    }
}

/// Teardown contributes nothing to a count of draws and enables: it only
/// disables and unbinds.
proof fn lemma_teardown_count(slots: Seq<u32>, condition: spec_fn(CommandView) -> bool)
    requires
        forall|c: CommandView| #[trigger] condition(c) ==> (c is DrawTrianglesInstanced
            || c is EnableVertexAttribArray),
    ensures
        count_matching(teardown_trace(slots), condition) == 0,
{
    assert forall|i: int| 0 <= i < teardown_trace(slots).len() implies !condition(
        #[trigger] teardown_trace(slots)[i],
    ) by {
        if i < slots.len() {
            assert(teardown_trace(slots)[i] == (CommandView::DisableVertexAttribArray {
                slot: slots[i],
            }));
        }
    }
    lemma_count_matching_none(teardown_trace(slots), condition);
}

/// One render issues exactly one draw call; it draws three indices per
/// face with the given instance multiplier, and the attribute slots it
/// enables are exactly those of [`render_attrib_slots`]: the non-empty
/// arrays whose names resolved, one enable each.
pub proof fn lemma_render_single_draw(
    vertices: Seq<u32>,
    normals: Seq<u32>,
    tex_coords: Seq<u32>,
    faces: Seq<i32>,
    vao: u64,
    data: u64,
    indices: u64,
    program_handle: u64,
    camera: Camera,
    resolution: RenderResolution,
    instance_count: u32,
)
    ensures
        count_matching(
            render_trace(
                vertices,
                normals,
                tex_coords,
                faces,
                vao,
                data,
                indices,
                program_handle,
                camera,
                resolution,
                instance_count,
            ),
            |c: CommandView| c is DrawTrianglesInstanced,
        ) == 1,
        count_matching(
            render_trace(
                vertices,
                normals,
                tex_coords,
                faces,
                vao,
                data,
                indices,
                program_handle,
                camera,
                resolution,
                instance_count,
            ),
            |c: CommandView| c == (CommandView::DrawTrianglesInstanced {
                index_count: ((3 * (faces.len() as int / 3)) as u32),
                instance_count,
            }),
        ) == 1,
        count_matching(
            render_trace(
                vertices,
                normals,
                tex_coords,
                faces,
                vao,
                data,
                indices,
                program_handle,
                camera,
                resolution,
                instance_count,
            ),
            |c: CommandView| c is EnableVertexAttribArray,
        ) == render_attrib_slots(
            resolution,
            4 * normals.len() as int,
            4 * tex_coords.len() as int,
        ).len(),
{
    lemma_render_trace_count(
        vertices,
        normals,
        tex_coords,
        faces,
        vao,
        data,
        indices,
        program_handle,
        camera,
        resolution,
        instance_count,
        |c: CommandView| c is DrawTrianglesInstanced,
    );
    lemma_render_trace_count(
        vertices,
        normals,
        tex_coords,
        faces,
        vao,
        data,
        indices,
        program_handle,
        camera,
        resolution,
        instance_count,
        |c: CommandView| c == (CommandView::DrawTrianglesInstanced {
            index_count: ((3 * (faces.len() as int / 3)) as u32),
            instance_count,
        }),
    );
    lemma_render_trace_count(
        vertices,
        normals,
        tex_coords,
        faces,
        vao,
        data,
        indices,
        program_handle,
        camera,
        resolution,
        instance_count,
        |c: CommandView| c is EnableVertexAttribArray,
    );
}

/// The interleaved layout's offsets: the positions upload lands at byte
/// zero, the normals upload lands at exactly the positions' byte size, and
/// the texture coordinates land right after the normals — recomputed from
/// the current array sizes, so a zero-length array contributes zero.
pub proof fn lemma_payload_layout(vertices: Seq<u32>, normals: Seq<u32>, tex_coords: Seq<u32>)
    ensures
        vertex_payload_trace(vertices, normals, tex_coords)[0] == (CommandView::UploadArraySubData {
            byte_offset: 0,
            words: vertices,
        }),
        vertex_payload_trace(vertices, normals, tex_coords)[1] == (CommandView::UploadArraySubData {
            byte_offset: ((4 * vertices.len()) as usize),
            words: normals,
        }),
        vertex_payload_trace(vertices, normals, tex_coords)[2] == (CommandView::UploadArraySubData {
            byte_offset: ((4 * (vertices.len() + normals.len())) as usize),
            words: tex_coords,
        }),
{
}

/// A mesh with zero-length texture coordinates never configures a texcoord
/// attribute when drawn: no two-component pointer is ever recorded,
/// whatever the driver replied to the name lookups.
pub proof fn lemma_render_skips_empty_texcoords(
    vertices: Seq<u32>,
    normals: Seq<u32>,
    tex_coords: Seq<u32>,
    faces: Seq<i32>,
    vao: u64,
    data: u64,
    indices: u64,
    program_handle: u64,
    camera: Camera,
    resolution: RenderResolution,
    instance_count: u32,
)
    requires
        tex_coords.len() == 0,
    ensures
        count_matching(
            render_trace(
                vertices,
                normals,
                tex_coords,
                faces,
                vao,
                data,
                indices,
                program_handle,
                camera,
                resolution,
                instance_count,
            ),
            |c: CommandView| c matches CommandView::VertexAttribPointer { components, .. }
                && components == 2,
        ) == 0,
{
    let condition = |c: CommandView| c matches CommandView::VertexAttribPointer { components, .. }
        && components == 2;
    let trace = render_trace(
        vertices,
        normals,
        tex_coords,
        faces,
        vao,
        data,
        indices,
        program_handle,
        camera,
        resolution,
        instance_count,
    );
    assert forall|i: int| 0 <= i < trace.len() implies !condition(#[trigger] trace[i]) by {
        let vertex_bytes = 4 * vertices.len() as int;
        let normal_bytes = 4 * normals.len() as int;
        let slots = render_attrib_slots(resolution, normal_bytes, 0);
        if i < trace.len() {
            let teardown = teardown_trace(slots);
            let offset = trace.len() - 2 - teardown.len();
            if offset <= i < offset + teardown.len() {
                if i - offset < slots.len() {
                    assert(teardown[i - offset] == (CommandView::DisableVertexAttribArray {
                        slot: slots[i - offset],
                    }));
                }
            }
        }
    }
    lemma_count_matching_none(trace, condition);
}

/// An update that hands back the arrays a mesh was built from re-uploads
/// byte-for-byte the same vertex payload the construction uploaded: the
/// three sub-range uploads of [`mesh_update_trace`] equal those of
/// [`mesh_upload_trace`].
pub proof fn lemma_update_repeats_build_payload(
    vertices: Seq<u32>,
    normals: Seq<u32>,
    tex_coords: Seq<u32>,
    faces: Seq<i32>,
    vao: u64,
    data: u64,
    indices: u64,
)
    ensures
        mesh_update_trace(vertices, normals, tex_coords, vao, data, indices).subrange(3, 6)
            =~= mesh_upload_trace(vertices, normals, tex_coords, faces, vao, data, indices)
            .subrange(4, 7),
        mesh_update_trace(vertices, normals, tex_coords, vao, data, indices).subrange(3, 6)
            =~= vertex_payload_trace(vertices, normals, tex_coords),
{
}

} // verus!
