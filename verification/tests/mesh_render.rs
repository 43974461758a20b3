use glcore::camera::{Camera, CameraLocationReplies};
use glcore::command::GlCommand;
use glcore::context::GL;
use glcore::geometry::{AttribArray2, AttribArray3, FaceArray, SizeInBytes};
use glcore::gl_error::GLError;
use glcore::mesh::{Mesh, RenderResolution};
use glcore::object::{AllocationReplies, GLObjectError};
use glcore::program::{LinkReply, ShaderProgram, StageReply};
use glcore::shader_error::ShaderError;
use glcore::shader_type::ShaderType;
use glcore::uniform_value::Mat4Value;

fn words_of(values: &[f32]) -> Vec<u32> {
    values.iter().map(|v| v.to_bits()).collect()
}

/// The eight corners of a unit cube, column-major.
fn cube_positions() -> AttribArray3 {
    let mut corners: Vec<f32> = Vec::new();
    for x in [0.0f32, 1.0] {
        for y in [0.0f32, 1.0] {
            for z in [0.0f32, 1.0] {
                corners.extend([x, y, z]);
            }
        }
    }
    AttribArray3::new(words_of(&corners))
}

/// Twelve triangular faces covering the cube, two per side.
fn cube_faces() -> FaceArray {
    FaceArray::new(vec![
        0, 1, 3, 0, 3, 2, 4, 6, 7, 4, 7, 5, 0, 4, 5, 0, 5, 1, 2, 3, 7, 2, 7, 6, 0, 2, 6, 0, 6, 4,
        1, 5, 7, 1, 7, 3,
    ])
}

/// Placeholder unit normals, one per cube corner.
fn cube_normals() -> AttribArray3 {
    let mut values: Vec<f32> = Vec::new();
    for _ in 0..8 {
        values.extend([0.0f32, 1.0, 0.0]);
    }
    AttribArray3::new(words_of(&values))
}

fn linked_program(gl: &mut GL) -> ShaderProgram {
    ShaderProgram::builder()
        .add_source(ShaderType::Vertex, String::from("void main() {}"))
        .add_source(ShaderType::Fragment, String::from("void main() {}"))
        .build(gl, &vec![StageReply::ok(), StageReply::ok()], &LinkReply::ok())
        .unwrap()
}

fn identity_camera() -> Camera {
    let mut words = [0u32; 16];
    for i in 0..4 {
        words[i * 5] = 1.0f32.to_bits();
    }
    Camera {
        model: Mat4Value { words },
        view: Mat4Value { words },
        projection: Mat4Value { words },
    }
}

fn full_resolution() -> RenderResolution {
    RenderResolution {
        camera: CameraLocationReplies { model: Some(1), view: Some(2), projection: Some(3) },
        position: 0,
        normal: 1,
        tex_coords: 2,
    }
}

fn sub_uploads(commands: &[GlCommand]) -> Vec<(usize, Vec<u32>)> {
    commands
        .iter()
        .filter_map(|c| match c {
            GlCommand::UploadArraySubData { byte_offset, words } => {
                Some((*byte_offset, words.clone()))
            }
            _ => None,
        })
        .collect()
}

#[test]
fn mesh_build_uploads_the_interleaved_layout() {
    let mut gl = GL::new();
    let positions = cube_positions();
    let normals = cube_normals();
    let position_words = words_of(&[0.0; 24]).len();
    assert_eq!(positions.size_in_bytes(), 4 * position_words);
    let mesh = Mesh::new_builder(cube_positions(), cube_faces())
        .add_normals(cube_normals())
        .build(&mut gl, &AllocationReplies::all_granted())
        .unwrap();
    assert_eq!(mesh.face_count(), 12);
    let commands = gl.commands();
    let alloc: Vec<usize> = commands
        .iter()
        .filter_map(|c| match c {
            GlCommand::AllocateArrayData { byte_size } => Some(*byte_size),
            _ => None,
        })
        .collect();
    assert_eq!(alloc, vec![positions.size_in_bytes() + normals.size_in_bytes()]);
    let uploads = sub_uploads(commands);
    assert_eq!(uploads.len(), 3);
    assert_eq!(uploads[0].0, 0);
    let mut corner_values: Vec<f32> = Vec::new();
    for x in [0.0f32, 1.0] {
        for y in [0.0f32, 1.0] {
            for z in [0.0f32, 1.0] {
                corner_values.extend([x, y, z]);
            }
        }
    }
    assert_eq!(uploads[0].1, words_of(&corner_values));
    assert_eq!(uploads[1].0, positions.size_in_bytes());
    assert_eq!(uploads[2].0, positions.size_in_bytes() + normals.size_in_bytes());
    assert!(uploads[2].1.is_empty());
    let elem: Vec<&Vec<i32>> = commands
        .iter()
        .filter_map(|c| match c {
            GlCommand::UploadElementData { indices } => Some(indices),
            _ => None,
        })
        .collect();
    assert_eq!(elem.len(), 1);
    assert_eq!(elem[0].len(), 36);
}

#[test]
fn mesh_build_fails_when_the_driver_denies_a_handle() {
    let mut gl = GL::new();
    let replies = AllocationReplies { vertex_array: false, data_buffer: true, index_buffer: true };
    let result = Mesh::new_builder(cube_positions(), cube_faces()).build(&mut gl, &replies);
    assert!(matches!(
        result,
        Err(GLError::GLObjectError(GLObjectError::CreateVAOError))
    ));
    assert!(!gl.commands().iter().any(|c| matches!(c, GlCommand::BindVertexArray { .. })));
}

#[test]
fn empty_texcoords_contribute_no_offset_and_no_attribute() {
    let mut gl = GL::new();
    let positions = cube_positions();
    let mesh = Mesh::new_builder(cube_positions(), cube_faces())
        .add_normals(cube_normals())
        .build(&mut gl, &AllocationReplies::all_granted())
        .unwrap();
    let uploads = sub_uploads(gl.commands());
    // The normals land at exactly the positions' byte size.
    assert_eq!(uploads[1].0, positions.size_in_bytes());
    // Rendering never configures the two-component texcoord attribute.
    let program = linked_program(&mut gl);
    mesh.render(&mut gl, &program, &identity_camera(), &full_resolution(), 1);
    let two_component_pointers = gl
        .commands()
        .iter()
        .filter(|c| matches!(c, GlCommand::VertexAttribPointer { components: 2, .. }))
        .count();
    assert_eq!(two_component_pointers, 0);
}

#[test]
fn cube_render_issues_one_draw_of_twelve_faces_with_two_attributes() {
    let mut gl = GL::new();
    let mesh = Mesh::new_builder(cube_positions(), cube_faces())
        .add_normals(cube_normals())
        .build(&mut gl, &AllocationReplies::all_granted())
        .unwrap();
    let program = linked_program(&mut gl);
    let before = gl.command_count();
    mesh.render(&mut gl, &program, &identity_camera(), &full_resolution(), 3);
    let rendered = &gl.commands()[before..];
    let draws: Vec<(u32, u32)> = rendered
        .iter()
        .filter_map(|c| match c {
            GlCommand::DrawTrianglesInstanced { index_count, instance_count } => {
                Some((*index_count, *instance_count))
            }
            _ => None,
        })
        .collect();
    assert_eq!(draws, vec![(36, 3)]);
    let enables = rendered
        .iter()
        .filter(|c| matches!(c, GlCommand::EnableVertexAttribArray { .. }))
        .count();
    assert_eq!(enables, 2);
    let disables = rendered
        .iter()
        .filter(|c| matches!(c, GlCommand::DisableVertexAttribArray { .. }))
        .count();
    assert_eq!(disables, 2);
    // The scopes close in reverse order of opening and the depth test ends
    // off: the render leaves a clean slate.
    assert!(matches!(rendered.first(), Some(GlCommand::EnableDepthTest)));
    assert!(matches!(
        rendered[rendered.len() - 2],
        GlCommand::DisableDepthTest
    ));
    assert!(matches!(rendered[rendered.len() - 1], GlCommand::UseProgram { program: None }));
    // The camera bundle reached all three dotted slots.
    let matrix_sets = rendered
        .iter()
        .filter(|c| matches!(c, GlCommand::UniformMatrix4f { .. }))
        .count();
    assert_eq!(matrix_sets, 3);
}

#[test]
fn update_with_unchanged_arrays_reuploads_the_same_payload() {
    let mut gl = GL::new();
    let mut mesh = Mesh::new_builder(cube_positions(), cube_faces())
        .add_normals(cube_normals())
        .build(&mut gl, &AllocationReplies::all_granted())
        .unwrap();
    let built = sub_uploads(gl.commands());
    let before = gl.command_count();
    mesh.update(&mut gl, cube_positions(), cube_normals(), AttribArray2::empty());
    let updated = sub_uploads(&gl.commands()[before..]);
    assert_eq!(built, updated);
    // The index buffer is left alone by an update.
    assert!(!gl.commands()[before..]
        .iter()
        .any(|c| matches!(c, GlCommand::UploadElementData { .. })));
}

#[test]
fn every_failure_converts_into_the_top_level_error() {
    let from_object = GLError::from(GLObjectError::CreateBufferError);
    assert!(matches!(
        from_object,
        GLError::GLObjectError(GLObjectError::CreateBufferError)
    ));
    let from_shader = GLError::from(ShaderError::ProgramCreateError);
    assert!(matches!(from_shader, GLError::ShaderError(ShaderError::ProgramCreateError)));
}

#[test]
fn update_uploads_changed_positions_verbatim() {
    let mut gl = GL::new();
    let mut mesh = Mesh::new_builder(cube_positions(), cube_faces())
        .add_normals(cube_normals())
        .build(&mut gl, &AllocationReplies::all_granted())
        .unwrap();
    let mut moved: Vec<f32> = Vec::new();
    for i in 0..24 {
        moved.push(i as f32 * 0.5);
    }
    let before = gl.command_count();
    mesh.update(
        &mut gl,
        AttribArray3::new(words_of(&moved)),
        cube_normals(),
        AttribArray2::empty(),
    );
    let uploads = sub_uploads(&gl.commands()[before..]);
    assert_eq!(uploads[0].1, words_of(&moved));
}
