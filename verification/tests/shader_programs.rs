use glcore::command::GlCommand;
use glcore::camera::{Camera, CameraLocationReplies, CameraUniformLocation};
use glcore::context::GL;
use glcore::locations::UniformLocation;
use glcore::program::{LinkReply, ShaderProgram, StageReply};
use glcore::shader_error::{simple_shader_type_name, ShaderError};
use glcore::shader_type::{ShaderType, GL_FRAGMENT_SHADER, GL_VERTEX_SHADER};
use glcore::uniform_value::{Mat4Value, ScalarValue, Vec2Value, Vec3Value};

fn sources() -> Vec<(ShaderType, String)> {
    vec![
        (ShaderType::Vertex, String::from("void main() {}")),
        (ShaderType::Fragment, String::from("void main() {}")),
    ]
}

#[test]
fn build_succeeds_when_every_stage_compiles_and_links() {
    let mut gl = GL::new();
    let result = ShaderProgram::new(
        &mut gl,
        &sources(),
        &vec![StageReply::ok(), StageReply::ok()],
        &LinkReply::ok(),
    );
    assert!(result.is_ok());
    let commands = gl.commands();
    let creates = commands
        .iter()
        .filter(|c| matches!(c, GlCommand::CreateShader { .. }))
        .count();
    let links = commands
        .iter()
        .filter(|c| matches!(c, GlCommand::LinkProgram { .. }))
        .count();
    let deletes = commands
        .iter()
        .filter(|c| matches!(c, GlCommand::DeleteShader { .. }))
        .count();
    assert_eq!(creates, 2);
    assert_eq!(links, 1);
    assert_eq!(deletes, 2);
}

#[test]
fn build_ids_are_process_unique_and_increasing() {
    let mut gl = GL::new();
    let first = ShaderProgram::new(
        &mut gl,
        &sources(),
        &vec![StageReply::ok(), StageReply::ok()],
        &LinkReply::ok(),
    )
    .unwrap();
    let second = ShaderProgram::new(
        &mut gl,
        &sources(),
        &vec![StageReply::ok(), StageReply::ok()],
        &LinkReply::ok(),
    )
    .unwrap();
    assert_eq!(first.uid(), 0);
    assert_eq!(second.uid(), 1);
}

#[test]
fn build_aborts_at_denied_stage_object() {
    let mut gl = GL::new();
    let replies = vec![
        StageReply { created: false, compile_ok: false, info_log: None },
        StageReply::ok(),
    ];
    let result = ShaderProgram::new(&mut gl, &sources(), &replies, &LinkReply::ok());
    assert!(matches!(result, Err(ShaderError::ShaderCreateError(ShaderType::Vertex))));
    let commands = gl.commands();
    assert!(!commands.iter().any(|c| matches!(c, GlCommand::CreateProgram { .. })));
    let creates = commands
        .iter()
        .filter(|c| matches!(c, GlCommand::CreateShader { .. }))
        .count();
    assert_eq!(creates, 1);
}

#[test]
fn build_reports_the_failing_stage_and_its_log() {
    let mut gl = GL::new();
    let replies = vec![
        StageReply::ok(),
        StageReply {
            created: true,
            compile_ok: false,
            info_log: Some(String::from("syntax error in fragment stage")),
        },
    ];
    let result = ShaderProgram::new(&mut gl, &sources(), &replies, &LinkReply::ok());
    match result {
        Err(ShaderError::CompileError(log, kind)) => {
            assert_eq!(log, "syntax error in fragment stage");
            assert!(matches!(kind, ShaderType::Fragment));
        }
        other => panic!("expected a compile error, got {:?}", other),
    }
    assert!(!gl.commands().iter().any(|c| matches!(c, GlCommand::LinkProgram { .. })));
}

#[test]
fn build_falls_back_to_the_unknown_error_text() {
    let mut gl = GL::new();
    let replies = vec![
        StageReply { created: true, compile_ok: false, info_log: None },
        StageReply::ok(),
    ];
    match ShaderProgram::new(&mut gl, &sources(), &replies, &LinkReply::ok()) {
        Err(ShaderError::CompileError(log, _)) => assert_eq!(log, "Unknown error"),
        other => panic!("expected a compile error, got {:?}", other),
    }
}

#[test]
fn build_reports_a_denied_program_object() {
    let mut gl = GL::new();
    let link = LinkReply { created: false, link_ok: false, info_log: None };
    let result = ShaderProgram::new(
        &mut gl,
        &sources(),
        &vec![StageReply::ok(), StageReply::ok()],
        &link,
    );
    assert!(matches!(result, Err(ShaderError::ProgramCreateError)));
}

#[test]
fn build_reports_a_failed_link_with_its_log() {
    let mut gl = GL::new();
    let link = LinkReply {
        created: true,
        link_ok: false,
        info_log: Some(String::from("unresolved varying")),
    };
    match ShaderProgram::new(&mut gl, &sources(), &vec![StageReply::ok(), StageReply::ok()], &link)
    {
        Err(ShaderError::LinkError(log)) => assert_eq!(log, "unresolved varying"),
        other => panic!("expected a link error, got {:?}", other),
    }
}

fn linked_program(gl: &mut GL) -> ShaderProgram {
    ShaderProgram::new(
        gl,
        &sources(),
        &vec![StageReply::ok(), StageReply::ok()],
        &LinkReply::ok(),
    )
    .unwrap()
}

#[test]
fn set_uniform_on_an_invalid_location_issues_no_driver_call() {
    let mut gl = GL::new();
    let program = linked_program(&mut gl);
    let shader_use = program.use_program(&mut gl);
    let location = program.get_uniform_location::<ScalarValue>(&mut gl, "u_strength", None);
    assert!(!location.is_valid());
    let before = gl.command_count();
    shader_use.set_uniform(&mut gl, &location, &ScalarValue { word: 0x3f800000 });
    assert_eq!(gl.command_count(), before);
    shader_use.end(&mut gl);
}

#[test]
fn set_uniform_dispatches_each_shape_to_its_own_setter() {
    let mut gl = GL::new();
    let program = linked_program(&mut gl);
    let shader_use = program.use_program(&mut gl);
    let scalar = program.get_uniform_location::<ScalarValue>(&mut gl, "u_scalar", Some(10));
    let pair = program.get_uniform_location::<Vec2Value>(&mut gl, "u_pair", Some(11));
    let triple = program.get_uniform_location::<Vec3Value>(&mut gl, "u_triple", Some(12));
    let matrix = program.get_uniform_location::<Mat4Value>(&mut gl, "u_matrix", Some(13));
    let before = gl.command_count();
    shader_use.set_uniform(&mut gl, &scalar, &ScalarValue { word: 1 });
    shader_use.set_uniform(&mut gl, &pair, &Vec2Value { words: [2, 3] });
    shader_use.set_uniform(&mut gl, &triple, &Vec3Value { words: [4, 5, 6] });
    shader_use.set_uniform(&mut gl, &matrix, &Mat4Value { words: [7; 16] });
    let commands = gl.commands();
    assert!(matches!(commands[before], GlCommand::Uniform1f { location: 10, word: 1 }));
    assert!(
        matches!(commands[before + 1], GlCommand::Uniform2f { location: 11, words } if words == [2, 3])
    );
    assert!(
        matches!(commands[before + 2], GlCommand::Uniform3f { location: 12, words } if words == [4, 5, 6])
    );
    assert!(
        matches!(commands[before + 3], GlCommand::UniformMatrix4f { location: 13, words } if words == [7; 16])
    );
    shader_use.end(&mut gl);
}

#[test]
fn camera_location_resolves_dotted_names() {
    let mut gl = GL::new();
    let program = linked_program(&mut gl);
    let before = gl.command_count();
    let replies = CameraLocationReplies { model: Some(1), view: Some(2), projection: Some(3) };
    let location = CameraUniformLocation::new(&program, &mut gl, "u_camera", &replies);
    assert!(location.is_valid());
    let commands = gl.commands();
    assert!(
        matches!(&commands[before], GlCommand::QueryUniformLocation { name, result: Some(1) } if name == "u_camera.model")
    );
    assert!(
        matches!(&commands[before + 1], GlCommand::QueryUniformLocation { name, result: Some(2) } if name == "u_camera.view")
    );
    assert!(
        matches!(&commands[before + 2], GlCommand::QueryUniformLocation { name, result: Some(3) } if name == "u_camera.projection")
    );
}

#[test]
fn camera_with_a_missing_constituent_is_invalid_and_sets_nothing() {
    let mut gl = GL::new();
    let program = linked_program(&mut gl);
    let shader_use = program.use_program(&mut gl);
    let replies = CameraLocationReplies { model: Some(1), view: None, projection: Some(3) };
    let location = CameraUniformLocation::new(&program, &mut gl, "u_camera", &replies);
    assert!(!location.is_valid());
    let camera = Camera {
        model: Mat4Value { words: [0; 16] },
        view: Mat4Value { words: [0; 16] },
        projection: Mat4Value { words: [0; 16] },
    };
    let before = gl.command_count();
    shader_use.set_uniform(&mut gl, &location, &camera);
    assert_eq!(gl.command_count(), before);
    shader_use.end(&mut gl);
}

#[test]
fn camera_set_pushes_all_three_matrices() {
    let mut gl = GL::new();
    let program = linked_program(&mut gl);
    let shader_use = program.use_program(&mut gl);
    let replies = CameraLocationReplies { model: Some(1), view: Some(2), projection: Some(3) };
    let location = CameraUniformLocation::new(&program, &mut gl, "u_camera", &replies);
    let camera = Camera {
        model: Mat4Value { words: [1; 16] },
        view: Mat4Value { words: [2; 16] },
        projection: Mat4Value { words: [3; 16] },
    };
    let before = gl.command_count();
    shader_use.set_uniform(&mut gl, &location, &camera);
    let commands = gl.commands();
    assert_eq!(commands.len(), before + 3);
    assert!(
        matches!(commands[before], GlCommand::UniformMatrix4f { location: 1, words } if words == [1; 16])
    );
    assert!(
        matches!(commands[before + 1], GlCommand::UniformMatrix4f { location: 2, words } if words == [2; 16])
    );
    assert!(
        matches!(commands[before + 2], GlCommand::UniformMatrix4f { location: 3, words } if words == [3; 16])
    );
    shader_use.end(&mut gl);
}

#[test]
fn use_scope_clears_the_current_program_on_exit() {
    let mut gl = GL::new();
    let program = linked_program(&mut gl);
    let shader_use = program.use_program(&mut gl);
    assert!(matches!(
        gl.commands().last(),
        Some(GlCommand::UseProgram { program: Some(_) })
    ));
    shader_use.end(&mut gl);
    assert!(matches!(gl.commands().last(), Some(GlCommand::UseProgram { program: None })));
}

#[test]
fn stage_kinds_map_to_their_driver_codes_and_names() {
    assert_eq!(ShaderType::Vertex.to_gl_type(), GL_VERTEX_SHADER);
    assert_eq!(ShaderType::Fragment.to_gl_type(), GL_FRAGMENT_SHADER);
    assert_eq!(ShaderType::Vertex.to_gl_type(), 0x8B31);
    assert_eq!(ShaderType::Fragment.to_gl_type(), 0x8B30);
    assert_eq!(simple_shader_type_name(&ShaderType::Vertex), "vertex");
    assert_eq!(simple_shader_type_name(&ShaderType::Fragment), "fragment");
}
