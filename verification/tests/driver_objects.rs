use glcore::command::GlCommand;
use glcore::context::GL;
use glcore::locations::AttribLocation;
use glcore::object::{AllocationReplies, GLObject, GLObjectError};
use glcore::program::{LinkReply, ShaderProgram, StageReply};
use glcore::shader_type::ShaderType;

/// A tiny independent interpreter of the recorded driver calls, tracking
/// the binding state a real driver would be left in.
struct DriverSim {
    bound_vertex_array: Option<u64>,
    bound_array_buffer: Option<u64>,
    bound_element_array_buffer: Option<u64>,
    current_program: Option<u64>,
    enabled: Vec<u32>,
    depth_test: bool,
    disable_calls: Vec<u32>,
}

impl DriverSim {
    fn run(commands: &[GlCommand]) -> DriverSim {
        let mut sim = DriverSim {
            bound_vertex_array: None,
            bound_array_buffer: None,
            bound_element_array_buffer: None,
            current_program: None,
            enabled: Vec::new(),
            depth_test: false,
            disable_calls: Vec::new(),
        };
        for command in commands {
            match command {
                GlCommand::BindVertexArray { vao } => sim.bound_vertex_array = *vao,
                GlCommand::BindArrayBuffer { buffer } => sim.bound_array_buffer = *buffer,
                GlCommand::BindElementArrayBuffer { buffer } => {
                    sim.bound_element_array_buffer = *buffer
                }
                GlCommand::UseProgram { program } => sim.current_program = *program,
                GlCommand::EnableVertexAttribArray { slot } => {
                    if !sim.enabled.contains(slot) {
                        sim.enabled.push(*slot);
                    }
                }
                GlCommand::DisableVertexAttribArray { slot } => {
                    sim.enabled.retain(|s| s != slot);
                    sim.disable_calls.push(*slot);
                }
                GlCommand::EnableDepthTest => sim.depth_test = true,
                GlCommand::DisableDepthTest => sim.depth_test = false,
                _ => {}
            }
        }
        sim
    }
}

fn build_program(gl: &mut GL) -> ShaderProgram {
    ShaderProgram::builder()
        .add_source(ShaderType::Vertex, String::from("void main() {}"))
        .add_source(ShaderType::Fragment, String::from("void main() {}"))
        .build(gl, &vec![StageReply::ok(), StageReply::ok()], &LinkReply::ok())
        .expect("a fully granted build succeeds")
}

#[test]
fn fresh_context_records_nothing() {
    let gl = GL::new();
    assert_eq!(gl.command_count(), 0);
    assert!(gl.commands().is_empty());
}

#[test]
fn object_allocation_grants_three_distinct_handles() {
    let mut gl = GL::new();
    let object = GLObject::try_new(&mut gl, &AllocationReplies::all_granted()).unwrap();
    assert_ne!(object.vao(), object.data());
    assert_ne!(object.vao(), object.indices());
    assert_ne!(object.data(), object.indices());
    let commands = gl.commands();
    assert_eq!(commands.len(), 3);
    assert!(matches!(commands[0], GlCommand::CreateVertexArray { result: Some(_) }));
    assert!(matches!(commands[1], GlCommand::CreateBuffer { result: Some(_) }));
    assert!(matches!(commands[2], GlCommand::CreateBuffer { result: Some(_) }));
}

#[test]
fn object_allocation_fails_fast_on_denied_vertex_array() {
    let mut gl = GL::new();
    let replies = AllocationReplies { vertex_array: false, data_buffer: true, index_buffer: true };
    let result = GLObject::try_new(&mut gl, &replies);
    assert!(matches!(result, Err(GLObjectError::CreateVAOError)));
    let commands = gl.commands();
    assert_eq!(commands.len(), 1);
    assert!(matches!(commands[0], GlCommand::CreateVertexArray { result: None }));
}

#[test]
fn object_allocation_reports_denied_buffer() {
    let mut gl = GL::new();
    let replies = AllocationReplies { vertex_array: true, data_buffer: false, index_buffer: true };
    assert!(matches!(
        GLObject::try_new(&mut gl, &replies),
        Err(GLObjectError::CreateBufferError)
    ));
    let replies = AllocationReplies { vertex_array: true, data_buffer: true, index_buffer: false };
    assert!(matches!(
        GLObject::try_new(&mut gl, &replies),
        Err(GLObjectError::CreateBufferError)
    ));
}

#[test]
fn object_delete_releases_all_three_handles() {
    let mut gl = GL::new();
    let object = GLObject::try_new(&mut gl, &AllocationReplies::all_granted()).unwrap();
    let (vao, data, indices) = (object.vao(), object.data(), object.indices());
    let before = gl.command_count();
    object.delete(&mut gl);
    let commands = gl.commands();
    assert_eq!(commands.len(), before + 3);
    assert!(matches!(commands[before], GlCommand::DeleteBuffer { buffer } if buffer == data));
    assert!(matches!(commands[before + 1], GlCommand::DeleteBuffer { buffer } if buffer == indices));
    assert!(matches!(commands[before + 2], GlCommand::DeleteVertexArray { vao: v } if v == vao));
}

#[test]
fn bind_scope_makes_the_object_current() {
    let mut gl = GL::new();
    let object = GLObject::try_new(&mut gl, &AllocationReplies::all_granted()).unwrap();
    let scope = object.bind(&mut gl);
    let sim = DriverSim::run(gl.commands());
    assert_eq!(sim.bound_vertex_array, Some(object.vao()));
    assert_eq!(sim.bound_array_buffer, Some(object.data()));
    assert_eq!(sim.bound_element_array_buffer, Some(object.indices()));
    scope.end(&mut gl);
}

#[test]
fn bind_scope_teardown_disables_each_slot_once_and_clears_bindings() {
    let mut gl = GL::new();
    let program = build_program(&mut gl);
    let object = GLObject::try_new(&mut gl, &AllocationReplies::all_granted()).unwrap();
    let shader_use = program.use_program(&mut gl);
    let a_first = program.get_attrib_location(&mut gl, "a_first", 0);
    let a_second = program.get_attrib_location(&mut gl, "a_second", 1);
    let mut scope = object.bind(&mut gl);
    scope.vertex_attrib_pointer(&mut gl, &shader_use, a_first, 3, 0, 0);
    scope.vertex_attrib_pointer(&mut gl, &shader_use, a_second, 3, 0, 12);
    scope.end(&mut gl);
    shader_use.end(&mut gl);
    let sim = DriverSim::run(gl.commands());
    assert_eq!(sim.bound_vertex_array, None);
    assert_eq!(sim.bound_array_buffer, None);
    assert_eq!(sim.bound_element_array_buffer, None);
    assert!(sim.enabled.is_empty());
    assert_eq!(sim.disable_calls.iter().filter(|s| **s == 0).count(), 1);
    assert_eq!(sim.disable_calls.iter().filter(|s| **s == 1).count(), 1);
}

#[test]
fn unresolved_attribute_configures_nothing() {
    let mut gl = GL::new();
    let program = build_program(&mut gl);
    let object = GLObject::try_new(&mut gl, &AllocationReplies::all_granted()).unwrap();
    let shader_use = program.use_program(&mut gl);
    let missing = program.get_attrib_location(&mut gl, "a_missing", -1);
    let mut scope = object.bind(&mut gl);
    let before = gl.command_count();
    scope.vertex_attrib_pointer(&mut gl, &shader_use, missing, 3, 0, 0);
    assert_eq!(gl.command_count(), before);
    scope.end(&mut gl);
    shader_use.end(&mut gl);
    let sim = DriverSim::run(gl.commands());
    assert!(sim.disable_calls.is_empty());
}

#[test]
fn attribute_location_is_guarded_by_program_identity() {
    let mut gl = GL::new();
    let program_a = build_program(&mut gl);
    let program_b = build_program(&mut gl);
    assert_ne!(program_a.uid(), program_b.uid());
    let location = program_a.get_attrib_location(&mut gl, "a_position", 7);
    assert_eq!(location.try_inner_for(&program_a), Some(7));
    assert_eq!(location.try_inner_for(&program_b), None);
    let direct = AttribLocation::new(&program_b, 5);
    assert_eq!(direct.try_inner_for(&program_b), Some(5));
    assert_eq!(direct.try_inner_for(&program_a), None);
}

#[test]
fn attribute_location_of_a_missing_name_never_resolves() {
    let mut gl = GL::new();
    let program = build_program(&mut gl);
    let missing = program.get_attrib_location(&mut gl, "a_missing", -1);
    assert_eq!(missing.try_inner_for(&program), None);
}
