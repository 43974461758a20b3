//! The driver-call vocabulary and its abstract semantics.
//!
//! Every call this library decides to make against the GPU driver is recorded
//! as one `GlCommand`. A command is plain data: handles are integers, vertex
//! payloads are raw 32-bit words (the bit patterns of the host's scalars,
//! which the library never interprets numerically), and replies the driver
//! gave to queries are stored alongside the query itself, so the command list
//! is a complete record of the conversation.
//!
//! `CommandView` is the mathematical image of a command, and `DriverState`
//! together with `apply` gives the documented effect of each command on the
//! driver's binding state. `state_after` folds a whole trace.

use vstd::prelude::*;

use crate::shader_type::ShaderType;

verus! {

/// One call issued to the GPU driver, as recorded by [`crate::context::GL`].
///
/// `Create*` and `Query*` variants carry the driver's reply, so that the
/// recorded trace also documents the events the library's decisions were
/// based on.
#[derive(Debug, Clone)]
pub enum GlCommand {
    /// Request a new vertex-array handle; `result` is the granted handle.
    CreateVertexArray { result: Option<u64> },
    /// Request a new buffer handle; `result` is the granted handle.
    CreateBuffer { result: Option<u64> },
    /// Make a vertex array current (`None` clears the binding).
    BindVertexArray { vao: Option<u64> },
    /// Make a buffer current on the vertex-data target.
    BindArrayBuffer { buffer: Option<u64> },
    /// Make a buffer current on the index target.
    BindElementArrayBuffer { buffer: Option<u64> },
    /// Upload a complete static vertex payload to the bound data buffer.
    UploadArrayData { words: Vec<u32> },
    /// Upload a complete static index payload to the bound index buffer.
    UploadElementData { indices: Vec<i32> },
    /// Allocate an uninitialized dynamic vertex buffer of `byte_size` bytes.
    AllocateArrayData { byte_size: usize },
    /// Overwrite a sub-range of the bound data buffer at `byte_offset`.
    UploadArraySubData { byte_offset: usize, words: Vec<u32> },
    /// Enable one vertex attribute slot.
    EnableVertexAttribArray { slot: u32 },
    /// Describe the layout of one enabled attribute slot.
    VertexAttribPointer { slot: u32, components: u32, stride: u32, byte_offset: u32 },
    /// Disable one vertex attribute slot.
    DisableVertexAttribArray { slot: u32 },
    /// Draw `index_count` indices as triangles, `instance_count` times.
    DrawTrianglesInstanced { index_count: u32, instance_count: u32 },
    /// Make a program current (`None` clears the current program).
    UseProgram { program: Option<u64> },
    /// Set a scalar uniform at a resolved location.
    Uniform1f { location: u64, word: u32 },
    /// Set a 2-vector uniform at a resolved location.
    Uniform2f { location: u64, words: [u32; 2] },
    /// Set a 3-vector uniform at a resolved location.
    Uniform3f { location: u64, words: [u32; 3] },
    /// Set a 4x4-matrix uniform at a resolved location.
    UniformMatrix4f { location: u64, words: [u32; 16] },
    /// Enable the depth test.
    EnableDepthTest,
    /// Disable the depth test.
    DisableDepthTest,
    /// Release a vertex-array handle.
    DeleteVertexArray { vao: u64 },
    /// Release a buffer handle.
    DeleteBuffer { buffer: u64 },
    /// Look a uniform slot up by name; `result` is the driver's reply.
    QueryUniformLocation { name: String, result: Option<u64> },
    /// Look an attribute slot up by name; a negative `result` means "no slot".
    QueryAttribLocation { name: String, result: i32 },
    /// Request a new shader-stage handle of the given kind.
    CreateShader { kind: ShaderType, result: Option<u64> },
    /// Attach source text to a shader stage.
    ShaderSource { shader: u64, source: String },
    /// Compile a shader stage.
    CompileShader { shader: u64 },
    /// Ask whether a stage compiled; `result` is the driver's reply.
    QueryCompileStatus { shader: u64, result: bool },
    /// Retrieve the compile diagnostic log of a stage.
    QueryShaderInfoLog { shader: u64 },
    /// Request a new program handle.
    CreateProgram { result: Option<u64> },
    /// Attach a compiled stage to a program.
    AttachShader { program: u64, shader: u64 },
    /// Link a program from its attached stages.
    LinkProgram { program: u64 },
    /// Ask whether a program linked; `result` is the driver's reply.
    QueryLinkStatus { program: u64, result: bool },
    /// Retrieve the link diagnostic log of a program.
    QueryProgramInfoLog { program: u64 },
    /// Release a shader-stage handle.
    DeleteShader { shader: u64 },
    /// Release a program handle.
    DeleteProgram { program: u64 },
}

/// The mathematical image of a [`GlCommand`]: payloads become sequences,
/// names become character sequences.
#[verifier::ext_equal]
pub ghost enum CommandView {
    CreateVertexArray { result: Option<u64> },
    CreateBuffer { result: Option<u64> },
    BindVertexArray { vao: Option<u64> },
    BindArrayBuffer { buffer: Option<u64> },
    BindElementArrayBuffer { buffer: Option<u64> },
    UploadArrayData { words: Seq<u32> },
    UploadElementData { indices: Seq<i32> },
    AllocateArrayData { byte_size: usize },
    UploadArraySubData { byte_offset: usize, words: Seq<u32> },
    EnableVertexAttribArray { slot: u32 },
    VertexAttribPointer { slot: u32, components: u32, stride: u32, byte_offset: u32 },
    DisableVertexAttribArray { slot: u32 },
    DrawTrianglesInstanced { index_count: u32, instance_count: u32 },
    UseProgram { program: Option<u64> },
    Uniform1f { location: u64, word: u32 },
    Uniform2f { location: u64, words: [u32; 2] },
    Uniform3f { location: u64, words: [u32; 3] },
    UniformMatrix4f { location: u64, words: [u32; 16] },
    EnableDepthTest,
    DisableDepthTest,
    DeleteVertexArray { vao: u64 },
    DeleteBuffer { buffer: u64 },
    QueryUniformLocation { name: Seq<char>, result: Option<u64> },
    QueryAttribLocation { name: Seq<char>, result: i32 },
    CreateShader { kind: ShaderType, result: Option<u64> },
    ShaderSource { shader: u64, source: Seq<char> },
    CompileShader { shader: u64 },
    QueryCompileStatus { shader: u64, result: bool },
    QueryShaderInfoLog { shader: u64 },
    CreateProgram { result: Option<u64> },
    AttachShader { program: u64, shader: u64 },
    LinkProgram { program: u64 },
    QueryLinkStatus { program: u64, result: bool },
    QueryProgramInfoLog { program: u64 },
    DeleteShader { shader: u64 },
    DeleteProgram { program: u64 },
}

impl View for GlCommand {
    type V = CommandView;

    open spec fn view(&self) -> CommandView {
        match self {
            GlCommand::CreateVertexArray { result } => (CommandView::CreateVertexArray { result: *result }),
            GlCommand::CreateBuffer { result } => (CommandView::CreateBuffer { result: *result }),
            GlCommand::BindVertexArray { vao } => (CommandView::BindVertexArray { vao: *vao }),
            GlCommand::BindArrayBuffer { buffer } => (CommandView::BindArrayBuffer { buffer: *buffer }),
            GlCommand::BindElementArrayBuffer { buffer } => (CommandView::BindElementArrayBuffer { buffer: *buffer }),
            GlCommand::UploadArrayData { words } => (CommandView::UploadArrayData { words: words@ }),
            GlCommand::UploadElementData { indices } => (CommandView::UploadElementData { indices: indices@ }),
            GlCommand::AllocateArrayData { byte_size } => (CommandView::AllocateArrayData { byte_size: *byte_size }),
            GlCommand::UploadArraySubData { byte_offset, words } => (CommandView::UploadArraySubData { byte_offset: *byte_offset, words: words@ }),
            GlCommand::EnableVertexAttribArray { slot } => (CommandView::EnableVertexAttribArray { slot: *slot }),
            GlCommand::VertexAttribPointer { slot, components, stride, byte_offset } => (CommandView::VertexAttribPointer { slot: *slot, components: *components, stride: *stride, byte_offset: *byte_offset }),
            GlCommand::DisableVertexAttribArray { slot } => (CommandView::DisableVertexAttribArray { slot: *slot }),
            GlCommand::DrawTrianglesInstanced { index_count, instance_count } => (CommandView::DrawTrianglesInstanced { index_count: *index_count, instance_count: *instance_count }),
            GlCommand::UseProgram { program } => (CommandView::UseProgram { program: *program }),
            GlCommand::Uniform1f { location, word } => (CommandView::Uniform1f { location: *location, word: *word }),
            GlCommand::Uniform2f { location, words } => (CommandView::Uniform2f { location: *location, words: *words }),
            GlCommand::Uniform3f { location, words } => (CommandView::Uniform3f { location: *location, words: *words }),
            GlCommand::UniformMatrix4f { location, words } => (CommandView::UniformMatrix4f { location: *location, words: *words }),
            GlCommand::EnableDepthTest => CommandView::EnableDepthTest,
            GlCommand::DisableDepthTest => CommandView::DisableDepthTest,
            GlCommand::DeleteVertexArray { vao } => (CommandView::DeleteVertexArray { vao: *vao }),
            GlCommand::DeleteBuffer { buffer } => (CommandView::DeleteBuffer { buffer: *buffer }),
            GlCommand::QueryUniformLocation { name, result } => (CommandView::QueryUniformLocation { name: name@, result: *result }),
            GlCommand::QueryAttribLocation { name, result } => (CommandView::QueryAttribLocation { name: name@, result: *result }),
            GlCommand::CreateShader { kind, result } => (CommandView::CreateShader { kind: *kind, result: *result }),
            GlCommand::ShaderSource { shader, source } => (CommandView::ShaderSource { shader: *shader, source: source@ }),
            GlCommand::CompileShader { shader } => (CommandView::CompileShader { shader: *shader }),
            GlCommand::QueryCompileStatus { shader, result } => (CommandView::QueryCompileStatus { shader: *shader, result: *result }),
            GlCommand::QueryShaderInfoLog { shader } => (CommandView::QueryShaderInfoLog { shader: *shader }),
            GlCommand::CreateProgram { result } => (CommandView::CreateProgram { result: *result }),
            GlCommand::AttachShader { program, shader } => (CommandView::AttachShader { program: *program, shader: *shader }),
            GlCommand::LinkProgram { program } => (CommandView::LinkProgram { program: *program }),
            GlCommand::QueryLinkStatus { program, result } => (CommandView::QueryLinkStatus { program: *program, result: *result }),
            GlCommand::QueryProgramInfoLog { program } => (CommandView::QueryProgramInfoLog { program: *program }),
            GlCommand::DeleteShader { shader } => (CommandView::DeleteShader { shader: *shader }),
            GlCommand::DeleteProgram { program } => (CommandView::DeleteProgram { program: *program }),
        }
    }
}

/// The driver's binding state, as far as this library's discipline cares:
/// which object and buffers are current, which program is current, which
/// attribute slots are enabled, and whether the depth test is on.
#[verifier::ext_equal]
pub ghost struct DriverState {
    pub bound_vertex_array: Option<u64>,
    pub bound_array_buffer: Option<u64>,
    pub bound_element_array_buffer: Option<u64>,
    pub current_program: Option<u64>,
    pub enabled_attributes: Set<u32>,
    pub depth_test: bool,
}

/// The state of a freshly created driver context: nothing bound, nothing
/// enabled, no current program, depth test off.
pub open spec fn initial_state() -> DriverState {
    DriverState {
        bound_vertex_array: None,
        bound_array_buffer: None,
        bound_element_array_buffer: None,
        current_program: None,
        enabled_attributes: Set::empty(),
        depth_test: false,
    }
}

/// The documented effect of one driver call on the binding state.
/// Uploads, draws, queries, allocations and releases leave it unchanged.
pub open spec fn apply(state: DriverState, command: CommandView) -> DriverState {
    match command {
        CommandView::BindVertexArray { vao } => (DriverState { bound_vertex_array: vao, ..state }),
        CommandView::BindArrayBuffer { buffer } => (DriverState { bound_array_buffer: buffer, ..state }),
        CommandView::BindElementArrayBuffer { buffer } => (DriverState { bound_element_array_buffer: buffer, ..state }),
        CommandView::UseProgram { program } => (DriverState { current_program: program, ..state }),
        CommandView::EnableVertexAttribArray { slot } => (DriverState { enabled_attributes: state.enabled_attributes.insert(slot), ..state }),
        CommandView::DisableVertexAttribArray { slot } => (DriverState { enabled_attributes: state.enabled_attributes.remove(slot), ..state }),
        CommandView::EnableDepthTest => (DriverState { depth_test: true, ..state }),
        CommandView::DisableDepthTest => (DriverState { depth_test: false, ..state }),
        _ => state,
    }
}

/// The binding state reached from `state` after issuing `trace`.
pub open spec fn fold_trace(state: DriverState, trace: Seq<CommandView>) -> DriverState
    decreases trace.len(),
{
    if trace.len() == 0 {
        state
    } else {
        apply(fold_trace(state, trace.drop_last()), trace.last())
    }
}

/// The binding state a fresh context reaches after issuing `trace`.
pub open spec fn state_after(trace: Seq<CommandView>) -> DriverState {
    fold_trace(initial_state(), trace)
}

/// Folding a longer trace revisits the fold of its prefix.
pub proof fn lemma_fold_trace_push(state: DriverState, trace: Seq<CommandView>, command: CommandView)
    ensures
        fold_trace(state, trace.push(command)) == apply(fold_trace(state, trace), command),
{
    assert(trace.push(command).drop_last() =~= trace);
}

/// Folding a longer trace revisits the fold of its prefix.
pub proof fn lemma_state_after_push(trace: Seq<CommandView>, command: CommandView)
    ensures
        state_after(trace.push(command)) == apply(state_after(trace), command),
{
    lemma_fold_trace_push(initial_state(), trace, command);
}

/// How many commands of `trace` satisfy `condition`.
pub open spec fn count_matching(trace: Seq<CommandView>, condition: spec_fn(CommandView) -> bool) -> int
    decreases trace.len(),
{
    if trace.len() == 0 {
        0
    } else {
        count_matching(trace.drop_last(), condition) + if condition(trace.last()) {
            1int
        } else {
            0int
        }
    }
}

/// Counts add up over concatenation.
pub proof fn lemma_count_matching_concat(
    first: Seq<CommandView>,
    second: Seq<CommandView>,
    condition: spec_fn(CommandView) -> bool,
)
    ensures
        count_matching(first + second, condition) == count_matching(first, condition)
            + count_matching(second, condition),
    decreases second.len(),
{
    if second.len() == 0 {
        assert(first + second =~= first);
    } else {
        lemma_count_matching_concat(first, second.drop_last(), condition);
        assert((first + second).drop_last() =~= first + second.drop_last());
        assert((first + second).last() == second.last());
    }
}

/// A trace none of whose commands satisfies `condition` counts zero.
pub proof fn lemma_count_matching_none(
    trace: Seq<CommandView>,
    condition: spec_fn(CommandView) -> bool,
)
    requires
        forall|i: int| 0 <= i < trace.len() ==> !condition(#[trigger] trace[i]),
    ensures
        count_matching(trace, condition) == 0,
    decreases trace.len(),
{
    if trace.len() > 0 {
        lemma_count_matching_none(trace.drop_last(), condition);
        assert(!condition(trace[trace.len() - 1]));
    }
}

/// A trace made of two parts folds as the second part folded over the fold
/// of the first.
pub proof fn lemma_fold_trace_concat(state: DriverState, first: Seq<CommandView>, second: Seq<CommandView>)
    ensures
        fold_trace(state, first + second) == fold_trace(fold_trace(state, first), second),
    decreases second.len(),
{
    if second.len() == 0 {
        assert(first + second =~= first);
    } else {
        lemma_fold_trace_concat(state, first, second.drop_last());
        assert((first + second).drop_last() =~= first + second.drop_last());
        assert((first + second).last() == second.last());
    }
}

} // verus!
