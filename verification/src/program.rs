//! Shader programs: the compile-and-link state machine.
//!
//! A build collects (stage kind, source text) pairs, asks the driver for a
//! stage object per pair, compiles each, links the compiled stages into a
//! program object, and releases the stage objects once linked. Whether a
//! stage object is granted, whether a stage compiles, whether the link
//! succeeds and what the diagnostic logs say are the driver's replies,
//! passed in as [`StageReply`] and [`LinkReply`] values; the library's
//! contract pins down, for every combination of replies, both the exact
//! conversation recorded and the exact outcome: the build succeeds if and
//! only if every stage is granted and compiles and the link step is
//! granted and succeeds, and the first failure aborts the build with the
//! matching error, producing no program object.
//!
//! A successful build stamps the program with a process-unique, strictly
//! increasing identity drawn from the context; attribute locations are
//! guarded by it (see [`crate::locations`]).

use vstd::prelude::*;
use vstd::string::StringExecFns;

use crate::command::{CommandView, GlCommand};
use crate::context::GL;
use crate::locations::AttribLocation;
use crate::locations::SimpleUniformLocation;
use crate::shader_error::{log_text, spec_log_text, ShaderError, ShaderErrorView};
use crate::shader_type::ShaderType;
use crate::uniform_value::UniformValue;

verus! {

/// The driver's replies to one stage's conversation: whether the stage
/// object was granted, whether the stage compiled, and the diagnostic log
/// (read only when compilation failed; `None` stands for a driver that
/// returned no log).
#[derive(Debug, Clone)]
pub struct StageReply {
    pub created: bool,
    pub compile_ok: bool,
    pub info_log: Option<String>,
}

/// The mathematical image of a [`StageReply`].
#[verifier::ext_equal]
pub ghost struct StageReplyView {
    pub created: bool,
    pub compile_ok: bool,
    pub info_log: Option<Seq<char>>,
}

impl View for StageReply {
    type V = StageReplyView;

    open spec fn view(&self) -> StageReplyView {
        StageReplyView {
            created: self.created,
            compile_ok: self.compile_ok,
            info_log: match &self.info_log {
                Some(log) => Some(log@),
                None => None,
            },
        }
    }
}

impl StageReply {
    /// A reply for a stage the driver grants and compiles.
    pub fn ok() -> (reply: StageReply)
        ensures
            reply@ == (StageReplyView { created: true, compile_ok: true, info_log: None }),
    {
        StageReply { created: true, compile_ok: true, info_log: None }
    }
}

/// The driver's replies to the link conversation: whether the program
/// object was granted, whether the link succeeded, and the diagnostic log
/// (read only when linking failed).
#[derive(Debug, Clone)]
pub struct LinkReply {
    pub created: bool,
    pub link_ok: bool,
    pub info_log: Option<String>,
}

/// The mathematical image of a [`LinkReply`].
#[verifier::ext_equal]
pub ghost struct LinkReplyView {
    pub created: bool,
    pub link_ok: bool,
    pub info_log: Option<Seq<char>>,
}

impl View for LinkReply {
    type V = LinkReplyView;

    open spec fn view(&self) -> LinkReplyView {
        LinkReplyView {
            created: self.created,
            link_ok: self.link_ok,
            info_log: match &self.info_log {
                Some(log) => Some(log@),
                None => None,
            },
        }
    }
}

impl LinkReply {
    /// A reply for a link the driver grants and that succeeds.
    pub fn ok() -> (reply: LinkReply)
        ensures
            reply@ == (LinkReplyView { created: true, link_ok: true, info_log: None }),
    {
        LinkReply { created: true, link_ok: true, info_log: None }
    }
}

/// Whether one stage's conversation went through: object granted and
/// compiled.
pub open spec fn stage_ok(reply: StageReplyView) -> bool {
    reply.created && reply.compile_ok
}

/// Whether every stage's conversation went through.
pub open spec fn all_stages_ok(replies: Seq<StageReplyView>) -> bool {
    forall|i: int| 0 <= i < replies.len() ==> stage_ok(#[trigger] replies[i])
}

/// The index of the first stage whose conversation failed, or the length
/// when all went through.
pub open spec fn first_bad_stage(replies: Seq<StageReplyView>) -> int
    decreases replies.len(),
{
    if replies.len() == 0 {
        0
    } else if !stage_ok(replies.first()) {
        0
    } else {
        1 + first_bad_stage(replies.drop_first())
    }
}

/// The view of a source list: each pair's text as a character sequence.
pub open spec fn sources_view(sources: Seq<(ShaderType, String)>) -> Seq<(ShaderType, Seq<char>)> {
    sources.map_values(|source: (ShaderType, String)| (source.0, source.1@))
}

/// The view of a stage-reply list.
pub open spec fn stage_replies_view(replies: Seq<StageReply>) -> Seq<StageReplyView> {
    replies.map_values(|reply: StageReply| reply@)
}

/// The error a build with these replies reports, or `None` when it
/// succeeds: the first failing stage decides, then the link conversation.
pub open spec fn build_failure(
    stages: Seq<(ShaderType, Seq<char>)>,
    replies: Seq<StageReplyView>,
    link: LinkReplyView,
) -> Option<ShaderErrorView>
    decreases stages.len(),
{
    if stages.len() == 0 || replies.len() == 0 {
        if !link.created {
            Some(ShaderErrorView::ProgramCreateError)
        } else if !link.link_ok {
            Some(ShaderErrorView::LinkError(spec_log_text(link.info_log)))
        } else {
            None
        }
    } else if !replies.first().created {
        Some(ShaderErrorView::ShaderCreateError(stages.first().0))
    } else if !replies.first().compile_ok {
        Some(ShaderErrorView::CompileError(spec_log_text(replies.first().info_log), stages.first().0))
    } else {
        build_failure(stages.drop_first(), replies.drop_first(), link)
    }
}

/// A build succeeds exactly when every stage is granted and compiles and
/// the link step is granted and succeeds.
pub proof fn lemma_build_succeeds_iff(
    stages: Seq<(ShaderType, Seq<char>)>,
    replies: Seq<StageReplyView>,
    link: LinkReplyView,
)
    requires
        stages.len() == replies.len(),
    ensures
        build_failure(stages, replies, link) is None <==> (all_stages_ok(replies) && link.created
            && link.link_ok),
    decreases stages.len(),
{
    if stages.len() == 0 {
    } else if stage_ok(replies.first()) {
        lemma_build_succeeds_iff(stages.drop_first(), replies.drop_first(), link);
        assert(all_stages_ok(replies) ==> all_stages_ok(replies.drop_first()));
        if all_stages_ok(replies.drop_first()) {
            assert(replies[0] == replies.first());
            assert forall|i: int| 0 <= i < replies.len() implies stage_ok(#[trigger] replies[i]) by {
                if i > 0 {
                    assert(replies[i] == replies.drop_first()[i - 1]);
                }
            }
        }
    } else {
        assert(!stage_ok(replies[0]));
    }
}

/// The conversation one stage records: the object request, and when it is
/// granted the source upload, the compile, the status query, and — only on
/// a failed compile — the log retrieval.
pub open spec fn compile_trace(
    kind: ShaderType,
    source: Seq<char>,
    reply: StageReplyView,
    handle: u64,
) -> Seq<CommandView> {
    if !reply.created {
        seq![CommandView::CreateShader { kind, result: None }]
    } else {
        let head = seq![
            CommandView::CreateShader { kind, result: Some(handle) },
            CommandView::ShaderSource { shader: handle, source },
            CommandView::CompileShader { shader: handle },
            CommandView::QueryCompileStatus { shader: handle, result: reply.compile_ok },
        ];
        if reply.compile_ok {
            head
        } else {
            head + seq![CommandView::QueryShaderInfoLog { shader: handle }]
        }
    }
}

/// The conversation a whole stage list records, granting handles in
/// sequence and stopping at the first failing stage.
pub open spec fn stages_trace(
    stages: Seq<(ShaderType, Seq<char>)>,
    replies: Seq<StageReplyView>,
    first_handle: u64,
) -> Seq<CommandView>
    decreases stages.len(),
{
    if stages.len() == 0 || replies.len() == 0 {
        Seq::empty()
    } else {
        let head = compile_trace(stages.first().0, stages.first().1, replies.first(), first_handle);
        if stage_ok(replies.first()) {
            head + stages_trace(stages.drop_first(), replies.drop_first(), ((first_handle + 1) as u64))
        } else {
            head
        }
    }
}

/// The handles `count` granted stage objects receive, starting at
/// `first_handle`.
pub open spec fn handle_range(first_handle: u64, count: int) -> Seq<u64> {
    Seq::new(count as nat, |i: int| ((first_handle + i) as u64))
}

/// The release conversation for a list of stage objects.
pub open spec fn delete_shaders_trace(shaders: Seq<u64>) -> Seq<CommandView> {
    shaders.map_values(|shader: u64| CommandView::DeleteShader { shader })
}

/// The attach conversation for a list of compiled stages.
pub open spec fn attach_trace(shaders: Seq<u64>, program: u64) -> Seq<CommandView> {
    shaders.map_values(|shader: u64| CommandView::AttachShader { program, shader })
}

/// The link conversation: the program-object request, and when it is
/// granted the attaches, the link, the status query, and — only on a
/// failed link — the log retrieval.
pub open spec fn link_trace(shaders: Seq<u64>, reply: LinkReplyView, handle: u64) -> Seq<
    CommandView,
> {
    if !reply.created {
        seq![CommandView::CreateProgram { result: None }]
    } else {
        seq![CommandView::CreateProgram { result: Some(handle) }] + attach_trace(shaders, handle)
            + seq![
            CommandView::LinkProgram { program: handle },
            CommandView::QueryLinkStatus { program: handle, result: reply.link_ok },
        ] + if reply.link_ok {
            Seq::<CommandView>::empty()
        } else {
            seq![CommandView::QueryProgramInfoLog { program: handle }]
        }
    }
}

/// The whole conversation a build records: the stage conversations up to
/// the first failure, then — only when every stage went through — the link
/// conversation, then the release of every compiled stage object.
pub open spec fn build_trace(
    stages: Seq<(ShaderType, Seq<char>)>,
    replies: Seq<StageReplyView>,
    link: LinkReplyView,
    first_handle: u64,
) -> Seq<CommandView> {
    let bad = first_bad_stage(replies);
    if bad < replies.len() {
        stages_trace(stages, replies, first_handle) + delete_shaders_trace(
            handle_range(first_handle, bad),
        )
    } else {
        stages_trace(stages, replies, first_handle) + link_trace(
            handle_range(first_handle, stages.len() as int),
            link,
            ((first_handle + stages.len()) as u64),
        ) + delete_shaders_trace(handle_range(first_handle, stages.len() as int))
    }
}

/// Appending a stage to an all-granted list appends its conversation.
proof fn lemma_stages_trace_snoc(
    stages: Seq<(ShaderType, Seq<char>)>,
    replies: Seq<StageReplyView>,
    first_handle: u64,
    stage: (ShaderType, Seq<char>),
    reply: StageReplyView,
)
    requires
        stages.len() == replies.len(),
        all_stages_ok(replies),
        first_handle + stages.len() <= u64::MAX,
    ensures
        stages_trace(stages.push(stage), replies.push(reply), first_handle) =~= stages_trace(
            stages,
            replies,
            first_handle,
        ) + compile_trace(stage.0, stage.1, reply, ((first_handle + stages.len()) as u64)),
    decreases stages.len(),
{
    if stages.len() == 0 {
        assert(stages.push(stage).first() == stage);
        assert(replies.push(reply).first() == reply);
        let empty_stages = Seq::<(ShaderType, Seq<char>)>::empty();
        let empty_replies = Seq::<StageReplyView>::empty();
        assert(stages.push(stage).drop_first() =~= empty_stages);
        assert(replies.push(reply).drop_first() =~= empty_replies);
        assert(stages_trace(empty_stages, empty_replies, ((first_handle + 1) as u64))
            =~= Seq::<CommandView>::empty());
        if stage_ok(reply) {
            assert(stages_trace(stages.push(stage), replies.push(reply), first_handle)
                =~= compile_trace(stage.0, stage.1, reply, first_handle) + stages_trace(
                stages.push(stage).drop_first(),
                replies.push(reply).drop_first(),
                ((first_handle + 1) as u64),
            ));
            assert(stages_trace(stages.push(stage), replies.push(reply), first_handle)
                =~= compile_trace(stage.0, stage.1, reply, first_handle));
        }
        assert(stages_trace(stages, replies, first_handle) =~= Seq::<CommandView>::empty());
    } else {
        assert(stage_ok(replies[0]));
        assert(stages.push(stage).first() == stages.first());
        assert(replies.push(reply).first() == replies.first());
        assert(stages.push(stage).drop_first() =~= stages.drop_first().push(stage));
        assert(replies.push(reply).drop_first() =~= replies.drop_first().push(reply));
        assert(all_stages_ok(replies.drop_first())) by {
            assert forall|i: int| 0 <= i < replies.drop_first().len() implies stage_ok(
                #[trigger] replies.drop_first()[i],
            ) by {
                assert(replies.drop_first()[i] == replies[i + 1]);
            }
        }
        lemma_stages_trace_snoc(
            stages.drop_first(),
            replies.drop_first(),
            ((first_handle + 1) as u64),
            stage,
            reply,
        );
    }
}

/// A list whose first failure is at `bad` records the granted prefix and
/// then the failing stage's conversation.
proof fn lemma_stages_trace_first_failure(
    stages: Seq<(ShaderType, Seq<char>)>,
    replies: Seq<StageReplyView>,
    first_handle: u64,
    bad: int,
)
    requires
        stages.len() == replies.len(),
        0 <= bad < replies.len(),
        forall|j: int| 0 <= j < bad ==> stage_ok(#[trigger] replies[j]),
        !stage_ok(replies[bad]),
        first_handle + bad <= u64::MAX,
    ensures
        stages_trace(stages, replies, first_handle) =~= stages_trace(
            stages.take(bad),
            replies.take(bad),
            first_handle,
        ) + compile_trace(stages[bad].0, stages[bad].1, replies[bad], ((first_handle + bad) as u64)),
    decreases bad,
{
    if bad == 0 {
        assert(stages.take(0) =~= Seq::<(ShaderType, Seq<char>)>::empty());
        assert(replies.take(0) =~= Seq::<StageReplyView>::empty());
        assert(stages[0] == stages.first());
        assert(replies[0] == replies.first());
    } else {
        assert(stage_ok(replies[0]));
        assert(replies[0] == replies.first());
        lemma_stages_trace_first_failure(
            stages.drop_first(),
            replies.drop_first(),
            ((first_handle + 1) as u64),
            bad - 1,
        );
        assert(stages.drop_first().take(bad - 1) =~= stages.take(bad).drop_first());
        assert(replies.drop_first().take(bad - 1) =~= replies.take(bad).drop_first());
        assert(stages.drop_first()[bad - 1] == stages[bad]);
        assert(replies.drop_first()[bad - 1] == replies[bad]);
        assert(stages.take(bad).first() == stages.first());
        assert(replies.take(bad).first() == replies.first());
    }
}

/// When the prefix before `bad` is granted and stage `bad` fails, `bad` is
/// the first failure.
proof fn lemma_first_bad_stage_at(replies: Seq<StageReplyView>, bad: int)
    requires
        0 <= bad < replies.len(),
        forall|j: int| 0 <= j < bad ==> stage_ok(#[trigger] replies[j]),
        !stage_ok(replies[bad]),
    ensures
        first_bad_stage(replies) == bad,
    decreases bad,
{
    if bad == 0 {
        assert(replies[0] == replies.first());
    } else {
        assert(replies[0] == replies.first());
        assert(stage_ok(replies.first()));
        assert forall|j: int| 0 <= j < bad - 1 implies stage_ok(
            #[trigger] replies.drop_first()[j],
        ) by {
            assert(replies.drop_first()[j] == replies[j + 1]);
        }
        assert(replies.drop_first()[bad - 1] == replies[bad]);
        lemma_first_bad_stage_at(replies.drop_first(), bad - 1);
    }
}

/// When every stage is granted, there is no first failure.
proof fn lemma_first_bad_stage_none(replies: Seq<StageReplyView>)
    requires
        all_stages_ok(replies),
    ensures
        first_bad_stage(replies) == replies.len(),
    decreases replies.len(),
{
    if replies.len() > 0 {
        assert(replies[0] == replies.first());
        assert forall|j: int| 0 <= j < replies.len() - 1 implies stage_ok(
            #[trigger] replies.drop_first()[j],
        ) by {
            assert(replies.drop_first()[j] == replies[j + 1]);
        }
        lemma_first_bad_stage_none(replies.drop_first());
    }
}

/// The error a build reports when stage `bad` is the first failure.
proof fn lemma_build_failure_at_stage(
    stages: Seq<(ShaderType, Seq<char>)>,
    replies: Seq<StageReplyView>,
    link: LinkReplyView,
    bad: int,
)
    requires
        stages.len() == replies.len(),
        0 <= bad < replies.len(),
        forall|j: int| 0 <= j < bad ==> stage_ok(#[trigger] replies[j]),
        !stage_ok(replies[bad]),
    ensures
        build_failure(stages, replies, link) == if !replies[bad].created {
            Some(ShaderErrorView::ShaderCreateError(stages[bad].0))
        } else {
            Some(ShaderErrorView::CompileError(spec_log_text(replies[bad].info_log), stages[bad].0))
        },
    decreases bad,
{
    if bad == 0 {
        assert(replies[0] == replies.first());
        assert(stages[0] == stages.first());
    } else {
        assert(replies[0] == replies.first());
        assert(stage_ok(replies.first()));
        assert forall|j: int| 0 <= j < bad - 1 implies stage_ok(
            #[trigger] replies.drop_first()[j],
        ) by {
            assert(replies.drop_first()[j] == replies[j + 1]);
        }
        assert(replies.drop_first()[bad - 1] == replies[bad]);
        assert(stages.drop_first()[bad - 1] == stages[bad]);
        lemma_build_failure_at_stage(stages.drop_first(), replies.drop_first(), link, bad - 1);
    }
}

/// The outcome a build reports when every stage is granted: the link
/// conversation decides.
proof fn lemma_build_failure_all_ok(
    stages: Seq<(ShaderType, Seq<char>)>,
    replies: Seq<StageReplyView>,
    link: LinkReplyView,
)
    requires
        stages.len() == replies.len(),
        all_stages_ok(replies),
    ensures
        build_failure(stages, replies, link) == if !link.created {
            Some(ShaderErrorView::ProgramCreateError)
        } else if !link.link_ok {
            Some(ShaderErrorView::LinkError(spec_log_text(link.info_log)))
        } else {
            None::<ShaderErrorView>
        },
    decreases stages.len(),
{
    if stages.len() > 0 {
        assert(replies[0] == replies.first());
        assert forall|j: int| 0 <= j < replies.len() - 1 implies stage_ok(
            #[trigger] replies.drop_first()[j],
        ) by {
            assert(replies.drop_first()[j] == replies[j + 1]);
        }
        lemma_build_failure_all_ok(stages.drop_first(), replies.drop_first(), link);
    }
}

/// A compiled, linked driver program and its process-unique identity.
///
/// The identity exists to let an [`AttribLocation`] later check "was this
/// location resolved against the program now in use": raw slot integers
/// carry no type safety, so the identity is the correctness guard. A
/// program is immutable once built.
#[derive(Debug, Clone)]
pub struct ShaderProgram {
    handle: u64,
    uid: u64,
}

/// Collects (stage kind, source text) pairs for a program build.
#[derive(Debug)]
pub struct ShaderProgramBuilder {
    shaders: Vec<(ShaderType, String)>,
}

impl ShaderProgramBuilder {
    /// The collected pairs, texts as character sequences.
    pub closed spec fn spec_sources(&self) -> Seq<(ShaderType, Seq<char>)> {
        sources_view(self.shaders@)
    }

    /// An empty collection.
    pub fn new() -> (builder: ShaderProgramBuilder)
        ensures
            builder.spec_sources() =~= Seq::<(ShaderType, Seq<char>)>::empty(),
    {
        ShaderProgramBuilder { shaders: Vec::new() }
    }

    /// Add one stage's source text.
    pub fn add_source(self, shader_type: ShaderType, text: String) -> (builder: ShaderProgramBuilder)
        ensures
            builder.spec_sources() =~= self.spec_sources().push((shader_type, text@)),
    {
        let mut shaders = self.shaders;
        shaders.push((shader_type, text));
        ShaderProgramBuilder { shaders }
    }

    /// Build the program; see [`ShaderProgram::new`].
    pub fn build(self, gl: &mut GL, stage_replies: &Vec<StageReply>, link_reply: &LinkReply) -> (result:
        Result<ShaderProgram, ShaderError>)
        requires
            stage_replies@.len() == self.spec_sources().len(),
            old(gl).next_handle() + self.spec_sources().len() + 1 <= u64::MAX,
            old(gl).next_program_uid() < u64::MAX,
        ensures
            final(gl).trace() =~= old(gl).trace() + build_trace(
                self.spec_sources(),
                stage_replies_view(stage_replies@),
                link_reply@,
                old(gl).next_handle(),
            ),
            final(gl).state() == old(gl).state(),
            result is Ok <==> build_failure(
                self.spec_sources(),
                stage_replies_view(stage_replies@),
                link_reply@,
            ) is None,
            result matches Ok(program) ==> program.uid() == old(gl).next_program_uid()
                && final(gl).next_program_uid() == old(gl).next_program_uid() + 1,
            result matches Err(error) ==> Some(error@) == build_failure(
                self.spec_sources(),
                stage_replies_view(stage_replies@),
                link_reply@,
            ) && final(gl).next_program_uid() == old(gl).next_program_uid(),
    {
        ShaderProgram::new(gl, &self.shaders, stage_replies, link_reply)
    }
}

impl ShaderProgram {
    /// The driver program handle.
    pub closed spec fn spec_handle(&self) -> u64 {
        self.handle
    }

    /// The process-unique identity.
    pub closed spec fn spec_uid(&self) -> u64 {
        self.uid
    }

    /// The process-unique identity.
    #[verifier::when_used_as_spec(spec_uid)]
    pub fn uid(&self) -> (uid: u64)
        ensures
            uid == self.spec_uid(),
    {
        self.uid
    }

    /// The driver program handle.
    #[verifier::when_used_as_spec(spec_handle)]
    pub fn as_gl_program(&self) -> (handle: u64)
        ensures
            handle == self.spec_handle(),
    {
        self.handle
    }

    /// An empty source collection to build a program from.
    pub fn builder() -> (builder: ShaderProgramBuilder)
        ensures
            builder.spec_sources() =~= Seq::<(ShaderType, Seq<char>)>::empty(),
    {
        ShaderProgramBuilder::new()
    }

    /// Run the whole build conversation; see the module documentation.
    ///
    /// The recorded conversation is exactly [`build_trace`], the outcome
    /// is `Ok` exactly when [`build_failure`] is `None`, and any error is
    /// exactly the one [`build_failure`] names. A successful build draws
    /// the next program identity from the context.
    pub fn new(
        gl: &mut GL,
        sources: &Vec<(ShaderType, String)>,
        stage_replies: &Vec<StageReply>,
        link_reply: &LinkReply,
    ) -> (result: Result<ShaderProgram, ShaderError>)
        requires
            stage_replies@.len() == sources@.len(),
            old(gl).next_handle() + sources@.len() + 1 <= u64::MAX,
            old(gl).next_program_uid() < u64::MAX,
        ensures
            final(gl).trace() =~= old(gl).trace() + build_trace(
                sources_view(sources@),
                stage_replies_view(stage_replies@),
                link_reply@,
                old(gl).next_handle(),
            ),
            final(gl).state() == old(gl).state(),
            final(gl).next_handle() <= old(gl).next_handle() + sources@.len() + 1,
            result is Ok <==> build_failure(
                sources_view(sources@),
                stage_replies_view(stage_replies@),
                link_reply@,
            ) is None,
            result matches Ok(program) ==> program.uid() == old(gl).next_program_uid()
                && final(gl).next_program_uid() == old(gl).next_program_uid() + 1
                && program.as_gl_program() == old(gl).next_handle() + sources@.len(),
            result matches Err(error) ==> Some(error@) == build_failure(
                sources_view(sources@),
                stage_replies_view(stage_replies@),
                link_reply@,
            ) && final(gl).next_program_uid() == old(gl).next_program_uid(),
    {
        let ghost first_handle = gl.next_handle();
        let ghost base = gl.trace();
        let ghost stages_v = sources_view(sources@);
        let ghost replies_v = stage_replies_view(stage_replies@);
        let mut compiled: Vec<u64> = Vec::new();
        let mut i: usize = 0;
        while i < sources.len()
            invariant
                stage_replies@.len() == sources@.len(),
                i <= sources@.len(),
                base == old(gl).trace(),
                first_handle == old(gl).next_handle(),
                stages_v == sources_view(sources@),
                replies_v == stage_replies_view(stage_replies@),
                first_handle + sources@.len() + 1 <= u64::MAX,
                gl.next_handle() == first_handle + i,
                gl.next_program_uid() == old(gl).next_program_uid(),
                gl.state() == old(gl).state(),
                forall|j: int| 0 <= j < i ==> stage_ok(#[trigger] replies_v[j]),
                compiled@ =~= handle_range(first_handle, i as int),
                gl.trace() =~= base + stages_trace(
                    stages_v.take(i as int),
                    replies_v.take(i as int),
                    first_handle,
                ),
            decreases sources@.len() - i,
        {
            let pair = &sources[i];
            let reply = &stage_replies[i];
            let ghost trace_before = gl.trace();
            let stage_result = compile_shader(gl, pair.1.as_str(), pair.0, reply);
            proof {
                assert(stages_v[i as int] == (pair.0, pair.1@));
                assert(replies_v[i as int] == reply@);
            }
            match stage_result {
                Ok(handle) => {
                    compiled.push(handle);
                    proof {
                        lemma_stages_trace_snoc(
                            stages_v.take(i as int),
                            replies_v.take(i as int),
                            first_handle,
                            stages_v[i as int],
                            replies_v[i as int],
                        );
                        assert(stages_v.take(i + 1) =~= stages_v.take(i as int).push(
                            stages_v[i as int],
                        ));
                        assert(replies_v.take(i + 1) =~= replies_v.take(i as int).push(
                            replies_v[i as int],
                        ));
                        assert(compiled@ =~= handle_range(first_handle, i + 1));
                        assert(gl.trace() =~= base + stages_trace(
                            stages_v.take(i + 1),
                            replies_v.take(i + 1),
                            first_handle,
                        ));
                    }
                },
                Err(error) => {
                    proof {
                        lemma_first_bad_stage_at(replies_v, i as int);
                        lemma_stages_trace_first_failure(stages_v, replies_v, first_handle, i as int);
                        lemma_build_failure_at_stage(stages_v, replies_v, link_reply@, i as int);
                    }
                    delete_shaders(gl, &compiled);
                    proof {
                        assert(gl.trace() =~= base + build_trace(
                            stages_v,
                            replies_v,
                            link_reply@,
                            first_handle,
                        ));
                    }
                    return Err(error);
                },
            }
            i = i + 1;
        }
        proof {
            assert(stages_v.take(i as int) =~= stages_v);
            assert(replies_v.take(i as int) =~= replies_v);
            lemma_first_bad_stage_none(replies_v);
            lemma_build_failure_all_ok(stages_v, replies_v, link_reply@);
        }
        let link_result = link_into_program(gl, &compiled, link_reply);
        match link_result {
            Ok(program_handle) => {
                let uid = gl.take_program_uid();
                delete_shaders(gl, &compiled);
                proof {
                    assert(gl.trace() =~= base + build_trace(
                        stages_v,
                        replies_v,
                        link_reply@,
                        first_handle,
                    ));
                }
                Ok(ShaderProgram { handle: program_handle, uid })
            },
            Err(error) => {
                delete_shaders(gl, &compiled);
                proof {
                    assert(gl.trace() =~= base + build_trace(
                        stages_v,
                        replies_v,
                        link_reply@,
                        first_handle,
                    ));
                }
                Err(error)
            },
        }
    }

    /// Resolve a uniform slot by name against this program, for a value of
    /// type `V`. The driver's reply is recorded; "no such slot" yields an
    /// invalid location, through which every set is a safe no-op.
    pub fn get_uniform_location<V: UniformValue>(
        &self,
        gl: &mut GL,
        name: &str,
        reply: Option<u64>,
    ) -> (location: SimpleUniformLocation<V>)
        ensures
            final(gl).trace() =~= old(gl).trace() + seq![
                CommandView::QueryUniformLocation { name: name@, result: reply },
            ],
            final(gl).state() == old(gl).state(),
            final(gl).next_handle() == old(gl).next_handle(),
            final(gl).next_program_uid() == old(gl).next_program_uid(),
            location.spec_loc() == reply,
    {
        gl.issue(GlCommand::QueryUniformLocation { name: String::from_str(name), result: reply });
        SimpleUniformLocation::from_reply(reply)
    }

    /// Resolve an attribute slot by name against this program. The
    /// driver's reply is recorded; a negative reply means "no slot" and
    /// yields a location that never configures anything.
    pub fn get_attrib_location(&self, gl: &mut GL, name: &str, reply: i32) -> (location:
        AttribLocation)
        ensures
            final(gl).trace() =~= old(gl).trace() + seq![
                CommandView::QueryAttribLocation { name: name@, result: reply },
            ],
            final(gl).state() == old(gl).state(),
            final(gl).next_handle() == old(gl).next_handle(),
            final(gl).next_program_uid() == old(gl).next_program_uid(),
            location.spec_program_uid() == self.uid(),
            location.spec_slot() == if reply >= 0 {
                Some(reply as u32)
            } else {
                None::<u32>
            },
    {
        gl.issue(GlCommand::QueryAttribLocation { name: String::from_str(name), result: reply });
        if reply >= 0 {
            AttribLocation::new(self, reply as u32)
        } else {
            AttribLocation::missing(self)
        }
    }

    /// Release the driver program object. Consuming the program makes the
    /// release happen exactly once.
    pub fn delete(self, gl: &mut GL)
        ensures
            final(gl).trace() =~= old(gl).trace() + seq![
                CommandView::DeleteProgram { program: self.as_gl_program() },
            ],
            final(gl).state() == old(gl).state(),
            final(gl).next_handle() == old(gl).next_handle(),
            final(gl).next_program_uid() == old(gl).next_program_uid(),
    {
        gl.issue(GlCommand::DeleteProgram { program: self.handle });
    }
}

/// Run one stage's conversation: request a stage object, upload the
/// source, compile, query the status, and on failure retrieve the log.
/// The recorded conversation is exactly [`compile_trace`]; the result is
/// the granted handle, or the error the reply dictates.
fn compile_shader(gl: &mut GL, text: &str, shader_type: ShaderType, reply: &StageReply) -> (result:
    Result<u64, ShaderError>)
    requires
        old(gl).next_handle() < u64::MAX,
    ensures
        final(gl).trace() =~= old(gl).trace() + compile_trace(
            shader_type,
            text@,
            reply@,
            old(gl).next_handle(),
        ),
        final(gl).state() == old(gl).state(),
        final(gl).next_program_uid() == old(gl).next_program_uid(),
        result is Ok <==> stage_ok(reply@),
        result matches Ok(handle) ==> handle == old(gl).next_handle() && final(gl).next_handle()
            == old(gl).next_handle() + 1,
        !reply.created ==> (result matches Err(error) && error@
            == ShaderErrorView::ShaderCreateError(shader_type) && final(gl).next_handle() == old(gl).next_handle()),
        reply.created && !reply.compile_ok ==> (result matches Err(error) && error@
            == ShaderErrorView::CompileError(spec_log_text(reply@.info_log), shader_type) && final(gl).next_handle() == old(gl).next_handle() + 1),
    {
    if !reply.created {
        gl.issue(GlCommand::CreateShader { kind: shader_type, result: None });
        return Err(ShaderError::ShaderCreateError(shader_type));
    }
    let handle = gl.take_handle();
    gl.issue(GlCommand::CreateShader { kind: shader_type, result: Some(handle) });
    gl.issue(GlCommand::ShaderSource { shader: handle, source: String::from_str(text) });
    gl.issue(GlCommand::CompileShader { shader: handle });
    gl.issue(GlCommand::QueryCompileStatus { shader: handle, result: reply.compile_ok });
    if reply.compile_ok {
        Ok(handle)
    } else {
        gl.issue(GlCommand::QueryShaderInfoLog { shader: handle });
        Err(ShaderError::CompileError(log_text(&reply.info_log), shader_type))
    }
}

/// Run the link conversation: request a program object, attach every
/// compiled stage, link, query the status, and on failure retrieve the
/// log. The recorded conversation is exactly [`link_trace`].
fn link_into_program(gl: &mut GL, shaders: &Vec<u64>, reply: &LinkReply) -> (result: Result<
    u64,
    ShaderError,
>)
    requires
        old(gl).next_handle() < u64::MAX,
    ensures
        final(gl).trace() =~= old(gl).trace() + link_trace(shaders@, reply@, old(gl).next_handle()),
        final(gl).state() == old(gl).state(),
        final(gl).next_program_uid() == old(gl).next_program_uid(),
        result is Ok <==> reply.created && reply.link_ok,
        result matches Ok(handle) ==> handle == old(gl).next_handle() && final(gl).next_handle()
            == old(gl).next_handle() + 1,
        !reply.created ==> (result matches Err(error) && error@
            == ShaderErrorView::ProgramCreateError && final(gl).next_handle() == old(gl).next_handle()),
        reply.created && !reply.link_ok ==> (result matches Err(error) && error@
            == ShaderErrorView::LinkError(spec_log_text(reply@.info_log)) && final(gl).next_handle()
            == old(gl).next_handle() + 1),
{
    if !reply.created {
        gl.issue(GlCommand::CreateProgram { result: None });
        return Err(ShaderError::ProgramCreateError);
    }
    let handle = gl.take_handle();
    gl.issue(GlCommand::CreateProgram { result: Some(handle) });
    let ghost attach_base = gl.trace();
    let mut i: usize = 0;
    while i < shaders.len()
        invariant
            i <= shaders@.len(),
            gl.trace() =~= attach_base + attach_trace(shaders@.take(i as int), handle),
            gl.state() == old(gl).state(),
            gl.next_handle() == old(gl).next_handle() + 1,
            gl.next_program_uid() == old(gl).next_program_uid(),
        decreases shaders@.len() - i,
    {
        gl.issue(GlCommand::AttachShader { program: handle, shader: shaders[i] });
        proof {
            assert(shaders@.take(i + 1) =~= shaders@.take(i as int).push(shaders@[i as int]));
            assert(attach_trace(shaders@.take(i + 1), handle) =~= attach_trace(
                shaders@.take(i as int),
                handle,
            ).push(CommandView::AttachShader { program: handle, shader: shaders@[i as int] }));
        }
        i = i + 1;
    }
    proof {
        assert(shaders@.take(i as int) =~= shaders@);
    }
    gl.issue(GlCommand::LinkProgram { program: handle });
    gl.issue(GlCommand::QueryLinkStatus { program: handle, result: reply.link_ok });
    if reply.link_ok {
        Ok(handle)
    } else {
        gl.issue(GlCommand::QueryProgramInfoLog { program: handle });
        Err(ShaderError::LinkError(log_text(&reply.info_log)))
    }
}

/// Release a list of stage objects, in list order. The recorded
/// conversation is exactly [`delete_shaders_trace`].
fn delete_shaders(gl: &mut GL, shaders: &Vec<u64>)
    ensures
        final(gl).trace() =~= old(gl).trace() + delete_shaders_trace(shaders@),
        final(gl).state() == old(gl).state(),
        final(gl).next_handle() == old(gl).next_handle(),
        final(gl).next_program_uid() == old(gl).next_program_uid(),
{
    let mut i: usize = 0;
    while i < shaders.len()
        invariant
            i <= shaders@.len(),
            gl.trace() =~= old(gl).trace() + delete_shaders_trace(shaders@.take(i as int)),
            gl.state() == old(gl).state(),
            gl.next_handle() == old(gl).next_handle(),
            gl.next_program_uid() == old(gl).next_program_uid(),
        decreases shaders@.len() - i,
    {
        gl.issue(GlCommand::DeleteShader { shader: shaders[i] });
        proof {
            assert(shaders@.take(i + 1) =~= shaders@.take(i as int).push(shaders@[i as int]));
            assert(delete_shaders_trace(shaders@.take(i + 1)) =~= delete_shaders_trace(
                shaders@.take(i as int),
            ).push(CommandView::DeleteShader { shader: shaders@[i as int] }));
        }
        i = i + 1;
    }
    proof {
        assert(shaders@.take(i as int) =~= shaders@);
    }
}

} // verus!
