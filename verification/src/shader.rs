//! The staged build of a shader program: the builder that collects the
//! stages that the driver compiled, and the program that the driver linked
//! from them.

use vstd::prelude::*;
use vstd::slice::slice_subrange;
use vstd::utf8::decode_utf8;
use vstd::utf8::valid_utf8;
pub use crate::failure::BuildError;
use crate::failure::BuildFailure;
use crate::failure::lemma_message_not_empty;
use crate::outside::extension_of;
use crate::outside::gl_true;
use crate::outside::lossy_text;
use crate::outside::path_extension;
use crate::outside::text_from_utf8_lossy;
use crate::stage::slice_of;
use crate::stage::stage_of;
pub use crate::stage::ShaderType;
pub use crate::uniform::ShaderUniform;

verus! {

/// What the driver answered when it was asked to compile one stage.
#[derive(Debug, PartialEq, Eq)]
pub struct CompiledStage {
    /// The handle of the stage object.
    pub shader_id: u32,
    /// The compile status that the driver reports for it.
    pub status: i32,
    /// The driver's information log for it.
    pub info_log: String,
}

/// A `CompiledStage` as contracts see it.
pub struct StageReport {
    pub shader_id: u32,
    pub status: i32,
    pub info_log: Seq<char>,
}

impl View for CompiledStage {
    type V = StageReport;

    open spec fn view(&self) -> StageReport {
        StageReport { shader_id: self.shader_id, status: self.status, info_log: self.info_log@ }
    }
}

/// What the driver answered when it was asked to link the program.
#[derive(Debug, PartialEq, Eq)]
pub struct LinkStatus {
    /// The link status that the driver reports for the program.
    pub status: i32,
    /// The driver's information log for the program.
    pub info_log: String,
}

/// A `LinkStatus` as contracts see it.
pub struct LinkReport {
    pub status: i32,
    pub info_log: Seq<char>,
}

impl View for LinkStatus {
    type V = LinkReport;

    open spec fn view(&self) -> LinkReport {
        LinkReport { status: self.status, info_log: self.info_log@ }
    }
}

/// A linked program.
#[derive(Clone, Copy, Debug, PartialEq, Eq, Structural)]
pub struct Shader {
    pub program_id: u32,
}

/// A program under construction: the program object and the stages that
/// compiled so far, in the order in which they were attached.
#[derive(Debug)]
pub struct ShaderBuilder {
    program_id: u32,
    shaders: Vec<u32>,
}

/// A `ShaderBuilder` as contracts see it.
pub struct Pipeline {
    pub program_id: u32,
    pub stages: Seq<u32>,
}

impl View for ShaderBuilder {
    type V = Pipeline;

    closed spec fn view(&self) -> Pipeline {
        Pipeline { program_id: self.program_id, stages: self.shaders@ }
    }
}

/// The end of a successful build: the program, and the stage objects that
/// went into it and are of no further use.
#[derive(Debug, PartialEq, Eq)]
pub struct LinkedProgram {
    pub program: Shader,
    pub spent_stages: Vec<u32>,
}

impl View for LinkedProgram {
    type V = Pipeline;

    open spec fn view(&self) -> Pipeline {
        Pipeline { program_id: self.program.program_id, stages: self.spent_stages@ }
    }
}

/// The status by which the driver reports success.
pub open spec fn succeeded(status: i32) -> bool {
    status == 1
}

/// The pipeline after the driver compiled one more stage: longer by that
/// stage if it compiled, given up with the driver's log if it did not.
pub open spec fn compiled(pipeline: Pipeline, stage: StageReport) -> Result<
    Pipeline,
    BuildFailure,
> {
    if succeeded(stage.status) {
        Ok(
            Pipeline {
                program_id: pipeline.program_id,
                stages: pipeline.stages.push(stage.shader_id),
            },
        )
    } else {
        Err(BuildFailure::CompileFailed { info_log: stage.info_log })
    }
}

/// The pipeline after the stage file at `path` was attached. `loaded` is
/// absent if the file could not be read. The path is judged first, then
/// whether the file was read, then what the driver made of it.
pub open spec fn attached(
    pipeline: Pipeline,
    path: Seq<char>,
    extension: Option<Seq<char>>,
    loaded: Option<StageReport>,
) -> Result<Pipeline, BuildFailure> {
    match stage_of(path, extension) {
        Err(failure) => Err(failure),
        Ok(_) => match loaded {
            None => Err(BuildFailure::UnreadableSource { path }),
            Some(stage) => compiled(pipeline, stage),
        },
    }
}

/// The end of the build once the driver linked the program: the pipeline's
/// program and stages if it linked, the driver's log if it did not.
pub open spec fn linked(pipeline: Pipeline, link: LinkReport) -> Result<Pipeline, BuildFailure> {
    if succeeded(link.status) {
        Ok(pipeline)
    } else {
        Err(BuildFailure::LinkFailed { info_log: link.info_log })
    }
}

/// The pipeline for `program_id` after the driver compiled `stages`, one
/// after the other, starting with no stage.
pub open spec fn staged(program_id: u32, stages: Seq<StageReport>) -> Result<
    Pipeline,
    BuildFailure,
>
    decreases stages.len(),
{
    if stages.len() == 0 {
        Ok(Pipeline { program_id, stages: Seq::empty() })
    } else {
        match staged(program_id, stages.drop_last()) {
            Ok(pipeline) => compiled(pipeline, stages.last()),
            Err(failure) => Err(failure),
        }
    }
}

/// A whole build: the stages one after the other, then the link.
pub open spec fn built(program_id: u32, stages: Seq<StageReport>, link: LinkReport) -> Result<
    Pipeline,
    BuildFailure,
> {
    match staged(program_id, stages) {
        Ok(pipeline) => linked(pipeline, link),
        Err(failure) => Err(failure),
    }
}

/// What a builder's answer means to contracts.
pub open spec fn progress(answer: Result<ShaderBuilder, BuildError>) -> Result<
    Pipeline,
    BuildFailure,
> {
    match answer {
        Ok(builder) => Ok(builder@),
        Err(error) => Err(error@),
    }
}

/// The reports of compiled stages that may be absent.
pub open spec fn report_of(loaded: Option<CompiledStage>) -> Option<StageReport> {
    match loaded {
        Some(stage) => Some(stage@),
        None => None,
    }
}

/// What the end of a build means to contracts.
pub open spec fn finished(answer: Result<LinkedProgram, BuildError>) -> Result<
    Pipeline,
    BuildFailure,
> {
    match answer {
        Ok(done) => Ok(done@),
        Err(error) => Err(error@),
    }
}

/// The part of a log buffer that the driver filled, given the number of
/// bytes that it says it wrote: none for a number below one, the whole
/// buffer for a number beyond its end.
pub open spec fn written_bytes(buffer: Seq<u8>, written: i32) -> Seq<u8> {
    if written <= 0 {
        Seq::empty()
    } else if written >= buffer.len() {
        buffer
    } else {
        buffer.take(written as int)
    }
}

/// The text of an information log: the bytes that the driver wrote into
/// `buffer`, read as UTF-8, with a replacement character wherever they are
/// not.
pub fn info_log_text(buffer: &[u8], written: i32) -> (text: String)
    ensures
        text@ == lossy_text(written_bytes(buffer@, written)),
        valid_utf8(written_bytes(buffer@, written)) ==> text@ == decode_utf8(
            written_bytes(buffer@, written),
        ),
{
    let end: usize = if written <= 0 {
        0
    } else if written as usize >= buffer.len() {
        buffer.len()
    } else {
        written as usize
    };
    let filled = slice_subrange(buffer, 0, end);
    assert(filled@ =~= written_bytes(buffer@, written));
    text_from_utf8_lossy(filled)
}

impl ShaderBuilder {
    /// A builder for the program object `program_id`, with no stage yet.
    pub fn new(program_id: u32) -> (builder: ShaderBuilder)
        ensures
            builder@ == (Pipeline { program_id, stages: Seq::empty() }),
    {
        ShaderBuilder { program_id, shaders: Vec::new() }
    }

    /// The program object that the stages are collected for.
    pub fn program_id(&self) -> (id: u32)
        ensures
            id == self@.program_id,
    {
        self.program_id
    }

    /// The stages that compiled so far, in the order in which they were
    /// attached: what is to be attached to the program before it is linked.
    pub fn shaders(&self) -> (stages: &Vec<u32>)
        ensures
            stages@ == self@.stages,
    {
        &self.shaders
    }

    /// Whether the driver compiled the stage.
    pub fn check_shader_errors(stage: &CompiledStage) -> (ok: bool)
        ensures
            ok == succeeded(stage.status),
    {
        let wanted: u8 = gl_true();
        stage.status == wanted as i32
    }

    /// Whether the driver linked the program.
    pub fn check_linker_errors(link: &LinkStatus) -> (ok: bool)
        ensures
            ok == succeeded(link.status),
    {
        let wanted: u8 = gl_true();
        link.status == wanted as i32
    }

    /// Takes in a stage that the driver has compiled. A stage that did not
    /// compile ends the build with the driver's log.
    pub fn compile_shader(self, stage: CompiledStage) -> (answer: Result<
        ShaderBuilder,
        BuildError,
    >)
        ensures
            progress(answer) == compiled(self@, stage@),
            answer is Ok == succeeded(stage.status),
    {
        if !ShaderBuilder::check_shader_errors(&stage) {
            return Err(BuildError::CompileFailed { info_log: stage.info_log });
        }
        let mut builder = self;
        builder.shaders.push(stage.shader_id);
        Ok(builder)
    }

    /// Takes in the stage file at `shader_path`, whose extension the caller
    /// has taken from the path. `loaded` is what the driver made of the
    /// file's text, and absent if the file could not be read.
    pub fn attach_stage(
        self,
        shader_path: &str,
        extension: Option<&str>,
        loaded: Option<CompiledStage>,
    ) -> (answer: Result<ShaderBuilder, BuildError>)
        ensures
            progress(answer) == attached(
                self@,
                shader_path@,
                slice_of(extension),
                report_of(loaded),
            ),
    {
        match ShaderType::for_extension(shader_path, extension) {
            Err(error) => Err(error),
            Ok(_) => match loaded {
                None => Err(
                    BuildError::UnreadableSource { path: String::from_str(shader_path) },
                ),
                Some(stage) => self.compile_shader(stage),
            },
        }
    }

    /// Takes in the stage file at `shader_path`, its kind told by the
    /// extension of the path. `loaded` is what the driver made of the file's
    /// text, and absent if the file could not be read.
    pub fn attach_file(self, shader_path: &str, loaded: Option<CompiledStage>) -> (answer: Result<
        ShaderBuilder,
        BuildError,
    >)
        ensures
            progress(answer) == attached(
                self@,
                shader_path@,
                path_extension(shader_path@),
                report_of(loaded),
            ),
    {
        let extension = extension_of(shader_path);
        match &extension {
            Some(ext) => self.attach_stage(shader_path, Some(ext.as_str()), loaded),
            None => self.attach_stage(shader_path, None, loaded),
        }
    }

    /// Ends the build once the driver has linked the program. If it linked,
    /// the program comes back with the stage objects to release; if not, the
    /// build ends with the driver's log. Either way the builder is used up.
    pub fn link(self, link: LinkStatus) -> (answer: Result<LinkedProgram, BuildError>)
        ensures
            finished(answer) == linked(self@, link@),
            answer is Ok == succeeded(link.status),
    {
        if !ShaderBuilder::check_linker_errors(&link) {
            return Err(BuildError::LinkFailed { info_log: link.info_log });
        }
        Ok(
            LinkedProgram {
                program: Shader { program_id: self.program_id },
                spent_stages: self.shaders,
            },
        )
    }
}

/// If every stage compiles, the pipeline holds the program and the stage
/// handles in the order in which they were attached.
pub proof fn lemma_stages_collected(program_id: u32, stages: Seq<StageReport>)
    requires
        forall|i: int| 0 <= i < stages.len() ==> succeeded(#[trigger] stages[i].status),
    ensures
        staged(program_id, stages) == Ok::<Pipeline, BuildFailure>(
            Pipeline { program_id, stages: stages.map_values(|s: StageReport| s.shader_id) },
        ),
    decreases stages.len(),
{
    let handles = stages.map_values(|s: StageReport| s.shader_id);
    if stages.len() == 0 {
        assert(handles =~= Seq::<u32>::empty());
    } else {
        lemma_stages_collected(program_id, stages.drop_last());
        let before = stages.drop_last().map_values(|s: StageReport| s.shader_id);
        assert(succeeded(stages[stages.len() - 1].status));
        assert(handles =~= before.push(stages.last().shader_id));
    }
}

/// A stage that does not compile ends the build there: the build fails with
/// the log of the first such stage, whatever the stages after it and the link
/// would have answered, and yields no program.
pub proof fn lemma_failed_stage_ends_build(
    program_id: u32,
    stages: Seq<StageReport>,
    failed: int,
    link: LinkReport,
)
    requires
        0 <= failed < stages.len(),
        !succeeded(stages[failed].status),
        forall|i: int| 0 <= i < failed ==> succeeded(#[trigger] stages[i].status),
    ensures
        staged(program_id, stages) == Err::<Pipeline, BuildFailure>(
            BuildFailure::CompileFailed { info_log: stages[failed].info_log },
        ),
        built(program_id, stages, link) == Err::<Pipeline, BuildFailure>(
            BuildFailure::CompileFailed { info_log: stages[failed].info_log },
        ),
    decreases stages.len(),
{
    if failed == stages.len() - 1 {
        lemma_stages_collected(program_id, stages.drop_last());
    } else {
        lemma_failed_stage_ends_build(program_id, stages.drop_last(), failed, link);
    }
}

/// If every stage compiles and the program does not link, the build fails at
/// the link with the driver's log, and the text that reports it is not empty.
pub proof fn lemma_failed_link_ends_build(
    program_id: u32,
    stages: Seq<StageReport>,
    link: LinkReport,
)
    requires
        forall|i: int| 0 <= i < stages.len() ==> succeeded(#[trigger] stages[i].status),
        !succeeded(link.status),
    ensures
        built(program_id, stages, link) == Err::<Pipeline, BuildFailure>(
            BuildFailure::LinkFailed { info_log: link.info_log },
        ),
        (BuildFailure::LinkFailed { info_log: link.info_log }).message().len() > 0,
{
    lemma_stages_collected(program_id, stages);
    lemma_message_not_empty(BuildFailure::LinkFailed { info_log: link.info_log });
}

/// If every stage compiles and the program links, the build yields the
/// program with the stage handles in the order in which they were attached.
pub proof fn lemma_build_succeeds(program_id: u32, stages: Seq<StageReport>, link: LinkReport)
    requires
        forall|i: int| 0 <= i < stages.len() ==> succeeded(#[trigger] stages[i].status),
        succeeded(link.status),
    ensures
        built(program_id, stages, link) == Ok::<Pipeline, BuildFailure>(
            Pipeline { program_id, stages: stages.map_values(|s: StageReport| s.shader_id) },
        ),
{
    lemma_stages_collected(program_id, stages);
}

} // verus!
