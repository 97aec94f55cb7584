//! The backend compilation orchestrator: named pipelines of external tool
//! stages, the command line of each stage, and the decision of what to do next
//! given the outcomes of the stages run so far.
use vstd::prelude::*;
use vstd::string::*;

verus! {

/// An external compiler, optimiser or lowering tool.
#[derive(Clone, Copy, Debug, PartialEq, Eq, Structural)]
pub enum Tool {
    /// The shading-language front-end compiler.
    Slangc,
    /// The intermediate-representation optimiser.
    SpirvOpt,
    /// The WGSL to SPIR-V translator.
    Naga,
    /// Lowers a module to the structured IR, links it and lifts it back.
    LowerLinkLift,
    /// Prints a module in the structured IR; it writes no new artifact.
    LowerPrint,
    /// Decompiles a module to GLSL for inspection.
    SpirvCross,
    /// Builds the Rust shader crate at its input into a module at its output;
    /// it runs in-process through the shader builder, not as a command.
    RustGpu,
}

/// A tool that runs in-process rather than as an external command.
pub open spec fn in_process(tool: Tool) -> bool {
    tool == Tool::RustGpu
}

/// The executable that runs `tool`.
pub open spec fn program_of(tool: Tool) -> Seq<char> {
    match tool {
        Tool::Slangc => "slangc"@,
        Tool::SpirvOpt => "spirv-opt"@,
        Tool::Naga => "naga"@,
        Tool::LowerLinkLift => "spv-lower-link-lift"@,
        Tool::LowerPrint => "spv-lower-print"@,
        Tool::SpirvCross => "spirv-cross"@,
        Tool::RustGpu => "spirv-builder"@,
    }
}

impl Tool {
    /// The name of the executable or builder that runs this tool.
    pub fn program(self) -> (r: String)
        ensures
            r@ == program_of(self),
    {
        match self {
            Tool::Slangc => String::from_str("slangc"),
            Tool::SpirvOpt => String::from_str("spirv-opt"),
            Tool::Naga => String::from_str("naga"),
            Tool::LowerLinkLift => String::from_str("spv-lower-link-lift"),
            Tool::LowerPrint => String::from_str("spv-lower-print"),
            Tool::SpirvCross => String::from_str("spirv-cross"),
            Tool::RustGpu => String::from_str("spirv-builder"),
        }
    }
}

/// What a stage is: a tool, the artifact it reads and the artifact it leaves.
pub struct StageModel {
    pub tool: Tool,
    pub input: Seq<char>,
    pub output: Seq<char>,
}

/// One run of one tool on one input artifact.
#[derive(Clone, Debug)]
pub struct Stage {
    pub tool: Tool,
    pub input: String,
    pub output: String,
}

impl View for Stage {
    type V = StageModel;

    open spec fn view(&self) -> StageModel {
        StageModel { tool: self.tool, input: self.input@, output: self.output@ }
    }
}

/// What a pipeline is: a label, the entry point of the compiled module, the
/// source artifact, the stages that turn it into the terminal artifact, and
/// the tool, if any, that inspects the terminal artifact once it is built.
pub struct PipelineModel {
    pub label: Seq<char>,
    pub entry_point: Seq<char>,
    pub source: Seq<char>,
    pub stages: Seq<StageModel>,
    pub inspect: Option<Tool>,
}

/// The chain of stages that produces one backend's compiled variant.
#[derive(Clone, Debug)]
pub struct Pipeline {
    pub label: String,
    pub entry_point: String,
    pub source: String,
    pub stages: Vec<Stage>,
    /// A diagnostic tool run on the terminal artifact; its outcome does not
    /// decide whether the variant exists.
    pub inspect: Option<Tool>,
}

impl View for Pipeline {
    type V = PipelineModel;

    open spec fn view(&self) -> PipelineModel {
        PipelineModel {
            label: self.label@,
            entry_point: self.entry_point@,
            source: self.source@,
            stages: self.stages@.map_values(|s: Stage| s@),
            inspect: self.inspect,
        }
    }
}

/// A path that ends in the module extension `.spv`.
pub open spec fn has_spv_extension(p: Seq<char>) -> bool {
    &&& p.len() >= 4
    &&& p[p.len() - 4] == '.'
    &&& p[p.len() - 3] == 's'
    &&& p[p.len() - 2] == 'p'
    &&& p[p.len() - 1] == 'v'
}

/// Where the link-and-lift tool leaves its result: the input path with its
/// `.spv` extension replaced by `.link.spv`.
pub open spec fn link_path(p: Seq<char>) -> Seq<char> {
    if has_spv_extension(p) {
        p.subrange(0, p.len() - 4) + ".link.spv"@
    } else {
        p + ".link.spv"@
    }
}

/// Where the GLSL decompilation of the module at `p` is written: the path with
/// its `.spv` extension replaced by `.glsl`.
pub open spec fn glsl_path(p: Seq<char>) -> Seq<char> {
    if has_spv_extension(p) {
        p.subrange(0, p.len() - 4) + ".glsl"@
    } else {
        p + ".glsl"@
    }
}

/// The artifact a stage of `tool` leaves when it reads `input`, where the tool
/// decides it rather than its command line.
pub open spec fn stage_output_rule(s: StageModel) -> bool {
    match s.tool {
        Tool::LowerLinkLift => s.output == link_path(s.input),
        Tool::LowerPrint => s.output == s.input,
        _ => true,
    }
}

/// Each stage reads what the previous one left, the first reads the source,
/// and every stage leaves the artifact its tool decides.
pub open spec fn pipeline_wf(p: PipelineModel) -> bool {
    &&& forall|i: int| 0 <= i < p.stages.len() ==> stage_output_rule(#[trigger] p.stages[i])
    &&& p.stages.len() > 0 ==> p.stages[0].input == p.source
    &&& forall|i: int|
        0 < i < p.stages.len() ==> (#[trigger] p.stages[i]).input == p.stages[i - 1].output
}

/// The artifact that becomes the pipeline's compiled variant.
pub open spec fn artifact_of(p: PipelineModel) -> Seq<char> {
    if p.stages.len() == 0 {
        p.source
    } else {
        p.stages.last().output
    }
}

/// The arguments each tool is given.
pub open spec fn args_of(s: StageModel) -> Seq<Seq<char>> {
    match s.tool {
        Tool::Slangc => seq![
            s.input,
            "-O3"@,
            "-profile"@,
            "sm_5_0"@,
            "-stage"@,
            "compute"@,
            "-entry"@,
            "main"@,
            "-o"@,
            s.output,
        ],
        Tool::SpirvOpt => seq!["-O"@, s.input, "-o"@, s.output],
        Tool::Naga => seq![s.input, s.output],
        Tool::LowerLinkLift => seq![s.input],
        Tool::LowerPrint => seq![s.input],
        Tool::SpirvCross => seq![s.input, "--output"@, s.output],
        Tool::RustGpu => seq![s.input, s.output],
    }
}

/// A command line: the executable and its arguments.
#[derive(Clone, Debug)]
pub struct Invocation {
    pub program: String,
    pub args: Vec<String>,
}

/// `inv` is the command line that runs stage `s`.
pub open spec fn runs_stage(inv: Invocation, s: StageModel) -> bool {
    &&& inv.program@ == program_of(s.tool)
    &&& inv.args.deep_view() == args_of(s)
}

fn lit(s: &str) -> (r: String)
    ensures
        r@ == s@,
{
    String::from_str(s)
}

/// The command line that runs `stage`.
pub fn invocation(stage: &Stage) -> (r: Invocation)
    ensures
        runs_stage(r, stage@),
{
    let mut args: Vec<String> = Vec::new();
    match stage.tool {
        Tool::Slangc => {
            args.push(stage.input.clone());
            args.push(lit("-O3"));
            args.push(lit("-profile"));
            args.push(lit("sm_5_0"));
            args.push(lit("-stage"));
            args.push(lit("compute"));
            args.push(lit("-entry"));
            args.push(lit("main"));
            args.push(lit("-o"));
            args.push(stage.output.clone());
        },
        Tool::SpirvOpt => {
            args.push(lit("-O"));
            args.push(stage.input.clone());
            args.push(lit("-o"));
            args.push(stage.output.clone());
        },
        Tool::Naga => {
            args.push(stage.input.clone());
            args.push(stage.output.clone());
        },
        Tool::LowerLinkLift => {
            args.push(stage.input.clone());
        },
        Tool::LowerPrint => {
            args.push(stage.input.clone());
        },
        Tool::SpirvCross => {
            args.push(stage.input.clone());
            args.push(lit("--output"));
            args.push(stage.output.clone());
        },
        Tool::RustGpu => {
            args.push(stage.input.clone());
            args.push(stage.output.clone());
        },
    }
    let r = Invocation { program: stage.tool.program(), args };
    assert(r.args.deep_view() =~= args_of(stage@));
    r
}

fn without_spv_extension(p: &str) -> (r: &str)
    ensures
        r@ == (if has_spv_extension(p@) {
            p@.subrange(0, p@.len() - 4)
        } else {
            p@
        }),
{
    let n = p.unicode_len();
    if n >= 4 && p.get_char(n - 4) == '.' && p.get_char(n - 3) == 's' && p.get_char(n - 2)
        == 'p' && p.get_char(n - 1) == 'v' {
        p.substring_char(0, n - 4)
    } else {
        p
    }
}

/// Where the link-and-lift tool leaves its result for the module at `input`.
pub fn link_output(input: &str) -> (r: String)
    ensures
        r@ == link_path(input@),
{
    String::from_str(without_spv_extension(input)).concat(".link.spv")
}

/// The stage that decompiles the module at `spv` to GLSL beside it.
pub fn glsl_dump_stage(spv: &String) -> (r: Stage)
    ensures
        r@ == stage_of(Tool::SpirvCross, spv@, glsl_path(spv@)),
{
    let output = String::from_str(without_spv_extension(spv.as_str())).concat(".glsl");
    Stage { tool: Tool::SpirvCross, input: spv.clone(), output }
}

/// The outcome of one stage.
#[derive(Clone, Copy, Debug, PartialEq, Eq, Structural)]
pub enum StageStatus {
    Succeeded,
    /// The tool exited with this code (none when it could not start or did not
    /// exit normally), or exited with zero and left no output artifact.
    Failed { exit_code: Option<i32> },
}

/// A stage succeeds exactly when its tool exits with zero and its output
/// artifact exists; what it wrote to its error stream plays no part.
pub fn stage_status(exit_code: Option<i32>, output_exists: bool) -> (r: StageStatus)
    ensures
        r == (if exit_code == Some(0i32) && output_exists {
            StageStatus::Succeeded
        } else {
            StageStatus::Failed { exit_code }
        }),
{
    match exit_code {
        Some(code) => {
            if code == 0 && output_exists {
                StageStatus::Succeeded
            } else {
                StageStatus::Failed { exit_code }
            }
        },
        None => StageStatus::Failed { exit_code },
    }
}

/// Whether a tool's error stream is worth showing: more than a lone line break.
pub fn surfaces_stderr(stderr: &Vec<u8>) -> (r: bool)
    ensures
        r == (stderr@.len() > 1),
{
    stderr.len() > 1
}

/// Why a pipeline produced no variant: the index of the stage that failed, its
/// tool, and the tool's exit code.
#[derive(Clone, Copy, Debug, PartialEq, Eq, Structural)]
pub struct CompilationFailure {
    pub stage: usize,
    pub tool: Tool,
    pub exit_code: Option<i32>,
}

/// What to do next for a pipeline.
#[derive(Clone, Debug)]
pub enum Progress {
    /// Run this command line for the next stage.
    Run(Invocation),
    /// Build the Rust shader crate at `crate_dir` into a module at `output`:
    /// the next stage runs in-process.
    Build { crate_dir: String, output: String },
    /// Every stage succeeded: the variant is the artifact at this path.
    Compiled(String),
    /// A stage failed: the stages after it cannot run.
    Failed(CompilationFailure),
}

/// The first `n` stage outcomes are all successes.
pub open spec fn succeeded_upto(st: Seq<StageStatus>, n: int) -> bool {
    forall|i: int| 0 <= i < n ==> st[i] == StageStatus::Succeeded
}

/// What comes next for pipeline `p` once its first stages ended with `st`.
pub open spec fn progress_spec(p: PipelineModel, st: Seq<StageStatus>, r: Progress) -> bool {
    match r {
        Progress::Run(inv) => {
            &&& succeeded_upto(st, st.len() as int)
            &&& st.len() < p.stages.len()
            &&& !in_process(p.stages[st.len() as int].tool)
            &&& runs_stage(inv, p.stages[st.len() as int])
        },
        Progress::Build { crate_dir, output } => {
            &&& succeeded_upto(st, st.len() as int)
            &&& st.len() < p.stages.len()
            &&& in_process(p.stages[st.len() as int].tool)
            &&& crate_dir@ == p.stages[st.len() as int].input
            &&& output@ == p.stages[st.len() as int].output
        },
        Progress::Compiled(path) => {
            &&& succeeded_upto(st, st.len() as int)
            &&& st.len() == p.stages.len()
            &&& path@ == artifact_of(p)
        },
        Progress::Failed(f) => {
            &&& f.stage < st.len()
            &&& succeeded_upto(st, f.stage as int)
            &&& st[f.stage as int] == (StageStatus::Failed { exit_code: f.exit_code })
            &&& f.tool == p.stages[f.stage as int].tool
        },
    }
}

/// Decides the next step of pipeline `p`, given the outcomes of the stages run
/// so far, in order: the first failed stage ends the pipeline; otherwise the
/// next stage runs; once every stage has succeeded, the terminal artifact is
/// the compiled variant.
pub fn progress(p: &Pipeline, statuses: &Vec<StageStatus>) -> (r: Progress)
    requires
        statuses.len() <= p.stages.len(),
    ensures
        progress_spec(p@, statuses@, r),
{
    let mut i: usize = 0;
    while i < statuses.len()
        invariant
            i <= statuses.len(),
            statuses.len() <= p.stages.len(),
            succeeded_upto(statuses@, i as int),
        decreases statuses.len() - i,
    {
        match statuses[i] {
            StageStatus::Succeeded => {},
            StageStatus::Failed { exit_code } => {
                assert(p@.stages[i as int] == p.stages@[i as int]@);
                return Progress::Failed(
                    CompilationFailure { stage: i, tool: p.stages[i].tool, exit_code },
                );
            },
        }
        i = i + 1;
    }
    if statuses.len() < p.stages.len() {
        let next = &p.stages[statuses.len()];
        assert(p@.stages[statuses.len() as int] == next@);
        match next.tool {
            Tool::RustGpu => Progress::Build {
                crate_dir: next.input.clone(),
                output: next.output.clone(),
            },
            _ => Progress::Run(invocation(next)),
        }
    } else {
        Progress::Compiled(artifact(p))
    }
}

/// The path of the pipeline's terminal artifact.
pub fn artifact(p: &Pipeline) -> (r: String)
    ensures
        r@ == artifact_of(p@),
{
    if p.stages.len() == 0 {
        p.source.clone()
    } else {
        assert(p@.stages.last() == p.stages@[p.stages.len() - 1]@);
        p.stages[p.stages.len() - 1].output.clone()
    }
}

/// The stage that inspects a pipeline's terminal artifact: the GLSL
/// decompiler writes beside the module; any other tool only reads it.
pub open spec fn inspection_spec(p: PipelineModel) -> Option<StageModel> {
    let a = artifact_of(p);
    match p.inspect {
        None => None,
        Some(t) => Some(
            if t == Tool::SpirvCross {
                stage_of(t, a, glsl_path(a))
            } else {
                stage_of(t, a, a)
            },
        ),
    }
}

/// The diagnostic stage to run once pipeline `p` has built its variant.
pub fn inspection(p: &Pipeline) -> (r: Option<Stage>)
    ensures
        match (r, inspection_spec(p@)) {
            (Some(s), Some(m)) => s@ == m,
            (None, None) => true,
            _ => false,
        },
{
    match p.inspect {
        None => None,
        Some(Tool::SpirvCross) => Some(glsl_dump_stage(&artifact(p))),
        Some(t) => {
            let a = artifact(p);
            Some(Stage { tool: t, input: a.clone(), output: a })
        },
    }
}

/// The stage failure to report when a pipeline's terminal artifact cannot be
/// read after its last stage succeeded: that stage left no usable output.
pub fn unreadable_artifact(p: &Pipeline) -> (r: Option<CompilationFailure>)
    ensures
        p.stages@.len() == 0 ==> r is None,
        p.stages@.len() > 0 ==> r == Some(
            CompilationFailure {
                stage: (p.stages@.len() - 1) as usize,
                tool: p.stages@.last().tool,
                exit_code: Some(0i32),
            },
        ),
{
    if p.stages.len() == 0 {
        None
    } else {
        let last = p.stages.len() - 1;
        Some(CompilationFailure { stage: last, tool: p.stages[last].tool, exit_code: Some(0) })
    }
}

/// `name` inside directory `dir`.
pub open spec fn path_in(dir: Seq<char>, name: Seq<char>) -> Seq<char> {
    dir + "/"@ + name
}

pub open spec fn stage_of(tool: Tool, input: Seq<char>, output: Seq<char>) -> StageModel {
    StageModel { tool, input, output }
}

/// A pipeline whose compiled module's entry point is `main`.
pub open spec fn pipeline_of(
    label: Seq<char>,
    source: Seq<char>,
    stages: Seq<StageModel>,
    inspect: Option<Tool>,
) -> PipelineModel {
    PipelineModel { label, entry_point: "main"@, source, stages, inspect }
}

/// The backends under comparison, in the order they are reported, with the
/// shader crate and the artifacts of project directory `root`: the native
/// module built from the Rust shader crate, and its optimised form; the WGSL
/// translation, optimised, then linked in the structured IR; and the
/// shading-language build taken through the same steps. The native module is
/// decompiled to GLSL, and the shading-language modules are printed in the
/// structured IR, once built.
pub open spec fn standard_plan_spec(root: Seq<char>) -> Seq<PipelineModel> {
    let crate_dir = path_in(root, "shaders/compute_shader"@);
    let rust = path_in(root, "src/compute_shader_rust.spv"@);
    let rust_opt = path_in(root, "src/compute_shader_rust.opt.spv"@);
    let wgsl = path_in(root, "src/compute_shader.wgsl"@);
    let wgsl_spv = path_in(root, "src/compute_shader.wgsl.spv"@);
    let wgsl_opt = path_in(root, "src/compute_shader.wgsl.opt.spv"@);
    let slang_src = path_in(root, "src/compute_shader.slang"@);
    let slang_spv = path_in(root, "src/compute_shader_slang.spv"@);
    let slang_opt = path_in(root, "src/compute_shader_slang.opt.spv"@);
    let build = stage_of(Tool::RustGpu, crate_dir, rust);
    let naga = stage_of(Tool::Naga, wgsl, wgsl_spv);
    let wgsl_optimise = stage_of(Tool::SpirvOpt, wgsl_spv, wgsl_opt);
    let slangc = stage_of(Tool::Slangc, slang_src, slang_spv);
    let slang_optimise = stage_of(Tool::SpirvOpt, slang_spv, slang_opt);
    seq![
        pipeline_of("rust gpu"@, crate_dir, seq![build], Some(Tool::SpirvCross)),
        pipeline_of(
            "rust > opt"@,
            crate_dir,
            seq![build, stage_of(Tool::SpirvOpt, rust, rust_opt)],
            None,
        ),
        pipeline_of("wgsl"@, wgsl, seq![naga], None),
        pipeline_of("wgsl > spirv-opt"@, wgsl, seq![naga, wgsl_optimise], None),
        pipeline_of(
            "wgsl > spirv-opt > spirt"@,
            wgsl,
            seq![naga, wgsl_optimise, stage_of(Tool::LowerLinkLift, wgsl_opt, link_path(wgsl_opt))],
            None,
        ),
        pipeline_of("slang"@, slang_src, seq![slangc], Some(Tool::LowerPrint)),
        pipeline_of(
            "slang > spirv-opt"@,
            slang_src,
            seq![slangc, slang_optimise],
            Some(Tool::LowerPrint),
        ),
        pipeline_of(
            "slang > spirv-opt > spirt"@,
            slang_src,
            seq![
                slangc,
                slang_optimise,
                stage_of(Tool::LowerLinkLift, slang_opt, link_path(slang_opt)),
            ],
            None,
        ),
    ]
}

/// The views of a list of pipelines.
pub open spec fn plan_view(plan: Seq<Pipeline>) -> Seq<PipelineModel> {
    plan.map_values(|p: Pipeline| p@)
}

/// The path of `name` inside `dir`.
pub fn join_path(dir: &String, name: &str) -> (r: String)
    ensures
        r@ == path_in(dir@, name@),
{
    dir.clone().concat("/").concat(name)
}

fn stage(tool: Tool, input: &String, output: &String) -> (r: Stage)
    ensures
        r@ == stage_of(tool, input@, output@),
{
    Stage { tool, input: input.clone(), output: output.clone() }
}

fn chain1(a: Stage) -> (r: Vec<Stage>)
    ensures
        r@.map_values(|s: Stage| s@) == seq![a@],
{
    let r = vec![a];
    assert(r@.map_values(|s: Stage| s@) =~= seq![a@]);
    r
}

fn chain2(a: Stage, b: Stage) -> (r: Vec<Stage>)
    ensures
        r@.map_values(|s: Stage| s@) == seq![a@, b@],
{
    let r = vec![a, b];
    assert(r@.map_values(|s: Stage| s@) =~= seq![a@, b@]);
    r
}

fn chain3(a: Stage, b: Stage, c: Stage) -> (r: Vec<Stage>)
    ensures
        r@.map_values(|s: Stage| s@) == seq![a@, b@, c@],
{
    let r = vec![a, b, c];
    assert(r@.map_values(|s: Stage| s@) =~= seq![a@, b@, c@]);
    r
}

fn pipeline(label: &str, source: &String, stages: Vec<Stage>, inspect: Option<Tool>) -> (r:
    Pipeline)
    ensures
        r@ == pipeline_of(label@, source@, stages@.map_values(|s: Stage| s@), inspect),
{
    Pipeline {
        label: lit(label),
        entry_point: lit("main"),
        source: source.clone(),
        stages,
        inspect,
    }
}

/// The pipelines of every backend under comparison, over the shader crate and
/// the artifacts of project directory `root`.
pub fn standard_plan(root: &String) -> (r: Vec<Pipeline>)
    ensures
        plan_view(r@) == standard_plan_spec(root@),
        forall|i: int| 0 <= i < r@.len() ==> pipeline_wf(#[trigger] r@[i]@),
{
    let crate_dir = join_path(root, "shaders/compute_shader");
    let rust = join_path(root, "src/compute_shader_rust.spv");
    let rust_opt = join_path(root, "src/compute_shader_rust.opt.spv");
    let wgsl = join_path(root, "src/compute_shader.wgsl");
    let wgsl_spv = join_path(root, "src/compute_shader.wgsl.spv");
    let wgsl_opt = join_path(root, "src/compute_shader.wgsl.opt.spv");
    let wgsl_link = link_output(wgsl_opt.as_str());
    let slang_src = join_path(root, "src/compute_shader.slang");
    let slang_spv = join_path(root, "src/compute_shader_slang.spv");
    let slang_opt = join_path(root, "src/compute_shader_slang.opt.spv");
    let slang_link = link_output(slang_opt.as_str());

    let mut plan: Vec<Pipeline> = Vec::new();
    plan.push(
        pipeline(
            "rust gpu",
            &crate_dir,
            chain1(stage(Tool::RustGpu, &crate_dir, &rust)),
            Some(Tool::SpirvCross),
        ),
    );
    plan.push(
        pipeline(
            "rust > opt",
            &crate_dir,
            chain2(stage(Tool::RustGpu, &crate_dir, &rust), stage(Tool::SpirvOpt, &rust, &rust_opt)),
            None,
        ),
    );
    plan.push(pipeline("wgsl", &wgsl, chain1(stage(Tool::Naga, &wgsl, &wgsl_spv)), None));
    plan.push(
        pipeline(
            "wgsl > spirv-opt",
            &wgsl,
            chain2(stage(Tool::Naga, &wgsl, &wgsl_spv), stage(Tool::SpirvOpt, &wgsl_spv, &wgsl_opt)),
            None,
        ),
    );
    plan.push(
        pipeline(
            "wgsl > spirv-opt > spirt",
            &wgsl,
            chain3(
                stage(Tool::Naga, &wgsl, &wgsl_spv),
                stage(Tool::SpirvOpt, &wgsl_spv, &wgsl_opt),
                stage(Tool::LowerLinkLift, &wgsl_opt, &wgsl_link),
            ),
            None,
        ),
    );
    plan.push(
        pipeline(
            "slang",
            &slang_src,
            chain1(stage(Tool::Slangc, &slang_src, &slang_spv)),
            Some(Tool::LowerPrint),
        ),
    );
    plan.push(
        pipeline(
            "slang > spirv-opt",
            &slang_src,
            chain2(
                stage(Tool::Slangc, &slang_src, &slang_spv),
                stage(Tool::SpirvOpt, &slang_spv, &slang_opt),
            ),
            Some(Tool::LowerPrint),
        ),
    );
    plan.push(
        pipeline(
            "slang > spirv-opt > spirt",
            &slang_src,
            chain3(
                stage(Tool::Slangc, &slang_src, &slang_spv),
                stage(Tool::SpirvOpt, &slang_spv, &slang_opt),
                stage(Tool::LowerLinkLift, &slang_opt, &slang_link),
            ),
            None,
        ),
    );
    assert(plan_view(plan@) =~= standard_plan_spec(root@));
    plan
}

/// The outcome remembered for stage `s`: that of the latest entry for an
/// equal stage, if any.
pub open spec fn cached_status(entries: Seq<(StageModel, StageStatus)>, s: StageModel) -> Option<
    StageStatus,
>
    decreases entries.len(),
{
    if entries.len() == 0 {
        None
    } else if entries.last().0 == s {
        Some(entries.last().1)
    } else {
        cached_status(entries.drop_last(), s)
    }
}

/// The outcomes of the stages run so far in one benchmark run. Stages are
/// idempotent, so a stage shared by several pipelines runs once and its
/// outcome is reused.
pub struct StageCache {
    entries: Vec<(Stage, StageStatus)>,
}

impl View for StageCache {
    type V = Seq<(StageModel, StageStatus)>;

    closed spec fn view(&self) -> Seq<(StageModel, StageStatus)> {
        self.entries@.map_values(|e: (Stage, StageStatus)| (e.0@, e.1))
    }
}

fn copy_stage(s: &Stage) -> (r: Stage)
    ensures
        r@ == s@,
{
    Stage { tool: s.tool, input: s.input.clone(), output: s.output.clone() }
}

fn same_stage(a: &Stage, b: &Stage) -> (r: bool)
    ensures
        r == (a@ == b@),
{
    a.tool == b.tool && a.input == b.input && a.output == b.output
}

impl StageCache {
    /// A cache that remembers nothing.
    pub fn new() -> (r: StageCache)
        ensures
            r@ == Seq::<(StageModel, StageStatus)>::empty(),
    {
        let r = StageCache { entries: Vec::new() };
        assert(r@ =~= Seq::<(StageModel, StageStatus)>::empty());
        r
    }

    /// The remembered outcome of `stage`, if it ran before.
    pub fn lookup(&self, stage: &Stage) -> (r: Option<StageStatus>)
        ensures
            r == cached_status(self@, stage@),
    {
        let mut i: usize = self.entries.len();
        assert(self@.subrange(0, i as int) =~= self@);
        while i > 0
            invariant
                i <= self.entries@.len(),
                cached_status(self@, stage@) == cached_status(self@.subrange(0, i as int), stage@),
            decreases i,
        {
            let ghost prefix = self@.subrange(0, i as int);
            assert(prefix.last() == (self.entries@[i - 1].0@, self.entries@[i - 1].1));
            if same_stage(&self.entries[i - 1].0, stage) {
                return Some(self.entries[i - 1].1);
            }
            assert(prefix.drop_last() =~= self@.subrange(0, i - 1));
            i = i - 1;
        }
        None
    }

    /// Remembers the outcome of a stage that has just run.
    pub fn remember(&mut self, stage: &Stage, status: StageStatus)
        ensures
            final(self)@ == old(self)@.push((stage@, status)),
    {
        let ghost before = self@;
        self.entries.push((copy_stage(stage), status));
        assert(final(self)@ =~= before.push((stage@, status)));
    }
}

/// A compiled variant: the backend's label, the entry point of its module and
/// the module's bytes.
#[derive(Clone, Debug)]
pub struct CompiledVariant {
    pub name: Option<String>,
    pub entry_point: String,
    pub binary: Vec<u8>,
}

/// The variant a pipeline produced, from the bytes of its terminal artifact.
pub fn compiled_variant(p: &Pipeline, binary: Vec<u8>) -> (r: CompiledVariant)
    ensures
        r.name matches Some(n) && n@ == p.label@,
        r.entry_point@ == p.entry_point@,
        r.binary@ == binary@,
{
    CompiledVariant { name: Some(p.label.clone()), entry_point: p.entry_point.clone(), binary }
}

} // verus!
