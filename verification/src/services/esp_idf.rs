//! The invocations of the ESP-IDF toolchain.

use crate::services::pipeline::{EnvOverride, Pipeline, PipelineStage, PipelineView, StageView};
use crate::services::text::join;
use crate::views::views;
use vstd::prelude::*;

verus! {

/// The script that sets up the environment of the toolchain, under the home
/// directory.
pub const EXPORT_SCRIPT: &'static str = "esp/esp-idf/export.sh";

/// The stage that builds the project at `project_path`: `idf.py build`, run
/// in that directory.
pub open spec fn build_stage(project_path: Seq<char>) -> StageView {
    StageView {
        label: "build"@,
        program: "idf.py"@,
        args: seq!["build"@],
        working_directory: project_path,
        env: Seq::empty(),
    }
}

/// Makes the stage that builds a project.
pub fn build_cmd(project_path: &str) -> (stage: PipelineStage)
    ensures
        stage@ == build_stage(project_path@),
{
    let mut args: Vec<String> = Vec::new();
    args.push(String::from_str("build"));
    let stage = PipelineStage {
        label: String::from_str("build"),
        program: String::from_str("idf.py"),
        args,
        working_directory: String::from_str(project_path),
        env: Vec::new(),
    };
    assert(stage@.args =~= seq!["build"@]);
    assert(stage@.env =~= Seq::empty());
    stage
}

/// The stage that builds and flashes in one go: `idf.py build flash`, run
/// where the application runs.
pub open spec fn flash_stage_view() -> StageView {
    StageView {
        label: "flash"@,
        program: "idf.py"@,
        args: seq!["build"@, "flash"@],
        working_directory: ""@,
        env: Seq::empty(),
    }
}

/// Makes the stage that builds and flashes.
pub fn flash_stage() -> (stage: PipelineStage)
    ensures
        stage@ == flash_stage_view(),
{
    let mut args: Vec<String> = Vec::new();
    args.push(String::from_str("build"));
    args.push(String::from_str("flash"));
    let stage = PipelineStage {
        label: String::from_str("flash"),
        program: String::from_str("idf.py"),
        args,
        working_directory: String::from_str(""),
        env: Vec::new(),
    };
    assert(stage@.args =~= seq!["build"@, "flash"@]);
    assert(stage@.env =~= Seq::empty());
    stage
}

/// The script of a full build: take the toolchain's environment from
/// `export_script`, build, merge the binaries into `merged.bin`, and remove
/// everything else from the build directory. The script stops at the first
/// command that fails.
pub open spec fn build_script_text(export_script: Seq<char>) -> Seq<char> {
    "\nset -e\nsource \""@ + export_script
        + "\"\n\nidf.py build\nidf.py merge-bin -o merged.bin\n\n# keep only merged.bin inside build\nfind build -mindepth 1 ! -name 'merged.bin' -exec rm -rf {} +\n"@
}

/// Writes the script of a full build.
pub fn build_script(export_script: &str) -> (script: String)
    ensures
        script@ == build_script_text(export_script@),
{
    let mut script = join("\nset -e\nsource \"", export_script);
    script.append(
        "\"\n\nidf.py build\nidf.py merge-bin -o merged.bin\n\n# keep only merged.bin inside build\nfind build -mindepth 1 ! -name 'merged.bin' -exec rm -rf {} +\n",
    );
    script
}

/// The pipeline of a full build of the project at `project_path`: one stage
/// that hands the build script to a login shell, in the project's directory.
pub open spec fn full_build(project_path: Seq<char>, export_script: Seq<char>) -> PipelineView {
    PipelineView {
        name: "build+merge+clean"@,
        stages: seq![
            StageView {
                label: "build"@,
                program: "bash"@,
                args: seq!["-lc"@, build_script_text(export_script)],
                working_directory: project_path,
                env: Seq::empty(),
            },
        ],
    }
}

/// Makes the pipeline of a full build.
pub fn build_pipeline(project_path: &str, export_script: &str) -> (pipeline: Pipeline)
    ensures
        pipeline@ == full_build(project_path@, export_script@),
{
    let mut args: Vec<String> = Vec::new();
    args.push(String::from_str("-lc"));
    args.push(build_script(export_script));
    let stage = PipelineStage {
        label: String::from_str("build"),
        program: String::from_str("bash"),
        args,
        working_directory: String::from_str(project_path),
        env: Vec::new(),
    };
    assert(stage@.args =~= seq!["-lc"@, build_script_text(export_script@)]);
    assert(stage@.env =~= Seq::empty());
    Pipeline::single(String::from_str("build+merge+clean"), stage)
}

/// The stage that runs a command given by the user, where the application
/// runs.
pub fn live_stage(command: String, args: Vec<String>) -> (stage: PipelineStage)
    ensures
        stage@ == (StageView {
            label: "terminal"@,
            program: command@,
            args: views(args@),
            working_directory: ""@,
            env: Seq::empty(),
        }),
{
    let env: Vec<EnvOverride> = Vec::new();
    let stage = PipelineStage {
        label: String::from_str("terminal"),
        program: command,
        args,
        working_directory: String::from_str(""),
        env,
    };
    assert(stage@.env =~= Seq::empty());
    stage
}

} // verus!
