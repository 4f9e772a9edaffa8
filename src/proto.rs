use vstd::prelude::*;
use crate::container::{ContainerOutput, NO_EXIT_CODE};

verus! {

/// A request to benchmark one commit of a repository.
#[derive(Clone, Debug)]
pub struct BenchQuery {
    pub id: String,
    pub repo: String,
    pub commit: String,
}

/// What one stage printed, and how it exited.
#[derive(Clone, Debug, Default)]
pub struct StageOutput {
    pub stdout: Vec<String>,
    pub stderr: Vec<String>,
    pub exitcode: i32,
}

/// The end-to-end measurements of one sample document. Each sample is an
/// IEEE-754 double held as its bit pattern.
#[derive(Clone, Debug)]
pub struct BenchSamples {
    pub name: String,
    pub user_time: Vec<u64>,
    pub system_time: Vec<u64>,
    pub virtual_memory: Vec<u64>,
    pub resident_memory: Vec<u64>,
    pub cpu_percent: Vec<u64>,
}

/// The wall-clock measurements of one sample document, as bit patterns of
/// IEEE-754 doubles.
#[derive(Clone, Debug)]
pub struct BenchWalltimeSamples {
    pub name: String,
    pub walltime: Vec<u64>,
}

/// The outcome of one job: every stage's output and the measurements, or the
/// stage that failed with the outputs of the stages that ran.
#[derive(Clone, Debug)]
pub enum BenchResult {
    Success {
        id: String,
        samples: Vec<BenchSamples>,
        walltimes: Vec<BenchWalltimeSamples>,
        clone: StageOutput,
        fetch: StageOutput,
        build: StageOutput,
        bench_e2e: StageOutput,
        bench_walltime: StageOutput,
    },
    Failure {
        id: String,
        stage: String,
        clone: Option<StageOutput>,
        fetch: Option<StageOutput>,
        build: Option<StageOutput>,
        bench_e2e: Option<StageOutput>,
        bench_walltime: Option<StageOutput>,
    },
}

/// A container's exit code narrowed to 32 bits: "no exit code" stays the
/// sentinel `i32::MAX`, codes that fit are kept, and the others are clamped
/// without ever meeting 0 or the sentinel.
pub open spec fn narrowed(code: i64) -> i32 {
    if code == NO_EXIT_CODE {
        i32::MAX
    } else if code >= i32::MAX as i64 {
        (i32::MAX - 1) as i32
    } else if code < i32::MIN as i64 {
        i32::MIN
    } else {
        code as i32
    }
}

/// Narrows a container's exit code to a stage's.
pub fn narrow_exit_code(code: i64) -> (r: i32)
    ensures
        r == narrowed(code),
        r == i32::MAX <==> code == NO_EXIT_CODE,
        r == 0 <==> code == 0,
        i32::MIN <= code < i32::MAX ==> r as i64 == code,
{
    if code == NO_EXIT_CODE {
        i32::MAX
    } else if code >= i32::MAX as i64 {
        i32::MAX - 1
    } else if code < i32::MIN as i64 {
        i32::MIN
    } else {
        code as i32
    }
}

/// A container's output as a stage output: the lines are kept and the exit
/// code is narrowed as `narrowed` says.
pub open spec fn stage_output(output: ContainerOutput) -> StageOutput {
    StageOutput { stdout: output.stdout, stderr: output.stderr, exitcode: narrowed(output.exitcode) }
}

/// A container's output as a stage output: the lines are kept and the exit
/// code is narrowed as `narrowed` says.
impl From<ContainerOutput> for StageOutput {
    fn from(output: ContainerOutput) -> (r: StageOutput) {
        let exitcode = narrow_exit_code(output.exitcode);
        StageOutput { stdout: output.stdout, stderr: output.stderr, exitcode }
    }
}

impl vstd::std_specs::convert::FromSpecImpl<ContainerOutput> for StageOutput {
    open spec fn obeys_from_spec() -> bool {
        true
    }

    open spec fn from_spec(output: ContainerOutput) -> StageOutput {
        stage_output(output)
    }
}

} // verus!
