pub mod child_process;
pub mod kernel;
pub mod lang_config;
pub mod parent_process;
pub mod seccomp;

pub use lang_config::DefaultResLimit;

use lang_config::ResourceLimit;
use vstd::prelude::*;

verus! {

/// What to run and where its standard streams go.
pub struct RunConfig {
    pub exec_path: String,
    pub exec_args: String,
    pub exec_envs: String,
    pub infile_path: String,
    pub outfile_path: String,
    pub uid: i32,
}

/// The measurements and verdict of one run.
#[allow(dead_code)]
pub struct RunResult {
    cpu_time: u32,
    real_time: u32,
    memory: u64,
    signal: i32,
    exit_code: i32,
    error: JudgeError,
    result: JudgeResult,
}

#[derive(Debug, Clone, Copy, PartialEq, Eq, Structural)]
pub enum JudgeError {
    RunConfigInvalid,
    ForkFailed,
    PthreadFailed,
    WaitFailed,
    OpenFileFailed,
    Dup2Failed,
    SetrlimitFailed,
    SetuidFailed,
    SeccompFailed,
    ExecveFailed,
    NobodyRequired,
}

#[derive(Debug, Clone, Copy, PartialEq, Eq, Structural)]
pub enum JudgeResult {
    Waiting,
    Compiling,
    Running,
    Accepted,
    PresentationError,
    WrongAnswer,
    TimeLimitExceed,
    MemoryLimitExceed,
    OutputLimitExceed,
    RuntimeError,
    ComplieError,
    SystemError,
}

/// What `fork` handed back to the process that called it.
#[derive(Debug, Clone, Copy, PartialEq, Eq, Structural)]
pub enum ForkOutcome {
    /// This is the parent; the child has the given process id.
    Parent(i32),
    /// This is the child.
    Child,
    /// `fork` failed.
    Failed,
}

/// What a process does after `fork` returned.
#[derive(Debug, Clone, Copy, PartialEq, Eq, Structural)]
pub enum RunAction {
    /// Watch the child: it is killed once `time_limit` seconds of real time have passed.
    Supervise { child: i32, time_limit: u32 },
    /// Set the child up and replace its image by the submission.
    RunChild,
    /// Give up with this error.
    Fail(JudgeError),
}

/// The real-time limit in seconds that the parent waits for, where it fits in a `u32`.
pub fn parent_time_limit<R: ResourceLimit>(res_limit: &R) -> (t: Option<u32>)
    ensures
        t is Some <==> res_limit.spec_max_real_time() <= u32::MAX,
        t matches Some(v) ==> v == res_limit.spec_max_real_time(),
{
    let limit = res_limit.max_real_time();
    if limit <= 0xffff_ffffu64 {
        Some(limit as u32)
    } else {
        None
    }
}

/// The branch `run` takes once `fork` has returned.
///
/// The parent supervises the child under the real-time limit; a time limit that does not fit in
/// a `u32` is left out, as `run` cannot convert it.
pub fn run_after_fork<R: ResourceLimit>(outcome: ForkOutcome, res_limit: &R) -> (action: RunAction)
    requires
        outcome is Parent ==> res_limit.spec_max_real_time() <= u32::MAX,
    ensures
        action == (match outcome {
            ForkOutcome::Parent(child) => RunAction::Supervise {
                child,
                time_limit: res_limit.spec_max_real_time() as u32,
            },
            ForkOutcome::Child => RunAction::RunChild,
            ForkOutcome::Failed => RunAction::Fail(JudgeError::ForkFailed),
        }),
{
    match outcome {
        ForkOutcome::Parent(child) => {
            let limit = res_limit.max_real_time();
            RunAction::Supervise { child, time_limit: limit as u32 }
        },
        ForkOutcome::Child => RunAction::RunChild,
        ForkOutcome::Failed => RunAction::Fail(JudgeError::ForkFailed),
    }
}

} // verus!
