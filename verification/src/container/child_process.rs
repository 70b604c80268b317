use nix::errno::Errno;
use nix::libc::rlim_t;
use vstd::prelude::*;
use vstd::std_specs::iter::IteratorSpec;

use super::kernel::{set_rlimit, RlimitReceipt};
use super::lang_config::ResourceLimit;
use super::{JudgeError, RunConfig};

verus! {

#[verifier::external_type_specification]
#[verifier::external_body]
pub struct ExErrno(Errno);

/// The resources that the child limits before it runs the submission.
#[derive(Debug, Clone, Copy, PartialEq, Eq, Structural)]
pub enum RlimitResource {
    /// `RLIMIT_AS`: virtual memory, in bytes.
    AddressSpace,
    /// `RLIMIT_STACK`: stack size, in bytes.
    Stack,
    /// `RLIMIT_CPU`: cpu time, in seconds.
    CpuTime,
    /// `RLIMIT_NPROC`: number of processes.
    Processes,
    /// `RLIMIT_FSIZE`: size of a written file, in bytes.
    FileSize,
}

/// One call of `setrlimit`: a resource with its soft and hard limit.
#[derive(Debug, Clone, Copy, PartialEq, Eq, Structural)]
pub struct RlimitSetting {
    pub resource: RlimitResource,
    pub soft: rlim_t,
    pub hard: rlim_t,
}

/// The limit set on `resource` at both the soft and the hard level.
pub open spec fn both_levels(resource: RlimitResource, limit: rlim_t) -> RlimitSetting {
    RlimitSetting { resource, soft: limit, hard: limit }
}

/// The `setrlimit` calls that set up a child under `res_limit`, in the order they are made.
pub open spec fn rlimit_plan_spec<R: ResourceLimit>(res_limit: &R) -> Seq<RlimitSetting> {
    seq![
        both_levels(RlimitResource::AddressSpace, res_limit.spec_max_memory()),
        both_levels(RlimitResource::Stack, res_limit.spec_max_stack()),
        both_levels(RlimitResource::CpuTime, res_limit.spec_max_cpu_time()),
        both_levels(RlimitResource::Processes, res_limit.spec_max_process()),
        both_levels(RlimitResource::FileSize, res_limit.spec_max_output()),
    ]
}

/// Every limit is set at the same soft and hard level, each of the five resources is limited
/// exactly once, and each takes the value its method of `ResourceLimit` reports.
pub proof fn lemma_plan_limits_each_resource_once<R: ResourceLimit>(res_limit: &R)
    ensures
        rlimit_plan_spec(res_limit).len() == 5,
        forall|i: int|
            0 <= i < 5 ==> #[trigger] rlimit_plan_spec(res_limit)[i].soft == rlimit_plan_spec(
                res_limit,
            )[i].hard,
        forall|i: int, j: int|
            0 <= i < j < 5 ==> #[trigger] rlimit_plan_spec(res_limit)[i].resource
                != #[trigger] rlimit_plan_spec(res_limit)[j].resource,
        forall|r: RlimitResource|
            0 <= #[trigger] plan_slot(r) < 5 && rlimit_plan_spec(res_limit)[plan_slot(r)].resource
                == r,
{
}

/// The position of `resource` in the plan.
pub open spec fn plan_slot(resource: RlimitResource) -> int {
    match resource {
        RlimitResource::AddressSpace => 0,
        RlimitResource::Stack => 1,
        RlimitResource::CpuTime => 2,
        RlimitResource::Processes => 3,
        RlimitResource::FileSize => 4,
    }
}

/// The settings that `setup_res_limit` applies, in order.
pub fn rlimit_plan<R: ResourceLimit>(res_limit: &R) -> (plan: Vec<RlimitSetting>)
    ensures
        plan@ == rlimit_plan_spec(res_limit),
{
    let memory = res_limit.max_memory();
    let stack = res_limit.max_stack();
    let cpu = res_limit.max_cpu_time();
    let process = res_limit.max_process();
    let output = res_limit.max_output();
    let mut plan: Vec<RlimitSetting> = Vec::new();
    plan.push(RlimitSetting { resource: RlimitResource::AddressSpace, soft: memory, hard: memory });
    plan.push(RlimitSetting { resource: RlimitResource::Stack, soft: stack, hard: stack });
    plan.push(RlimitSetting { resource: RlimitResource::CpuTime, soft: cpu, hard: cpu });
    plan.push(RlimitSetting { resource: RlimitResource::Processes, soft: process, hard: process });
    plan.push(RlimitSetting { resource: RlimitResource::FileSize, soft: output, hard: output });
    plan
}

/// The number of settings in the plan.
pub open spec fn plan_len() -> nat {
    5
}

/// What comes after the setting at `index` of the plan was applied with result `applied`: the
/// refusal is returned, otherwise the next setting, or the end when it was the last.
pub open spec fn rlimit_transition(index: nat, applied: Result<(), Errno>) -> Result<
    Option<nat>,
    Errno,
> {
    match applied {
        Err(e) => Err(e),
        Ok(()) => Ok(if index + 1 < plan_len() { Some((index + 1) as nat) } else { None }),
    }
}

/// Decides what comes after the setting at `index` of the plan was applied.
pub fn rlimit_next(index: usize, applied: Result<(), Errno>) -> (next: Result<Option<usize>, Errno>)
    requires
        index < plan_len(),
    ensures
        applied matches Err(e) ==> next == Err::<Option<usize>, Errno>(e),
        applied is Ok ==> next == Ok::<Option<usize>, Errno>(
            if index + 1 < plan_len() { Some((index + 1) as usize) } else { None },
        ),
{
    match applied {
        Err(e) => Err(e),
        Ok(()) => Ok(if index + 1 < 5 { Some(index + 1) } else { None }),
    }
}

/// The result of applying the plan from the setting at `index` on, when the setting at `i`
/// is answered by `outcomes[i]`; answers that are missing count as accepted.
pub open spec fn rlimit_run_from(index: nat, outcomes: Seq<Result<(), Errno>>) -> Result<(), Errno>
    decreases plan_len() - index,
{
    if index >= plan_len() || index >= outcomes.len() {
        Ok(())
    } else {
        match rlimit_transition(index, outcomes[index as int]) {
            Err(e) => Err(e),
            Ok(None) => Ok(()),
            Ok(Some(next)) => if next > index {
                rlimit_run_from(next, outcomes)
            } else {
                Ok(())
            },
        }
    }
}

/// The limits are applied in the plan's order: the first refusal ends the application and is
/// its result, the later settings are not tried, and the application succeeds exactly when
/// every setting was accepted.
pub proof fn lemma_rlimits_stop_at_first_refusal(outcomes: Seq<Result<(), Errno>>)
    requires
        outcomes.len() >= plan_len(),
    ensures
        (forall|i: int| 0 <= i < plan_len() ==> #[trigger] outcomes[i] is Ok) ==> rlimit_run_from(
            0,
            outcomes,
        ) == Ok::<(), Errno>(()),
        forall|k: int|
            0 <= k < plan_len() && (forall|i: int| 0 <= i < k ==> #[trigger] outcomes[i] is Ok)
                && outcomes[k] is Err ==> rlimit_run_from(0, outcomes) == #[trigger] outcomes[k],
{
    lemma_rlimit_run_from(0, outcomes);
}

proof fn lemma_rlimit_run_from(index: nat, outcomes: Seq<Result<(), Errno>>)
    requires
        index <= plan_len(),
    ensures
        (forall|i: int| index <= i < plan_len() && i < outcomes.len() ==> #[trigger] outcomes[i] is Ok)
            ==> rlimit_run_from(index, outcomes) == Ok::<(), Errno>(()),
        forall|k: int|
            index <= k < plan_len() && k < outcomes.len() && (forall|i: int|
                index <= i < k ==> #[trigger] outcomes[i] is Ok) && outcomes[k] is Err
                ==> rlimit_run_from(index, outcomes) == #[trigger] outcomes[k],
    decreases plan_len() - index,
{
    if index < plan_len() && index < outcomes.len() {
        lemma_rlimit_run_from(index + 1, outcomes);
        assert forall|k: int|
            index <= k < plan_len() && k < outcomes.len() && (forall|i: int|
                index <= i < k ==> #[trigger] outcomes[i] is Ok) && outcomes[k] is Err implies rlimit_run_from(
            index,
            outcomes,
        ) == #[trigger] outcomes[k] by {
            if k > index {
                assert(outcomes[index as int] is Ok);
                assert(forall|i: int| index + 1 <= i < k ==> #[trigger] outcomes[i] is Ok);
            }
        }
    }
}

/// The kernel's answers in a list of receipts.
pub open spec fn call_answers(calls: Seq<RlimitReceipt>) -> Seq<Result<(), Errno>> {
    calls.map_values(|c: RlimitReceipt| c.kernel_answer())
}

/// The limit that `res_limit` sets on `resource`.
pub open spec fn limit_for<R: ResourceLimit>(res_limit: &R, resource: RlimitResource) -> rlim_t {
    match resource {
        RlimitResource::AddressSpace => res_limit.spec_max_memory(),
        RlimitResource::Stack => res_limit.spec_max_stack(),
        RlimitResource::CpuTime => res_limit.spec_max_cpu_time(),
        RlimitResource::Processes => res_limit.spec_max_process(),
        RlimitResource::FileSize => res_limit.spec_max_output(),
    }
}

/// When the five settings of the plan were each handed to `setrlimit` and accepted, as
/// `setup_res_limit` reports with `Ok`, every resource (the output size among them) was
/// handed to the kernel with its limit from `res_limit` at both levels, and accepted.
pub proof fn lemma_applied_limits_cover_every_resource<R: ResourceLimit>(
    res_limit: &R,
    calls: Seq<RlimitReceipt>,
)
    requires
        calls.len() == plan_len(),
        forall|i: int|
            0 <= i < calls.len() ==> (#[trigger] calls[i]).setting_handed() == rlimit_plan_spec(
                res_limit,
            )[i],
        forall|i: int| 0 <= i < calls.len() ==> (#[trigger] calls[i]).kernel_answer() is Ok,
    ensures
        forall|r: RlimitResource|
            #![trigger plan_slot(r)]
            calls[plan_slot(r)].setting_handed() == both_levels(r, limit_for(res_limit, r))
                && calls[plan_slot(r)].kernel_answer() is Ok,
{
    assert forall|r: RlimitResource|
        #![trigger plan_slot(r)]
        calls[plan_slot(r)].setting_handed() == both_levels(r, limit_for(res_limit, r))
            && calls[plan_slot(r)].kernel_answer() is Ok by {
        let i = plan_slot(r);
        assert(0 <= i < 5);
        assert(calls[i].setting_handed() == rlimit_plan_spec(res_limit)[i]);
        assert(calls[i].kernel_answer() is Ok);
    }
}

/// Applies the settings of `rlimit_plan` one after the other, deciding after each with
/// `rlimit_next`, and returns the result with the receipts of the `setrlimit` calls it made.
///
/// The calls hand the kernel the first settings of the plan, in its order; every call but the
/// last was accepted, and the result is that of `rlimit_run_from` on the kernel's answers: `Ok`
/// exactly when all five settings were handed over and accepted, otherwise the refusal of the
/// last call. Whether the kernel accepts a setting is its own decision.
pub fn setup_res_limit<R: ResourceLimit>(res_limit: &R) -> (res: (
    Result<(), Errno>,
    Vec<RlimitReceipt>,
))
    ensures
        1 <= res.1@.len() <= plan_len(),
        forall|i: int|
            0 <= i < res.1@.len() ==> (#[trigger] res.1@[i]).setting_handed()
                == rlimit_plan_spec(res_limit)[i],
        forall|i: int| 0 <= i < res.1@.len() - 1 ==> (#[trigger] res.1@[i]).kernel_answer() is Ok,
        res.0 == rlimit_run_from(0, call_answers(res.1@)),
        res.0 is Ok <==> (res.1@.len() == plan_len() && res.1@.last().kernel_answer() is Ok),
        res.0 is Err ==> res.0 == res.1@.last().kernel_answer(),
        res.0 is Ok ==> forall|i: int| 0 <= i < plan_len() ==> (#[trigger] res.1@[i]).kernel_answer() is Ok,
{
    let plan = rlimit_plan(res_limit);
    let mut calls: Vec<RlimitReceipt> = Vec::new();
    let mut index: usize = 0;
    loop
        invariant
            plan@ == rlimit_plan_spec(res_limit),
            index < plan_len(),
            calls.len() == index,
            forall|i: int| 0 <= i < index ==> (#[trigger] calls@[i]).setting_handed() == plan@[i],
            forall|i: int| 0 <= i < index ==> (#[trigger] calls@[i]).kernel_answer() is Ok,
        decreases plan_len() - index,
    {
        let receipt = set_rlimit(plan[index]);
        let applied = receipt.answer();
        calls.push(receipt);
        let ghost answers = call_answers(calls@);
        proof {
            assert(answers.len() == calls@.len());
            assert forall|i: int| 0 <= i < index implies #[trigger] answers[i] is Ok by {
                assert(answers[i] == calls@[i].kernel_answer());
            }
            assert(answers[index as int] == applied);
            lemma_rlimit_run_from(0, answers);
        }
        match rlimit_next(index, applied) {
            Err(e) => {
                return (Err(e), calls);
            },
            Ok(None) => {
                return (Ok(()), calls);
            },
            Ok(Some(next)) => {
                index = next;
            },
        }
    }
}

/// Whether `s` holds no NUL character, so that it converts to a C string.
pub open spec fn nul_free(s: Seq<char>) -> bool {
    !s.contains('\0')
}

/// Whether `s` holds no NUL character.
pub fn is_nul_free(s: &str) -> (res: bool)
    ensures
        res == nul_free(s@),
{
    broadcast use vstd::string::axiom_spec_iter, vstd::string::next_postcondition;

    let mut chars = s.chars();
    let ghost mut seen: int = 0;
    loop
        invariant
            0 <= seen <= s@.len(),
            IteratorSpec::remaining(&chars) == s@.skip(seen),
            forall|j: int| 0 <= j < seen ==> s@[j] != '\0',
        decreases s@.len() - seen,
    {
        match chars.next() {
            Some(c) => {
                assert(s@.skip(seen)[0] == s@[seen]);
                if c == '\0' {
                    assert(s@.contains('\0'));
                    return false;
                }
                proof {
                    assert(s@.skip(seen).drop_first() =~= s@.skip(seen + 1));
                    seen = seen + 1;
                }
            },
            None => {
                assert(seen == s@.len());
                return true;
            },
        }
    }
}

/// Whether the path, arguments and environment of `config` all convert to C strings, which
/// the child needs before it can call `execve`.
pub fn exec_strings_valid(config: &RunConfig) -> (res: bool)
    ensures
        res == (nul_free(config.exec_path@) && nul_free(config.exec_args@) && nul_free(
            config.exec_envs@,
        )),
{
    is_nul_free(config.exec_path.as_str()) && is_nul_free(config.exec_args.as_str())
        && is_nul_free(config.exec_envs.as_str())
}

/// The steps a forked child goes through before the submission's image replaces its own.
#[derive(Debug, Clone, Copy, PartialEq, Eq, Structural)]
pub enum ChildStep {
    /// Apply the resource limits (`setup_res_limit`).
    SetLimits,
    /// Open the input and output files.
    OpenFiles,
    /// Install the seccomp filter (`prepare_seccomp`).
    InstallSeccomp,
    /// Redirect stdin, stdout and stderr to the opened files.
    RedirectFiles,
    /// Replace the process image with `execve`.
    Exec,
}

/// What the child does next.
#[derive(Debug, Clone, Copy, PartialEq, Eq, Structural)]
pub enum ChildAction {
    /// Carry out this step and report whether it succeeded.
    Perform(ChildStep),
    /// Stop and report this error.
    Fail(JudgeError),
}

/// The error the child reports when `step` fails.
pub open spec fn step_error(step: ChildStep) -> JudgeError {
    match step {
        ChildStep::SetLimits => JudgeError::SetrlimitFailed,
        ChildStep::OpenFiles => JudgeError::OpenFileFailed,
        ChildStep::InstallSeccomp => JudgeError::SeccompFailed,
        ChildStep::RedirectFiles => JudgeError::Dup2Failed,
        ChildStep::Exec => JudgeError::ExecveFailed,
    }
}

/// The steps of a child in the order in which it takes them.
pub open spec fn child_steps() -> Seq<ChildStep> {
    seq![
        ChildStep::SetLimits,
        ChildStep::OpenFiles,
        ChildStep::InstallSeccomp,
        ChildStep::RedirectFiles,
        ChildStep::Exec,
    ]
}

/// What the child does after `step` succeeded (`succeeded`) or failed.
///
/// A successful `execve` never returns, so a return from the exec step is a failure whatever it
/// reported.
pub open spec fn child_transition(step: ChildStep, succeeded: bool) -> ChildAction {
    if !succeeded {
        ChildAction::Fail(step_error(step))
    } else {
        match step {
            ChildStep::SetLimits => ChildAction::Perform(ChildStep::OpenFiles),
            ChildStep::OpenFiles => ChildAction::Perform(ChildStep::InstallSeccomp),
            ChildStep::InstallSeccomp => ChildAction::Perform(ChildStep::RedirectFiles),
            ChildStep::RedirectFiles => ChildAction::Perform(ChildStep::Exec),
            ChildStep::Exec => ChildAction::Fail(JudgeError::ExecveFailed),
        }
    }
}

/// The first step of a freshly forked child.
pub fn child_first_step() -> (step: ChildStep)
    ensures
        step == child_steps()[0],
{
    ChildStep::SetLimits
}

/// Decides the child's next action once `step` has been carried out.
pub fn child_next(step: ChildStep, succeeded: bool) -> (action: ChildAction)
    ensures
        action == child_transition(step, succeeded),
{
    if !succeeded {
        let e = match step {
            ChildStep::SetLimits => JudgeError::SetrlimitFailed,
            ChildStep::OpenFiles => JudgeError::OpenFileFailed,
            ChildStep::InstallSeccomp => JudgeError::SeccompFailed,
            ChildStep::RedirectFiles => JudgeError::Dup2Failed,
            ChildStep::Exec => JudgeError::ExecveFailed,
        };
        ChildAction::Fail(e)
    } else {
        match step {
            ChildStep::SetLimits => ChildAction::Perform(ChildStep::OpenFiles),
            ChildStep::OpenFiles => ChildAction::Perform(ChildStep::InstallSeccomp),
            ChildStep::InstallSeccomp => ChildAction::Perform(ChildStep::RedirectFiles),
            ChildStep::RedirectFiles => ChildAction::Perform(ChildStep::Exec),
            ChildStep::Exec => ChildAction::Fail(JudgeError::ExecveFailed),
        }
    }
}

/// The error a child reports when it starts at `step` and the steps it performs report the
/// outcomes in `outcomes`, one per step; `None` when the outcomes run out first.
pub open spec fn child_run_from(step: ChildStep, outcomes: Seq<bool>) -> Option<JudgeError>
    decreases outcomes.len(),
{
    if outcomes.len() == 0 {
        None
    } else {
        match child_transition(step, outcomes[0]) {
            ChildAction::Fail(e) => Some(e),
            ChildAction::Perform(next) => child_run_from(next, outcomes.drop_first()),
        }
    }
}

/// The error of a whole child run, from its first step.
pub open spec fn child_run(outcomes: Seq<bool>) -> Option<JudgeError> {
    child_run_from(ChildStep::SetLimits, outcomes)
}

proof fn lemma_child_run_from(k: int, outcomes: Seq<bool>)
    requires
        0 <= k < 5,
        outcomes.len() >= 5 - k,
    ensures
        child_run_from(child_steps()[k], outcomes) == (if first_false(outcomes) < 4 - k {
            Some(step_error(child_steps()[k + first_false(outcomes)]))
        } else {
            Some(JudgeError::ExecveFailed)
        }),
    decreases 5 - k,
{
    let step = child_steps()[k];
    assert(child_run_from(step, outcomes) == match child_transition(step, outcomes[0]) {
        ChildAction::Fail(e) => Some(e),
        ChildAction::Perform(next) => child_run_from(next, outcomes.drop_first()),
    });
    if k < 4 && outcomes[0] {
        assert(child_transition(step, true) == ChildAction::Perform(child_steps()[k + 1]));
        lemma_child_run_from(k + 1, outcomes.drop_first());
        assert(first_false(outcomes) == 1 + first_false(outcomes.drop_first()));
    } else if !outcomes[0] {
        assert(first_false(outcomes) == 0);
    } else {
        assert(k == 4);
        assert(first_false(outcomes) >= 0) by {
            lemma_first_false_nonneg(outcomes);
        }
    }
}

proof fn lemma_first_false_nonneg(outcomes: Seq<bool>)
    ensures
        first_false(outcomes) >= 0,
    decreases outcomes.len(),
{
    if outcomes.len() > 0 && outcomes[0] {
        lemma_first_false_nonneg(outcomes.drop_first());
    }
}

/// A child run stops at the first of its steps that fails and reports that step's error; when
/// every step up to the exec succeeds, it reports `ExecveFailed`, since a successful `execve`
/// does not return. So a child never reports success.
pub proof fn lemma_child_reports_first_failure(outcomes: Seq<bool>)
    requires
        outcomes.len() >= 5,
    ensures
        child_run(outcomes) is Some,
        first_false(outcomes) < 4 ==> child_run(outcomes) == Some(
            step_error(child_steps()[first_false(outcomes)]),
        ),
        first_false(outcomes) >= 4 ==> child_run(outcomes) == Some(JudgeError::ExecveFailed),
{
    lemma_child_run_from(0, outcomes);
}

/// The index of the first `false` in `outcomes`, or its length when there is none.
pub open spec fn first_false(outcomes: Seq<bool>) -> int
    decreases outcomes.len(),
{
    if outcomes.len() == 0 {
        0
    } else if !outcomes[0] {
        0
    } else {
        1 + first_false(outcomes.drop_first())
    }
}

} // verus!
