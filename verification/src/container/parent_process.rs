use nix::errno::Errno;
use vstd::prelude::*;

use super::kernel::{send_signal, SignalSent};
use super::JudgeError;

verus! {

/// The signals that the judge sends.
#[derive(Debug, Clone, Copy, PartialEq, Eq, Structural)]
pub enum JudgeSignal {
    /// `SIGKILL`, which the process cannot catch.
    Kill,
}

/// Sends `SIGKILL` to the child, and returns the kernel's answer with the receipt of the call:
/// it handed `SIGKILL` for `child_pid` to the kernel, and the answer is the kernel's. Whether
/// the signal arrives is the kernel's decision.
pub fn kill_process(child_pid: i32) -> (res: (Result<(), Errno>, SignalSent))
    ensures
        res.1.pid_handed() == child_pid,
        res.1.signal_handed() == JudgeSignal::Kill,
        res.0 == res.1.kernel_answer(),
{
    let sent = send_signal(child_pid, JudgeSignal::Kill);
    (sent.answer(), sent)
}

/// The steps the parent goes through while the child runs.
#[derive(Debug, Clone, Copy, PartialEq, Eq, Structural)]
pub enum ParentStep {
    /// Start the watchdog thread that kills the child when its time is up.
    StartWatchdog,
    /// Wait for the child.
    WaitChild,
    /// Cancel the watchdog thread.
    CancelWatchdog,
}

/// What the parent does next.
#[derive(Debug, Clone, Copy, PartialEq, Eq, Structural)]
pub enum ParentAction {
    /// Carry out this step and report whether it succeeded.
    Perform(ParentStep),
    /// Kill the child, then stop with this error.
    KillAndFail(JudgeError),
    /// Stop: the run is over.
    Finish,
}

/// What the parent does after `step` succeeded (`succeeded`) or failed. Cancelling the watchdog
/// ends the run whatever it reported.
pub open spec fn parent_transition(step: ParentStep, succeeded: bool) -> ParentAction {
    match step {
        ParentStep::StartWatchdog => if succeeded {
            ParentAction::Perform(ParentStep::WaitChild)
        } else {
            ParentAction::KillAndFail(JudgeError::PthreadFailed)
        },
        ParentStep::WaitChild => if succeeded {
            ParentAction::Perform(ParentStep::CancelWatchdog)
        } else {
            ParentAction::KillAndFail(JudgeError::WaitFailed)
        },
        ParentStep::CancelWatchdog => ParentAction::Finish,
    }
}

/// The first step of the parent once the child is forked.
pub fn parent_first_step() -> (step: ParentStep)
    ensures
        step == ParentStep::StartWatchdog,
{
    ParentStep::StartWatchdog
}

/// Decides the parent's next action once `step` has been carried out.
pub fn parent_next(step: ParentStep, succeeded: bool) -> (action: ParentAction)
    ensures
        action == parent_transition(step, succeeded),
{
    match step {
        ParentStep::StartWatchdog => if succeeded {
            ParentAction::Perform(ParentStep::WaitChild)
        } else {
            ParentAction::KillAndFail(JudgeError::PthreadFailed)
        },
        ParentStep::WaitChild => if succeeded {
            ParentAction::Perform(ParentStep::CancelWatchdog)
        } else {
            ParentAction::KillAndFail(JudgeError::WaitFailed)
        },
        ParentStep::CancelWatchdog => ParentAction::Finish,
    }
}

/// How a run of the parent ends: its result, and whether it killed the child on the way.
pub struct ParentEnd {
    pub result: Result<(), JudgeError>,
    pub killed_child: bool,
}

/// How the parent ends when it starts at `step` and the steps it performs report `outcomes`;
/// `None` when the outcomes run out first.
pub open spec fn parent_run_from(step: ParentStep, outcomes: Seq<bool>) -> Option<ParentEnd>
    decreases outcomes.len(),
{
    if outcomes.len() == 0 {
        None
    } else {
        match parent_transition(step, outcomes[0]) {
            ParentAction::Perform(next) => parent_run_from(next, outcomes.drop_first()),
            ParentAction::KillAndFail(e) => Some(ParentEnd { result: Err(e), killed_child: true }),
            ParentAction::Finish => Some(ParentEnd { result: Ok(()), killed_child: false }),
        }
    }
}

/// A parent that fails kills the child before it reports the error: `PthreadFailed` when the
/// watchdog cannot be started, `WaitFailed` when the child cannot be waited for. It reports
/// success only when both succeeded, and then it cancels the watchdog.
pub proof fn lemma_parent_kills_on_failure(outcomes: Seq<bool>)
    requires
        outcomes.len() >= 3,
    ensures
        parent_run_from(ParentStep::StartWatchdog, outcomes) matches Some(end) && {
            &&& end.result is Err <==> end.killed_child
            &&& end.result is Ok <==> (outcomes[0] && outcomes[1])
            &&& !outcomes[0] ==> end.result == Err::<(), JudgeError>(JudgeError::PthreadFailed)
            &&& outcomes[0] && !outcomes[1] ==> end.result == Err::<(), JudgeError>(
                JudgeError::WaitFailed,
            )
        },
{
    reveal_with_fuel(parent_run_from, 4);
    assert(outcomes.drop_first()[0] == outcomes[1]);
    assert(outcomes.drop_first().drop_first()[0] == outcomes[2]);
}

/// The steps of the watchdog thread.
#[derive(Debug, Clone, Copy, PartialEq, Eq, Structural)]
pub enum WatchdogStep {
    /// Detach the watchdog thread.
    Detach,
    /// Sleep for the real-time limit.
    Sleep,
}

/// What the watchdog does after a step: kill the child `kills` times, then go on to `next`, or
/// exit when it is `None`.
#[derive(Debug, Clone, Copy, PartialEq, Eq, Structural)]
pub struct WatchdogAction {
    pub kills: u8,
    pub next: Option<WatchdogStep>,
}

/// After a failed detach the child is killed at once; after the sleep it is killed in any
/// case, and once more before that when the sleep was cut short.
pub open spec fn watchdog_transition(step: WatchdogStep, succeeded: bool) -> WatchdogAction {
    match step {
        WatchdogStep::Detach => WatchdogAction {
            kills: if succeeded { 0 } else { 1 },
            next: Some(WatchdogStep::Sleep),
        },
        WatchdogStep::Sleep => WatchdogAction { kills: if succeeded { 1 } else { 2 }, next: None },
    }
}

/// The first step of the watchdog thread.
pub fn watchdog_first_step() -> (step: WatchdogStep)
    ensures
        step == WatchdogStep::Detach,
{
    WatchdogStep::Detach
}

/// Decides what the watchdog does once `step` has been carried out.
pub fn watchdog_next(step: WatchdogStep, succeeded: bool) -> (action: WatchdogAction)
    ensures
        action == watchdog_transition(step, succeeded),
{
    match step {
        WatchdogStep::Detach => WatchdogAction {
            kills: if succeeded { 0 } else { 1 },
            next: Some(WatchdogStep::Sleep),
        },
        WatchdogStep::Sleep => WatchdogAction { kills: if succeeded { 1 } else { 2 }, next: None },
    }
}

/// The number of times the child is killed when the watchdog starts at `step` and its steps
/// report `outcomes`; `None` when the outcomes run out before it exits.
pub open spec fn watchdog_kills_from(step: WatchdogStep, outcomes: Seq<bool>) -> Option<nat>
    decreases outcomes.len(),
{
    if outcomes.len() == 0 {
        None
    } else {
        let action = watchdog_transition(step, outcomes[0]);
        match action.next {
            None => Some(action.kills as nat),
            Some(next) => match watchdog_kills_from(next, outcomes.drop_first()) {
                Some(k) => Some(action.kills as nat + k),
                None => None,
            },
        }
    }
}

/// The number of `false` among the first `n` outcomes.
pub open spec fn failures(outcomes: Seq<bool>, n: int) -> nat
    decreases n,
{
    if n <= 0 {
        0
    } else {
        failures(outcomes, n - 1) + if outcomes[n - 1] { 0nat } else { 1nat }
    }
}

/// The watchdog always kills the child when the time is up, and kills it once more for each of
/// its steps that failed; its last action is a kill.
pub proof fn lemma_watchdog_always_kills(outcomes: Seq<bool>)
    requires
        outcomes.len() >= 2,
    ensures
        watchdog_kills_from(WatchdogStep::Detach, outcomes) == Some(1 + failures(outcomes, 2)),
        watchdog_transition(WatchdogStep::Sleep, outcomes[1]).kills >= 1,
{
    reveal_with_fuel(watchdog_kills_from, 3);
    reveal_with_fuel(failures, 3);
    assert(outcomes.drop_first()[0] == outcomes[1]);
}

} // verus!
