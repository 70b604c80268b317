use nix::errno::Errno;
use nix::sys::resource::{setrlimit, Resource};
use nix::sys::signal::{kill, Signal};
use nix::unistd::Pid;
use seccompiler::{apply_filter, sock_filter, Error as SeccompError};
use vstd::prelude::*;

use super::child_process::{RlimitResource, RlimitSetting};
use super::parent_process::JudgeSignal;
use super::seccomp::BpfInstruction;

verus! {

/// The receipt of one `setrlimit` call: the setting handed to the kernel and its answer.
///
/// Its fields are private to this module, so a receipt exists only where `set_rlimit` made the
/// call it records.
pub struct RlimitReceipt {
    setting: RlimitSetting,
    answer: Result<(), Errno>,
}

impl RlimitReceipt {
    /// The setting handed to `setrlimit`.
    pub closed spec fn setting_handed(&self) -> RlimitSetting {
        self.setting
    }

    /// The kernel's answer to the call.
    pub closed spec fn kernel_answer(&self) -> Result<(), Errno> {
        self.answer
    }

    /// The kernel's answer to the call.
    pub fn answer(&self) -> (answer: Result<(), Errno>)
        ensures
            answer == self.kernel_answer(),
    {
        self.answer
    }
}

/// Calls `nix::sys::resource::setrlimit` on the resource, with the two limits as given, and
/// returns the receipt of that call.
///
/// Whether the kernel accepts the limits depends on the process's privileges and current
/// limits, so nothing is claimed of its answer.
#[verifier::external_body]
pub(crate) fn set_rlimit(setting: RlimitSetting) -> (receipt: RlimitReceipt)
    ensures
        receipt.setting_handed() == setting,
{
    let resource = match setting.resource {
        RlimitResource::AddressSpace => Resource::RLIMIT_AS,
        RlimitResource::Stack => Resource::RLIMIT_STACK,
        RlimitResource::CpuTime => Resource::RLIMIT_CPU,
        RlimitResource::Processes => Resource::RLIMIT_NPROC,
        RlimitResource::FileSize => Resource::RLIMIT_FSIZE,
    };
    let answer = setrlimit(resource, setting.soft, setting.hard);
    RlimitReceipt { setting, answer }
}

/// The receipt of one `kill` call: the process and signal handed to the kernel, and its answer.
///
/// Its fields are private to this module, so a receipt exists only where `send_signal` made the
/// call it records.
pub struct SignalSent {
    pid: i32,
    signal: JudgeSignal,
    answer: Result<(), Errno>,
}

impl SignalSent {
    /// The process the signal was sent to.
    pub closed spec fn pid_handed(&self) -> i32 {
        self.pid
    }

    /// The signal sent.
    pub closed spec fn signal_handed(&self) -> JudgeSignal {
        self.signal
    }

    /// The kernel's answer to the call.
    pub closed spec fn kernel_answer(&self) -> Result<(), Errno> {
        self.answer
    }

    /// The kernel's answer to the call.
    pub fn answer(&self) -> (answer: Result<(), Errno>)
        ensures
            answer == self.kernel_answer(),
    {
        self.answer
    }
}

/// Calls `nix::sys::signal::kill` on the process `pid` with the signal that `signal` stands for,
/// and returns the receipt of that call.
///
/// Whether the signal can be sent depends on the process table and on privileges, so nothing
/// is claimed of the kernel's answer.
#[verifier::external_body]
pub(crate) fn send_signal(pid: i32, signal: JudgeSignal) -> (sent: SignalSent)
    ensures
        sent.pid_handed() == pid,
        sent.signal_handed() == signal,
{
    let sig = match signal {
        JudgeSignal::Kill => Signal::SIGKILL,
    };
    let answer = kill(Pid::from_raw(pid), sig);
    SignalSent { pid, signal, answer }
}

/// The receipt of one `apply_filter` call: the program handed to it, and whether the kernel
/// installed it.
///
/// Its fields are private to this module, so a receipt exists only where `install_filter` made
/// the call it records.
pub struct FilterInstalled {
    program: Vec<BpfInstruction>,
    accepted: bool,
}

impl FilterInstalled {
    /// The program handed to `apply_filter`.
    pub closed spec fn program_handed(&self) -> Seq<BpfInstruction> {
        self.program@
    }

    /// Whether the program was installed.
    pub closed spec fn kernel_accepted(&self) -> bool {
        self.accepted
    }
}

/// Calls `seccompiler::apply_filter` on the instructions converted back into seccompiler's
/// `sock_filter`, which installs the program on the calling thread, and returns its answer with
/// the receipt of the call. Its source refuses an empty program; otherwise the answer depends on
/// the kernel.
#[verifier::external_body]
pub(crate) fn install_filter(program: &Vec<BpfInstruction>) -> (res: (
    Result<(), SeccompError>,
    FilterInstalled,
))
    ensures
        program.len() == 0 ==> (res.0 is Err),
        res.1.program_handed() == program@,
        res.1.kernel_accepted() == (res.0 is Ok),
{
    let filter: Vec<sock_filter> = program.iter().map(|i| sock_filter { code: i.code, jt: i.jt, jf: i.jf, k: i.k }).collect();
    let answer = apply_filter(&filter);
    let accepted = answer.is_ok();
    (answer, FilterInstalled { program: program.clone(), accepted })
}

} // verus!
