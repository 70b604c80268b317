use nix::libc::{O_CREAT, O_RDWR, O_WRONLY};
use seccompiler::{
    sock_filter, BpfProgram, Error as SeccompError, SeccompAction, SeccompCmpArgLen,
    SeccompCmpOp, SeccompCondition, SeccompFilter, SeccompRule, TargetArch,
};
use vstd::prelude::*;

use super::kernel::{install_filter, FilterInstalled};

verus! {

#[verifier::external_type_specification]
#[verifier::external_body]
pub struct ExSeccompError(SeccompError);

#[verifier::external_type_specification]
#[verifier::external_body]
pub struct ExSeccompCondition(SeccompCondition);

#[verifier::external_type_specification]
#[verifier::external_body]
pub struct ExSeccompRule(SeccompRule);

#[verifier::external_type_specification]
#[verifier::external_body]
pub struct ExTargetArch(TargetArch);

#[verifier::external_type_specification]
#[verifier::external_body]
pub struct ExSockFilter(sock_filter);

#[verifier::external_type_specification]
#[verifier::external_body]
pub struct ExSeccompAction(SeccompAction);

/// The width of the syscall argument that a condition compares.
#[derive(Debug, Clone, Copy, PartialEq, Eq, Structural)]
pub enum ArgWidth {
    /// The low 4 bytes.
    Dword,
    /// All 8 bytes.
    Qword,
}

/// How a condition compares the syscall argument with its value.
#[derive(Debug, Clone, Copy, PartialEq, Eq, Structural)]
pub enum Comparison {
    /// The argument equals the value.
    Eq,
    /// The bits of the argument under the mask equal those of the value.
    MaskedEq(u64),
}

/// What the filter does with a syscall.
#[derive(Debug, Clone, Copy, PartialEq, Eq, Structural)]
pub enum FilterAction {
    Allow,
    KillThread,
}

/// The syscalls that the sandbox policy names.
#[derive(Debug, Clone, Copy, PartialEq, Eq, Structural)]
pub enum Syscall {
    Read,
    Fstat,
    Mmap,
    Mprotect,
    Munmap,
    Uname,
    ArchPrctl,
    Brk,
    Access,
    ExitGroup,
    Close,
    Readlink,
    Sysinfo,
    Write,
    Writev,
    Lseek,
    ClockGettime,
    Execve,
    Open,
    Openat,
}

/// The highest index of a syscall argument that a condition may name.
pub open spec fn max_arg_index() -> u8 {
    5
}

/// The architectures that seccompiler builds filters for.
#[derive(Debug, Clone, Copy, PartialEq, Eq, Structural)]
pub enum Arch {
    X86_64,
    Aarch64,
}

/// One BPF instruction, as a plain value: operation code, jump offsets and operand.
#[derive(Debug, Clone, Copy, PartialEq, Eq, Structural)]
pub struct BpfInstruction {
    pub code: u16,
    pub jt: u8,
    pub jf: u8,
    pub k: u32,
}

/// A condition on one syscall argument, as a plain value.
#[derive(Debug, Clone, Copy, PartialEq, Eq, Structural)]
pub struct ArgCondition {
    pub arg_index: u8,
    pub width: ArgWidth,
    pub comparison: Comparison,
    pub value: u64,
}

/// A syscall with its rules: each rule is a list of conditions that must all hold.
#[derive(Debug, Clone)]
pub struct GuardedSyscall {
    pub syscall: Syscall,
    pub rules: Vec<Vec<ArgCondition>>,
}

impl View for GuardedSyscall {
    type V = (Syscall, Seq<Seq<ArgCondition>>);

    open spec fn view(&self) -> (Syscall, Seq<Seq<ArgCondition>>) {
        (self.syscall, self.rules@.map_values(|r: Vec<ArgCondition>| r@))
    }
}

/// The views of a list of guarded syscalls.
pub open spec fn policy_view(policy: Seq<GuardedSyscall>) -> Seq<(Syscall, Seq<Seq<ArgCondition>>)> {
    policy.map_values(|g: GuardedSyscall| g@)
}

/// Calls `seccompiler::SeccompCondition::new` with the condition's fields converted to
/// seccompiler's own types. Its source accepts the condition exactly when the argument index is
/// at most 5, whatever the width, comparison and value. The condition it builds is opaque here;
/// `GuardedSyscall` keeps the same fields as plain values.
#[verifier::external_body]
fn new_condition(cond: ArgCondition) -> (res: Result<SeccompCondition, SeccompError>)
    ensures
        res is Ok <==> cond.arg_index <= max_arg_index(),
{
    let len = match cond.width {
        ArgWidth::Dword => SeccompCmpArgLen::Dword,
        ArgWidth::Qword => SeccompCmpArgLen::Qword,
    };
    let op = match cond.comparison {
        Comparison::Eq => SeccompCmpOp::Eq,
        Comparison::MaskedEq(mask) => SeccompCmpOp::MaskedEq(mask),
    };
    SeccompCondition::new(cond.arg_index, len, op, cond.value).map_err(SeccompError::from)
}

/// Calls `seccompiler::SeccompRule::new`. Its source accepts a rule exactly when it has at least
/// one condition. The rule it builds is opaque here.
#[verifier::external_body]
fn new_rule(conditions: Vec<SeccompCondition>) -> (res: Result<SeccompRule, SeccompError>)
    ensures
        res is Ok <==> conditions.len() > 0,
{
    SeccompRule::new(conditions).map_err(SeccompError::from)
}

/// `c` with an ASCII capital letter turned into its small letter.
pub open spec fn ascii_lowercase(c: char) -> char {
    if 'A' <= c && c <= 'Z' {
        ((c as int) + 32) as char
    } else {
        c
    }
}

/// `name` with its ASCII capitals turned into small letters.
pub open spec fn lowercased(name: Seq<char>) -> Seq<char> {
    name.map_values(|c: char| ascii_lowercase(c))
}

/// Whether seccompiler knows the architecture `name`: `x86_64` or `aarch64`, in any case.
pub open spec fn is_supported_arch(name: Seq<char>) -> bool {
    lowercased(name) == "x86_64"@ || lowercased(name) == "aarch64"@
}

/// The architecture that a supported `name` stands for.
pub open spec fn arch_named(name: Seq<char>) -> Arch {
    if lowercased(name) == "x86_64"@ {
        Arch::X86_64
    } else {
        Arch::Aarch64
    }
}

/// Calls `TryFrom<&str>` of `seccompiler::TargetArch` and tells its two variants apart. Its
/// source lowercases the name and accepts `x86_64` and `aarch64`; no character outside ASCII
/// lowercases to a letter of those names, so this is the ASCII comparison that
/// `is_supported_arch` states.
#[verifier::external_body]
fn target_arch(name: &str) -> (res: Result<Arch, SeccompError>)
    ensures
        is_supported_arch(name@) ==> (res is Ok && res->Ok_0 == arch_named(name@)),
        !is_supported_arch(name@) ==> (res is Err),
{
    match TargetArch::try_from(name) {
        Ok(TargetArch::x86_64) => Ok(Arch::X86_64),
        Ok(TargetArch::aarch64) => Ok(Arch::Aarch64),
        Err(e) => Err(SeccompError::from(e)),
    }
}

/// The seccompiler architecture that stands for `arch`.
#[verifier::external_body]
fn seccomp_target(arch: Arch) -> (res: TargetArch) {
    match arch {
        Arch::X86_64 => TargetArch::x86_64,
        Arch::Aarch64 => TargetArch::aarch64,
    }
}

/// The seccompiler action that stands for `action`.
#[verifier::external_body]
fn seccomp_action(action: FilterAction) -> (res: SeccompAction) {
    match action {
        FilterAction::Allow => SeccompAction::Allow,
        FilterAction::KillThread => SeccompAction::KillThread,
    }
}

/// A BPF instruction without jumps.
pub open spec fn bpf_stmt(code: u16, k: u32) -> BpfInstruction {
    BpfInstruction { code, jt: 0, jf: 0, k }
}

/// `BPF_LD | BPF_W | BPF_ABS`: load a word of the syscall data.
pub open spec fn op_load_word() -> u16 {
    0x20
}

/// `BPF_JMP | BPF_JEQ | BPF_K`: jump on equality with the operand.
pub open spec fn op_jump_eq() -> u16 {
    0x15
}

/// `BPF_RET | BPF_K`: return the operand.
pub open spec fn op_return() -> u16 {
    0x06
}

/// The offset of the architecture in the syscall data.
pub open spec fn arch_offset() -> u32 {
    4
}

/// The offset of the syscall number in the syscall data.
pub open spec fn nr_offset() -> u32 {
    0
}

/// `SECCOMP_RET_KILL_PROCESS`.
pub open spec fn ret_kill_process() -> u32 {
    0x8000_0000
}

/// `SECCOMP_RET_ALLOW`.
pub open spec fn ret_allow() -> u32 {
    0x7fff_0000
}

/// The audit value by which the kernel names `arch` (`AUDIT_ARCH_X86_64`, `AUDIT_ARCH_AARCH64`).
pub open spec fn audit_value(arch: Arch) -> u32 {
    match arch {
        Arch::X86_64 => 0xC000_003E,
        Arch::Aarch64 => 0xC000_00B7,
    }
}

/// The code a filter returns for `action`.
pub open spec fn return_code(action: FilterAction) -> u32 {
    match action {
        FilterAction::Allow => ret_allow(),
        FilterAction::KillThread => 0,
    }
}

/// The program of a filter without rules: check the architecture, killing the process on
/// another one, then return the default action.
pub open spec fn rule_free_program(arch: Arch, mismatch: FilterAction) -> Seq<BpfInstruction> {
    seq![
        bpf_stmt(op_load_word(), arch_offset()),
        BpfInstruction { code: op_jump_eq(), jt: 1, jf: 0, k: audit_value(arch) },
        bpf_stmt(op_return(), ret_kill_process()),
        bpf_stmt(op_return(), return_code(mismatch)),
    ]
}

/// Calls `seccompiler::SeccompFilter::new` on the rules gathered into a map, compiles the filter
/// with `BpfProgram::try_from`, and hands each instruction out as a plain value.
///
/// Per seccompiler's source (`SeccompFilter::validate`, `TryFrom<SeccompFilter>` and
/// `build_arch_validation_sequence`): the filter is refused when both actions are equal; a
/// filter without rules compiles into the three instructions that check the architecture and
/// one that returns the default action. What a filter with rules compiles into is not stated
/// (it may also be refused as too large). Syscall numbers must fit in a `u32`, or the compiler
/// panics.
#[verifier::external_body]
fn compile_filter(
    rules: Vec<(i64, Vec<SeccompRule>)>,
    mismatch: FilterAction,
    on_match: FilterAction,
    arch: Arch,
) -> (res: Result<Vec<BpfInstruction>, SeccompError>)
    requires
        forall|i: int| 0 <= i < rules.len() ==> 0 <= #[trigger] rules@[i].0 <= u32::MAX,
    ensures
        mismatch == on_match ==> (res is Err),
        mismatch != on_match && rules.len() == 0 ==> (res is Ok && res->Ok_0@ == rule_free_program(
            arch,
            mismatch,
        )),
{
    let map = rules.into_iter().collect();
    let actions = (seccomp_action(mismatch), seccomp_action(on_match));
    let filter = SeccompFilter::new(map, actions.0, actions.1, seccomp_target(arch))
        .map_err(SeccompError::from)?;
    let program = BpfProgram::try_from(filter).map_err(SeccompError::from)?;
    Ok(program.iter().map(|f| BpfInstruction { code: f.code, jt: f.jt, jf: f.jf, k: f.k }).collect())
}

/// What running the program from `pc` gives for a syscall numbered `nr` on the architecture
/// named `arch`, with `acc` in the accumulator: the returned code, or `None` for an
/// instruction outside loads of the number or architecture, jumps on equality and returns, or
/// when the program runs out. Jumps only go forward, so `fuel` counts the remaining steps.
pub open spec fn bpf_run(
    program: Seq<BpfInstruction>,
    nr: u32,
    arch: u32,
    pc: int,
    acc: u32,
    fuel: nat,
) -> Option<u32>
    decreases fuel,
{
    if fuel == 0 || pc < 0 || pc >= program.len() {
        None
    } else {
        let ins = program[pc];
        if ins.code == op_return() {
            Some(ins.k)
        } else if ins.code == op_load_word() && ins.k == nr_offset() {
            bpf_run(program, nr, arch, pc + 1, nr, (fuel - 1) as nat)
        } else if ins.code == op_load_word() && ins.k == arch_offset() {
            bpf_run(program, nr, arch, pc + 1, arch, (fuel - 1) as nat)
        } else if ins.code == op_jump_eq() {
            let next = if acc == ins.k {
                pc + 1 + ins.jt
            } else {
                pc + 1 + ins.jf
            };
            bpf_run(program, nr, arch, next, acc, (fuel - 1) as nat)
        } else {
            None
        }
    }
}

/// The verdict of `program` on a syscall numbered `nr` made on the architecture named `arch`.
pub open spec fn bpf_verdict(program: Seq<BpfInstruction>, nr: u32, arch: u32) -> Option<u32> {
    bpf_run(program, nr, arch, 0, 0, program.len())
}

/// The sandbox's program lets every syscall through on its own architecture, whatever its
/// number, and kills the process that makes a syscall on another architecture.
pub proof fn lemma_program_allows_every_syscall(arch: Arch, nr: u32, other: u32)
    requires
        other != audit_value(arch),
    ensures
        bpf_verdict(rule_free_program(arch, FilterAction::Allow), nr, audit_value(arch)) == Some(
            ret_allow(),
        ),
        bpf_verdict(rule_free_program(arch, FilterAction::Allow), nr, other) == Some(
            ret_kill_process(),
        ),
{
    reveal_with_fuel(bpf_run, 4);
}

/// Whether seccompiler accepts the condition.
pub open spec fn condition_accepted(cond: ArgCondition) -> bool {
    cond.arg_index <= max_arg_index()
}

/// Whether seccompiler accepts the rule: it has a condition, and accepts each of them.
pub open spec fn rule_accepted(rule: Seq<ArgCondition>) -> bool {
    rule.len() > 0 && forall|i: int| 0 <= i < rule.len() ==> condition_accepted(#[trigger] rule[i])
}

/// Whether seccompiler accepts every rule of `rules`.
pub open spec fn rules_accepted(rules: Seq<Seq<ArgCondition>>) -> bool {
    forall|i: int| 0 <= i < rules.len() ==> rule_accepted(#[trigger] rules[i])
}

/// Whether seccompiler accepts every rule of the policy.
pub open spec fn policy_accepted(policy: Seq<(Syscall, Seq<Seq<ArgCondition>>)>) -> bool {
    forall|i: int| 0 <= i < policy.len() ==> rules_accepted(#[trigger] policy[i].1)
}

/// Builds the rule in seccompiler, which accepts it exactly when `rule_accepted` holds.
fn build_rule(rule: &Vec<ArgCondition>) -> (res: Result<SeccompRule, SeccompError>)
    ensures
        res is Ok <==> rule_accepted(rule@),
{
    let mut conditions: Vec<SeccompCondition> = Vec::new();
    let mut i: usize = 0;
    while i < rule.len()
        invariant
            i <= rule.len(),
            conditions.len() == i,
            forall|j: int| 0 <= j < i ==> condition_accepted(#[trigger] rule@[j]),
        decreases rule.len() - i,
    {
        match new_condition(rule[i]) {
            Ok(c) => conditions.push(c),
            Err(e) => return Err(e),
        }
        i = i + 1;
    }
    new_rule(conditions)
}

/// Builds every rule of `rules` in seccompiler; it fails exactly when one is refused.
fn build_rules(rules: &Vec<Vec<ArgCondition>>) -> (res: Result<Vec<SeccompRule>, SeccompError>)
    ensures
        res is Ok <==> rules_accepted(rules@.map_values(|r: Vec<ArgCondition>| r@)),
{
    let ghost views = rules@.map_values(|r: Vec<ArgCondition>| r@);
    let mut built: Vec<SeccompRule> = Vec::new();
    let mut i: usize = 0;
    while i < rules.len()
        invariant
            i <= rules.len(),
            views == rules@.map_values(|r: Vec<ArgCondition>| r@),
            forall|j: int| 0 <= j < i ==> rule_accepted(#[trigger] views[j]),
        decreases rules.len() - i,
    {
        match build_rule(&rules[i]) {
            Ok(r) => built.push(r),
            Err(e) => {
                assert(!rules_accepted(views)) by {
                    assert(!rule_accepted(views[i as int]));
                }
                return Err(e);
            },
        }
        i = i + 1;
    }
    Ok(built)
}

/// Builds the policy's rules in seccompiler; it fails exactly when a rule is refused.
fn build_policy(policy: &Vec<GuardedSyscall>) -> (res: Result<(), SeccompError>)
    ensures
        res is Ok <==> policy_accepted(policy_view(policy@)),
{
    let ghost views = policy_view(policy@);
    let mut i: usize = 0;
    while i < policy.len()
        invariant
            i <= policy.len(),
            views == policy_view(policy@),
            forall|j: int| 0 <= j < i ==> rules_accepted(#[trigger] views[j].1),
        decreases policy.len() - i,
    {
        match build_rules(&policy[i].rules) {
            Ok(_) => {},
            Err(e) => {
                assert(!policy_accepted(views)) by {
                    assert(!rules_accepted(views[i as int].1));
                }
                return Err(e);
            },
        }
        i = i + 1;
    }
    Ok(())
}

/// The value of `libc::O_WRONLY`, which libc defines as 1 on every Linux target.
#[verifier::external_body]
fn flag_write_only() -> (flag: i32)
    ensures
        flag == 1,
{
    O_WRONLY
}

/// The value of `libc::O_RDWR`, which libc defines as 2 on every Linux target.
#[verifier::external_body]
fn flag_read_write() -> (flag: i32)
    ensures
        flag == 2,
{
    O_RDWR
}

/// The value of `libc::O_CREAT`. It differs between targets: libc defines it as 64 on most Linux
/// targets (x86_64 and aarch64 among them), as 256 on mips, as 0x200 on sparc, and as 100
/// on x86_64 with uclibc.
#[verifier::external_body]
fn flag_create() -> (flag: i32)
    ensures
        flag == 64 || flag == 256 || flag == 0x200 || flag == 100,
{
    O_CREAT
}

/// The open flags that let a call write or create a file: `O_WRONLY | O_RDWR | O_CREAT`.
pub fn write_access_mask() -> (mask: u64)
    ensures
        mask == 67 || mask == 259 || mask == 515 || mask == 103,
        mask & 3 == 3,
{
    let w = flag_write_only();
    let rw = flag_read_write();
    let c = flag_create();
    let bits = w | rw | c;
    assert(bits == 67 || bits == 259 || bits == 515 || bits == 103) by (bit_vector)
        requires
            w == 1,
            rw == 2,
            c == 64 || c == 256 || c == 0x200 || c == 100,
            bits == w | rw | c,
    ;
    let mask = bits as u64;
    assert(mask & 3 == 3) by (bit_vector)
        requires
            mask == 67 || mask == 259 || mask == 515 || mask == 103,
    ;
    mask
}


/// The syscalls that the policy allows without a condition.
pub open spec fn plain_whitelist() -> Seq<Syscall> {
    seq![
        Syscall::Read,
        Syscall::Fstat,
        Syscall::Mmap,
        Syscall::Mprotect,
        Syscall::Munmap,
        Syscall::Uname,
        Syscall::ArchPrctl,
        Syscall::Brk,
        Syscall::Access,
        Syscall::ExitGroup,
        Syscall::Close,
        Syscall::Readlink,
        Syscall::Sysinfo,
        Syscall::Write,
        Syscall::Writev,
        Syscall::Lseek,
        Syscall::ClockGettime,
    ]
}

/// Whether the policy lets `call` through only under a rule: `execve` only for the
/// submission's path, `open` and `openat` only for reading.
pub open spec fn is_guarded(call: Syscall) -> bool {
    call == Syscall::Execve || call == Syscall::Open || call == Syscall::Openat
}

/// The plain whitelist names each syscall at most once, and allows exactly the syscalls the
/// policy names that it does not guard by a rule: `execve`, `open` and `openat` are not in it,
/// every other one (`write` among them) is, 17 in all.
pub proof fn lemma_whitelist_is_every_unguarded_syscall()
    ensures
        plain_whitelist().len() == 17,
        plain_whitelist().no_duplicates(),
        forall|call: Syscall| #[trigger] plain_whitelist().contains(call) <==> !is_guarded(call),
        plain_whitelist().contains(Syscall::Write),
        !plain_whitelist().contains(Syscall::Execve),
{
    let w = plain_whitelist();
    assert forall|call: Syscall| #[trigger] w.contains(call) <==> !is_guarded(call) by {
        if w.contains(call) {
            let i = choose|i: int| 0 <= i < w.len() && w[i] == call;
            assert(0 <= i < 17);
        } else {
            match call {
                Syscall::Read => assert(w[0] == call),
                Syscall::Fstat => assert(w[1] == call),
                Syscall::Mmap => assert(w[2] == call),
                Syscall::Mprotect => assert(w[3] == call),
                Syscall::Munmap => assert(w[4] == call),
                Syscall::Uname => assert(w[5] == call),
                Syscall::ArchPrctl => assert(w[6] == call),
                Syscall::Brk => assert(w[7] == call),
                Syscall::Access => assert(w[8] == call),
                Syscall::ExitGroup => assert(w[9] == call),
                Syscall::Close => assert(w[10] == call),
                Syscall::Readlink => assert(w[11] == call),
                Syscall::Sysinfo => assert(w[12] == call),
                Syscall::Write => assert(w[13] == call),
                Syscall::Writev => assert(w[14] == call),
                Syscall::Lseek => assert(w[15] == call),
                Syscall::ClockGettime => assert(w[16] == call),
                _ => {},
            }
        }
    }
    assert(w[13] == Syscall::Write);
}

/// The syscalls that the policy allows without a condition, in its order: every syscall it
/// names except `execve`, `open` and `openat`, which it guards by rules.
pub fn allowed_syscalls() -> (calls: Vec<Syscall>)
    ensures
        calls@ == plain_whitelist(),
        calls@.len() == 17,
        calls@.no_duplicates(),
        forall|call: Syscall| #[trigger] calls@.contains(call) <==> !is_guarded(call),
{
    proof {
        lemma_whitelist_is_every_unguarded_syscall();
    }
    let calls = vec![
        Syscall::Read,
        Syscall::Fstat,
        Syscall::Mmap,
        Syscall::Mprotect,
        Syscall::Munmap,
        Syscall::Uname,
        Syscall::ArchPrctl,
        Syscall::Brk,
        Syscall::Access,
        Syscall::ExitGroup,
        Syscall::Close,
        Syscall::Readlink,
        Syscall::Sysinfo,
        Syscall::Write,
        Syscall::Writev,
        Syscall::Lseek,
        Syscall::ClockGettime,
    ];
    assert(calls@ =~= plain_whitelist());
    calls
}

/// A condition on argument `arg_index`, compared on its low 4 bytes.
pub open spec fn dword_condition(arg_index: u8, comparison: Comparison, value: u64) -> ArgCondition {
    ArgCondition { arg_index, width: ArgWidth::Dword, comparison, value }
}

/// The rules for `execve`: its first argument must equal `exe_path_ptr`, the address of the
/// submission's path.
pub open spec fn execve_policy(exe_path_ptr: u64) -> Seq<(Syscall, Seq<Seq<ArgCondition>>)> {
    seq![(Syscall::Execve, seq![seq![dword_condition(0, Comparison::Eq, exe_path_ptr)]])]
}

/// The rules for `open` and `openat`: no bit of `mask` may be set in their flags, the second
/// argument.
pub open spec fn read_only_open_policy(mask: u64) -> Seq<(Syscall, Seq<Seq<ArgCondition>>)> {
    let rule = seq![seq![dword_condition(1, Comparison::MaskedEq(mask), 0)]];
    seq![(Syscall::Open, rule), (Syscall::Openat, rule)]
}

/// The rule that lets `execve` run only the submission: its first argument, compared on its low
/// 4 bytes, must be the address of the submission's path. seccompiler accepts it.
pub fn execve_rules(exe_path_ptr: u64) -> (res: Result<Vec<GuardedSyscall>, SeccompError>)
    ensures
        res is Ok,
        res matches Ok(rules) ==> policy_view(rules@) == execve_policy(exe_path_ptr),
{
    let condition = ArgCondition {
        arg_index: 0,
        width: ArgWidth::Dword,
        comparison: Comparison::Eq,
        value: exe_path_ptr,
    };
    let rule = vec![condition];
    let rules = vec![rule];
    let policy = vec![GuardedSyscall { syscall: Syscall::Execve, rules }];
    proof {
        assert(rules@[0]@ =~= seq![dword_condition(0, Comparison::Eq, exe_path_ptr)]);
        assert(policy@[0].rules@.map_values(|r: Vec<ArgCondition>| r@) =~= seq![
            seq![dword_condition(0, Comparison::Eq, exe_path_ptr)],
        ]);
        assert(policy_view(policy@) =~= execve_policy(exe_path_ptr));
    }
    match build_policy(&policy) {
        Ok(()) => Ok(policy),
        Err(e) => Err(e),
    }
}

/// The rules that let `open` and `openat` open files only for reading: none of the write or
/// create flags (`write_access_mask`) may be set in their second argument. seccompiler accepts
/// them.
pub fn read_only_open_rules() -> (res: Result<Vec<GuardedSyscall>, SeccompError>)
    ensures
        res is Ok,
        res matches Ok(rules) ==> exists|mask: u64|
            mask & 3 == 3 && policy_view(rules@) == #[trigger] read_only_open_policy(mask),
{
    let mask = write_access_mask();
    let condition = ArgCondition {
        arg_index: 1,
        width: ArgWidth::Dword,
        comparison: Comparison::MaskedEq(mask),
        value: 0,
    };
    let open_rules = vec![vec![condition]];
    let openat_rules = vec![vec![condition]];
    let policy = vec![
        GuardedSyscall { syscall: Syscall::Open, rules: open_rules },
        GuardedSyscall { syscall: Syscall::Openat, rules: openat_rules },
    ];
    proof {
        let rule = seq![seq![dword_condition(1, Comparison::MaskedEq(mask), 0)]];
        assert(open_rules@[0]@ =~= rule[0]);
        assert(openat_rules@[0]@ =~= rule[0]);
        assert(policy@[0].rules@.map_values(|r: Vec<ArgCondition>| r@) =~= rule);
        assert(policy@[1].rules@.map_values(|r: Vec<ArgCondition>| r@) =~= rule);
        assert(policy_view(policy@) =~= read_only_open_policy(mask));
    }
    match build_policy(&policy) {
        Ok(()) => Ok(policy),
        Err(e) => Err(e),
    }
}

/// The BPF program that the child installs: for a supported architecture, the program of a
/// filter without rules whose default is to allow the syscall (the action on a match, which
/// never happens, is to kill the thread).
pub fn seccomp_program(arch: &str) -> (res: Result<Vec<BpfInstruction>, SeccompError>)
    ensures
        res is Ok <==> is_supported_arch(arch@),
        res matches Ok(program) ==> program@ == rule_free_program(
            arch_named(arch@),
            FilterAction::Allow,
        ),
{
    let target = match target_arch(arch) {
        Ok(t) => t,
        Err(e) => return Err(e),
    };
    compile_filter(Vec::new(), FilterAction::Allow, FilterAction::KillThread, target)
}

/// On an architecture seccompiler knows, the program that `prepare_seccomp` hands to the kernel
/// is not empty, so the install is not refused for emptiness, and lets every syscall through
/// on that architecture, whatever its number. It is fixed by the architecture alone, so it
/// does not depend on the path's address.
pub proof fn lemma_prepared_program_allows_every_syscall(name: Seq<char>, nr: u32)
    requires
        is_supported_arch(name),
    ensures
        rule_free_program(arch_named(name), FilterAction::Allow).len() > 0,
        bpf_verdict(
            rule_free_program(arch_named(name), FilterAction::Allow),
            nr,
            audit_value(arch_named(name)),
        ) == Some(ret_allow()),
{
    lemma_program_allows_every_syscall(arch_named(name), nr, 0);
}

/// Builds the sandbox's seccomp rules and installs `seccomp_program(arch)` on the calling
/// thread; it returns the result with the receipt of the install, `None` when none was made.
/// The result of an install is the kernel's answer to it.
///
/// The rules for the whitelist, for `execve` and for read-only `open` are built and accepted,
/// but not installed, so the path's address does not reach the installed program. On an
/// architecture that seccompiler does not know nothing is installed and it fails; otherwise
/// the allow-all program of that architecture is installed, and the kernel's answer returned.
pub fn prepare_seccomp(exe_path_ptr: u64, arch: &str) -> (res: (
    Result<(), SeccompError>,
    Option<FilterInstalled>,
))
    ensures
        !is_supported_arch(arch@) ==> (res.0 is Err && res.1 is None),
        is_supported_arch(arch@) ==> (res.1 is Some && res.1->0.program_handed()
            == rule_free_program(arch_named(arch@), FilterAction::Allow)),
        res.1 matches Some(installed) ==> (res.0 is Ok <==> installed.kernel_accepted()),
{
    let _whitelist = allowed_syscalls();
    let _special = match execve_rules(exe_path_ptr) {
        Ok(rules) => rules,
        Err(e) => return (Err(e), None),
    };
    let _read_only = match read_only_open_rules() {
        Ok(rules) => rules,
        Err(e) => return (Err(e), None),
    };
    let program = match seccomp_program(arch) {
        Ok(p) => p,
        Err(e) => return (Err(e), None),
    };
    let (answer, installed) = install_filter(&program);
    (answer, Some(installed))
}

} // verus!
