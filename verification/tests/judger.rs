use judger::compiler::{compile, finish_compile, LangType};
use judger::config::{env_file_name, get_env, init_env, ConfigError, Profile};
use judger::container::child_process::{
    child_first_step, child_next, exec_strings_valid, is_nul_free, rlimit_next, rlimit_plan,
    ChildAction, ChildStep, RlimitResource, RlimitSetting,
};
use judger::container::lang_config::{CustomResLimit, ResourceLimit};
use judger::container::parent_process::{
    parent_first_step, parent_next, watchdog_first_step, watchdog_next, ParentAction, ParentStep,
    WatchdogAction, WatchdogStep,
};
use judger::container::seccomp::{
    allowed_syscalls, execve_rules, prepare_seccomp, read_only_open_rules, seccomp_program,
    write_access_mask, ArgCondition, ArgWidth, BpfInstruction, Comparison, Syscall,
};
use judger::container::{
    parent_time_limit, run_after_fork, DefaultResLimit, ForkOutcome, JudgeError, RunAction,
    RunConfig,
};
use judger::server::{listen_address, order_reply, order_route, order_run_config, order_source};

fn config_with(path: &str, args: &str, envs: &str) -> RunConfig {
    RunConfig {
        exec_path: path.to_string(),
        exec_args: args.to_string(),
        exec_envs: envs.to_string(),
        infile_path: "in".to_string(),
        outfile_path: "out".to_string(),
        uid: 1,
    }
}

#[test]
fn default_limits_have_documented_values() {
    let d = DefaultResLimit {};
    assert_eq!(d.max_cpu_time(), 50);
    assert_eq!(d.max_real_time(), 50);
    assert_eq!(d.max_memory(), 0x8000000);
    assert_eq!(d.max_stack(), 0x8000000);
    assert_eq!(d.max_process(), 10);
    assert_eq!(d.max_output(), 0x8000000);
}

#[test]
fn custom_limits_read_back() {
    let c = CustomResLimit::new(1, 2, 3, 4, 5, 6);
    assert_eq!(c.max_cpu_time(), 1);
    assert_eq!(c.max_real_time(), 2);
    assert_eq!(c.max_memory(), 3);
    assert_eq!(c.max_stack(), 4);
    assert_eq!(c.max_process(), 5);
    assert_eq!(c.max_output(), 6);
}

#[test]
fn plan_sets_each_limit_at_both_levels() {
    let plan = rlimit_plan(&CustomResLimit::new(1, 2, 3, 4, 5, 6));
    assert_eq!(
        plan,
        vec![
            RlimitSetting { resource: RlimitResource::AddressSpace, soft: 3, hard: 3 },
            RlimitSetting { resource: RlimitResource::Stack, soft: 4, hard: 4 },
            RlimitSetting { resource: RlimitResource::CpuTime, soft: 1, hard: 1 },
            RlimitSetting { resource: RlimitResource::Processes, soft: 5, hard: 5 },
            RlimitSetting { resource: RlimitResource::FileSize, soft: 6, hard: 6 },
        ]
    );
}

#[test]
fn default_plan_values() {
    let plan = rlimit_plan(&DefaultResLimit {});
    assert_eq!(plan.len(), 5);
    assert_eq!(plan[0].soft, 0x8000000);
    assert_eq!(plan[2].hard, 50);
    assert_eq!(plan[3].soft, 10);
}

#[test]
fn time_limit_must_fit_u32() {
    assert_eq!(parent_time_limit(&DefaultResLimit {}), Some(50));
    assert_eq!(parent_time_limit(&CustomResLimit::new(0, 4294967295, 0, 0, 0, 0)), Some(u32::MAX));
    assert_eq!(parent_time_limit(&CustomResLimit::new(0, 4294967296, 0, 0, 0, 0)), None);
}

#[test]
fn fork_outcomes_decide_branch() {
    let d = DefaultResLimit {};
    assert_eq!(
        run_after_fork(ForkOutcome::Parent(42), &d),
        RunAction::Supervise { child: 42, time_limit: 50 }
    );
    assert_eq!(run_after_fork(ForkOutcome::Child, &d), RunAction::RunChild);
    assert_eq!(run_after_fork(ForkOutcome::Failed, &d), RunAction::Fail(JudgeError::ForkFailed));
}

fn run_child(outcomes: &[bool]) -> JudgeError {
    let mut step = child_first_step();
    for &ok in outcomes {
        match child_next(step, ok) {
            ChildAction::Perform(next) => step = next,
            ChildAction::Fail(e) => return e,
        }
    }
    panic!("the outcomes ran out")
}

#[test]
fn child_steps_in_order() {
    assert_eq!(child_first_step(), ChildStep::SetLimits);
    assert_eq!(child_next(ChildStep::SetLimits, true), ChildAction::Perform(ChildStep::OpenFiles));
    assert_eq!(
        child_next(ChildStep::OpenFiles, true),
        ChildAction::Perform(ChildStep::InstallSeccomp)
    );
    assert_eq!(
        child_next(ChildStep::InstallSeccomp, true),
        ChildAction::Perform(ChildStep::RedirectFiles)
    );
    assert_eq!(child_next(ChildStep::RedirectFiles, true), ChildAction::Perform(ChildStep::Exec));
}

#[test]
fn child_errors_per_step() {
    assert_eq!(run_child(&[false]), JudgeError::SetrlimitFailed);
    assert_eq!(run_child(&[true, false]), JudgeError::OpenFileFailed);
    assert_eq!(run_child(&[true, true, false]), JudgeError::SeccompFailed);
    assert_eq!(run_child(&[true, true, true, false]), JudgeError::Dup2Failed);
    assert_eq!(run_child(&[true, true, true, true, false]), JudgeError::ExecveFailed);
}

#[test]
fn child_never_succeeds() {
    assert_eq!(run_child(&[true, true, true, true, true]), JudgeError::ExecveFailed);
    assert_eq!(child_next(ChildStep::Exec, true), ChildAction::Fail(JudgeError::ExecveFailed));
}

#[test]
fn child_reports_first_failure_only() {
    assert_eq!(run_child(&[true, false, false, false, false]), JudgeError::OpenFileFailed);
}

#[test]
fn nul_characters_are_refused() {
    assert!(is_nul_free("main"));
    assert!(is_nul_free(""));
    assert!(is_nul_free("é/ü"));
    assert!(!is_nul_free("ma\0in"));
    assert!(exec_strings_valid(&config_with("main", "", "")));
    assert!(!exec_strings_valid(&config_with("main", "a\0", "")));
    assert!(!exec_strings_valid(&config_with("main", "", "\0")));
    assert!(!exec_strings_valid(&config_with("\0", "", "")));
}

#[test]
fn parent_steps() {
    assert_eq!(parent_first_step(), ParentStep::StartWatchdog);
    assert_eq!(
        parent_next(ParentStep::StartWatchdog, true),
        ParentAction::Perform(ParentStep::WaitChild)
    );
    assert_eq!(
        parent_next(ParentStep::WaitChild, true),
        ParentAction::Perform(ParentStep::CancelWatchdog)
    );
    assert_eq!(parent_next(ParentStep::CancelWatchdog, true), ParentAction::Finish);
    assert_eq!(parent_next(ParentStep::CancelWatchdog, false), ParentAction::Finish);
}

#[test]
fn parent_kills_on_failure() {
    assert_eq!(
        parent_next(ParentStep::StartWatchdog, false),
        ParentAction::KillAndFail(JudgeError::PthreadFailed)
    );
    assert_eq!(
        parent_next(ParentStep::WaitChild, false),
        ParentAction::KillAndFail(JudgeError::WaitFailed)
    );
}

fn watchdog_kills(detach_ok: bool, sleep_ok: bool) -> u32 {
    let mut step = watchdog_first_step();
    let mut kills = 0u32;
    for ok in [detach_ok, sleep_ok] {
        let action = watchdog_next(step, ok);
        kills += action.kills as u32;
        match action.next {
            Some(next) => step = next,
            None => return kills,
        }
    }
    panic!("the watchdog did not exit")
}

#[test]
fn watchdog_always_kills() {
    assert_eq!(watchdog_first_step(), WatchdogStep::Detach);
    assert_eq!(watchdog_kills(true, true), 1);
    assert_eq!(watchdog_kills(false, true), 2);
    assert_eq!(watchdog_kills(true, false), 2);
    assert_eq!(watchdog_kills(false, false), 3);
    assert_eq!(
        watchdog_next(WatchdogStep::Detach, true),
        WatchdogAction { kills: 0, next: Some(WatchdogStep::Sleep) }
    );
}

#[test]
fn cpp_compile_job() {
    let job = compile(LangType::Cpp, "int main() {}");
    assert_eq!(job.source_path, "main.cpp");
    assert_eq!(job.source, "int main() {}");
    assert_eq!(job.program, "g++");
    assert_eq!(job.args, vec!["-O2", "main.cpp", "-o", "main"]);
    assert_eq!(job.artifact, "main");
}

#[test]
fn compile_success_returns_output_file() {
    let job = compile(LangType::Cpp, "int main() {}");
    let res = finish_compile(LangType::Cpp, &job, true, b"warning".to_vec());
    assert_eq!(res, Ok("main".to_string()));
    let out = job.args.iter().position(|a| a == "-o").unwrap();
    assert_eq!(res.unwrap(), job.args[out + 1]);
}

#[test]
fn compile_failure_returns_messages() {
    let job = compile(LangType::Cpp, "int main(");
    let res = finish_compile(LangType::Cpp, &job, false, "erreur: « main »".as_bytes().to_vec());
    assert_eq!(res, Err("erreur: « main »".to_string()));
    let res = finish_compile(LangType::Cpp, &job, false, Vec::new());
    assert_eq!(res, Err(String::new()));
}

#[test]
fn env_files_per_profile() {
    assert_eq!(env_file_name(Profile::Development), ".env.development");
    assert_eq!(env_file_name(Profile::Production), ".env.production");
}

#[test]
fn init_env_needs_loaded_file() {
    assert!(init_env(true).is_ok());
    match init_env(false) {
        Err(e) => assert_eq!(e.describe(), "failed to load .env file"),
        Ok(()) => panic!("a missing file is an error"),
    }
}

#[test]
fn get_env_reports_missing_key() {
    assert_eq!(get_env("PORT", Some("8080".to_string())).unwrap(), "8080");
    match get_env("PORT", None) {
        Err(ConfigError::NotFound(key)) => assert_eq!(key, "PORT"),
        _ => panic!("a missing key is an error"),
    }
    assert_eq!(get_env("PORT", None).unwrap_err().describe(), "PORT not found in .env file");
}

#[test]
fn server_values() {
    assert_eq!(order_route(), "/orders/shoes");
    assert_eq!(listen_address("8080"), "127.0.0.1:8080");
    assert_eq!(
        order_source(),
        "#include <iostream>\nint main() { std::cout << \"Hello, World!\"; return 0; }"
    );
    let c = order_run_config("main".to_string());
    assert_eq!(c.exec_path, "main");
    assert_eq!(c.exec_args, "");
    assert_eq!(c.exec_envs, "");
    assert_eq!(c.infile_path, "input.txt");
    assert_eq!(c.outfile_path, "output.txt");
    assert_eq!(c.uid, 65536);
    assert_eq!(order_reply(&Ok(())), "runed");
    assert_eq!(order_reply(&Err(JudgeError::ForkFailed)), "error");
}

fn allow_all(audit: u32) -> Vec<BpfInstruction> {
    vec![
        BpfInstruction { code: 0x20, jt: 0, jf: 0, k: 4 },
        BpfInstruction { code: 0x15, jt: 1, jf: 0, k: audit },
        BpfInstruction { code: 0x06, jt: 0, jf: 0, k: 0x8000_0000 },
        BpfInstruction { code: 0x06, jt: 0, jf: 0, k: 0x7fff_0000 },
    ]
}

#[test]
fn seccomp_program_per_arch() {
    assert_eq!(seccomp_program("x86_64").unwrap(), allow_all(0xC000_003E));
    assert_eq!(seccomp_program("X86_64").unwrap(), allow_all(0xC000_003E));
    assert_eq!(seccomp_program("aarch64").unwrap(), allow_all(0xC000_00B7));
    assert!(seccomp_program("x8664").is_err());
    assert!(seccomp_program("mips").is_err());
    assert!(prepare_seccomp(0, "riscv64").0.is_err());
}

#[test]
fn seccomp_rules_are_accepted() {
    let special = execve_rules(0xdead_beef_0000).unwrap();
    assert_eq!(special.len(), 1);
    assert_eq!(special[0].syscall, Syscall::Execve);
    assert_eq!(
        special[0].rules,
        vec![vec![ArgCondition {
            arg_index: 0,
            width: ArgWidth::Dword,
            comparison: Comparison::Eq,
            value: 0xdead_beef_0000,
        }]]
    );
    let read_only = read_only_open_rules().unwrap();
    let guard = vec![vec![ArgCondition {
        arg_index: 1,
        width: ArgWidth::Dword,
        comparison: Comparison::MaskedEq(write_access_mask()),
        value: 0,
    }]];
    assert_eq!(read_only.len(), 2);
    assert_eq!(read_only[0].syscall, Syscall::Open);
    assert_eq!(read_only[1].syscall, Syscall::Openat);
    assert_eq!(read_only[0].rules, guard);
    assert_eq!(read_only[1].rules, guard);
    let whitelist = allowed_syscalls();
    assert_eq!(whitelist.len(), 17);
    assert_eq!(whitelist[0], Syscall::Read);
    assert_eq!(whitelist[16], Syscall::ClockGettime);
}

#[test]
fn write_mask_covers_write_flags() {
    let expected = (nix::libc::O_WRONLY | nix::libc::O_RDWR | nix::libc::O_CREAT) as u64;
    assert_eq!(write_access_mask(), expected);
    assert_eq!(write_access_mask() & 3, 3);
}

#[test]
fn rlimits_stop_at_first_refusal() {
    assert_eq!(rlimit_next(0, Ok(())), Ok(Some(1)));
    assert_eq!(rlimit_next(3, Ok(())), Ok(Some(4)));
    assert_eq!(rlimit_next(4, Ok(())), Ok(None));
    assert_eq!(rlimit_next(2, Err(nix::errno::Errno::EPERM)), Err(nix::errno::Errno::EPERM));
}

#[test]
fn write_mask_is_a_linux_value() {
    let mask = write_access_mask();
    assert!(mask == 67 || mask == 259 || mask == 515 || mask == 103);
}
