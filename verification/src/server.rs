use vstd::prelude::*;

use crate::container::{JudgeError, RunConfig};

verus! {

/// The route at which a run is ordered.
pub fn order_route() -> (route: String)
    ensures
        route@ == "/orders/shoes"@,
{
    "/orders/shoes".to_owned()
}

/// The address the server listens on: port `port` of the loopback interface.
pub fn listen_address(port: &str) -> (addr: String)
    ensures
        addr@ == "127.0.0.1:"@ + port@,
{
    let mut addr = "127.0.0.1:".to_owned();
    addr.append(port);
    addr
}

/// The C++ program that an order compiles and runs.
pub fn order_source() -> (code: String)
    ensures
        code@ == "#include <iostream>\nint main() { std::cout << \"Hello, World!\"; return 0; }"@,
{
    "#include <iostream>\nint main() { std::cout << \"Hello, World!\"; return 0; }".to_owned()
}

/// How an order runs the program at `exec_path`: no arguments and no environment, reading
/// `input.txt` and writing `output.txt`, as user 65536.
pub fn order_run_config(exec_path: String) -> (config: RunConfig)
    ensures
        config.exec_path == exec_path,
        config.exec_args@ == ""@,
        config.exec_envs@ == ""@,
        config.infile_path@ == "input.txt"@,
        config.outfile_path@ == "output.txt"@,
        config.uid == 65536,
{
    RunConfig {
        exec_path,
        exec_args: "".to_owned(),
        exec_envs: "".to_owned(),
        infile_path: "input.txt".to_owned(),
        outfile_path: "output.txt".to_owned(),
        uid: 65536,
    }
}

/// The body of the answer to an order: `runed` when the run went through, `error` otherwise.
pub fn order_reply(run: &Result<(), JudgeError>) -> (reply: String)
    ensures
        run is Ok ==> reply@ == "runed"@,
        run is Err ==> reply@ == "error"@,
{
    match run {
        Ok(()) => "runed".to_owned(),
        Err(_) => "error".to_owned(),
    }
}

} // verus!
