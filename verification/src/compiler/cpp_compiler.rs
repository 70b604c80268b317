use vstd::prelude::*;
use vstd::utf8::{decode_utf8, valid_utf8};

use super::{arg_views, CompileJob};

verus! {

/// Calls `String::from_utf8`, which is documented to succeed exactly on valid UTF-8 and then to
/// hold the characters those bytes encode.
#[verifier::external_body]
fn string_from_utf8(bytes: Vec<u8>) -> (res: Option<String>)
    ensures
        res is Some <==> valid_utf8(bytes@),
        res matches Some(s) ==> s@ == decode_utf8(bytes@),
{
    String::from_utf8(bytes).ok()
}

/// The arguments given to `g++`: optimise, compile `main.cpp`, write `main`.
pub open spec fn cpp_args() -> Seq<Seq<char>> {
    seq!["-O2"@, "main.cpp"@, "-o"@, "main"@]
}

/// The job that compiles the C++ source `code`.
pub open spec fn is_cpp_job(job: CompileJob, code: Seq<char>) -> bool {
    &&& job.source_path@ == "main.cpp"@
    &&& job.source@ == code
    &&& job.program@ == "g++"@
    &&& arg_views(job.args@) == cpp_args()
    &&& job.artifact@ == "main"@
}

/// What a C++ compilation returns: the artifact when `g++` succeeded, its messages otherwise.
pub open spec fn cpp_result(job: CompileJob, succeeded: bool, stderr: Seq<u8>) -> Result<
    Seq<char>,
    Seq<char>,
> {
    if succeeded {
        Ok(job.artifact@)
    } else {
        Err(decode_utf8(stderr))
    }
}

/// The job that compiles the C++ source `code` with `g++ -O2 main.cpp -o main`.
pub fn compile(code: &str) -> (job: CompileJob)
    ensures
        is_cpp_job(job, code@),
{
    let mut args: Vec<String> = Vec::new();
    args.push("-O2".to_owned());
    args.push("main.cpp".to_owned());
    args.push("-o".to_owned());
    args.push("main".to_owned());
    let job = CompileJob {
        source_path: "main.cpp".to_owned(),
        source: code.to_owned(),
        program: "g++".to_owned(),
        args,
        artifact: "main".to_owned(),
    };
    assert(arg_views(job.args@) =~= cpp_args());
    job
}

/// What compiling with `job` returns: the artifact's path when `g++` succeeded, else its
/// messages, which must then be UTF-8.
pub fn finish(job: &CompileJob, succeeded: bool, stderr: Vec<u8>) -> (res: Result<String, String>)
    requires
        !succeeded ==> valid_utf8(stderr@),
    ensures
        (match res {
            Ok(path) => Ok(path@),
            Err(msg) => Err(msg@),
        }) == cpp_result(*job, succeeded, stderr@),
        succeeded ==> (res is Ok && res->Ok_0@ == job.artifact@),
        !succeeded ==> (res is Err && res->Err_0@ == decode_utf8(stderr@)),
{
    if !succeeded {
        match string_from_utf8(stderr) {
            Some(msg) => Err(msg),
            None => Err(String::new()),
        }
    } else {
        Ok(job.artifact.clone())
    }
}

} // verus!
