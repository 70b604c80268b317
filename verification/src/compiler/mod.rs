pub mod cpp_compiler;

use vstd::prelude::*;

verus! {

/// The languages a submission can be written in.
#[derive(Debug, Clone, Copy, PartialEq, Eq, Structural)]
pub enum LangType {
    Cpp,
}

/// How to compile a submission: write `source` to `source_path`, run `program` with `args`,
/// and, if it succeeds, run `artifact`.
pub struct CompileJob {
    pub source_path: String,
    pub source: String,
    pub program: String,
    pub args: Vec<String>,
    pub artifact: String,
}

/// The views of a job's arguments.
pub open spec fn arg_views(args: Seq<String>) -> Seq<Seq<char>> {
    args.map_values(|a: String| a@)
}

/// The job that compiles `code` in the language `lang`.
pub open spec fn is_job_for(lang: LangType, job: CompileJob, code: Seq<char>) -> bool {
    match lang {
        LangType::Cpp => cpp_compiler::is_cpp_job(job, code),
    }
}

/// What compiling in `lang` returns once the compiler ran with success `succeeded` and wrote
/// `stderr`.
pub open spec fn compile_result(
    lang: LangType,
    job: CompileJob,
    succeeded: bool,
    stderr: Seq<u8>,
) -> Result<Seq<char>, Seq<char>> {
    match lang {
        LangType::Cpp => cpp_compiler::cpp_result(job, succeeded, stderr),
    }
}

/// The job that compiles `code` written in `lang`.
pub fn compile(lang: LangType, code: &str) -> (job: CompileJob)
    ensures
        is_job_for(lang, job, code@),
{
    match lang {
        LangType::Cpp => cpp_compiler::compile(code),
    }
}

/// What compiling in `lang` returns: the path of the program built, or the compiler's messages.
///
/// The messages must be UTF-8 when the compiler failed: they are read as a `String`.
pub fn finish_compile(lang: LangType, job: &CompileJob, succeeded: bool, stderr: Vec<u8>) -> (res:
    Result<String, String>)
    requires
        !succeeded ==> vstd::utf8::valid_utf8(stderr@),
    ensures
        (match res {
            Ok(path) => Ok(path@),
            Err(msg) => Err(msg@),
        }) == compile_result(lang, *job, succeeded, stderr@),
        succeeded ==> (res is Ok && res->Ok_0@ == job.artifact@),
        !succeeded ==> (res is Err && res->Err_0@ == vstd::utf8::decode_utf8(stderr@)),
{
    match lang {
        LangType::Cpp => cpp_compiler::finish(job, succeeded, stderr),
    }
}

/// A compilation that the compiler failed is reported as an error holding the compiler's
/// messages, whatever they are; one that it passed is reported as the artifact, whatever it
/// printed.
pub proof fn lemma_compile_result_follows_the_compiler(
    lang: LangType,
    job: CompileJob,
    stderr: Seq<u8>,
)
    ensures
        compile_result(lang, job, false, stderr) == Err::<Seq<char>, Seq<char>>(
            vstd::utf8::decode_utf8(stderr),
        ),
        compile_result(lang, job, true, stderr) == Ok::<Seq<char>, Seq<char>>(job.artifact@),
        compile_result(lang, job, true, stderr) != compile_result(lang, job, false, stderr),
{
}

/// A successful compilation returns the file that the compiler was told to write after `-o`,
/// and the compiler reads the file that the source was written to.
pub proof fn lemma_compiled_artifact_is_output(
    lang: LangType,
    job: CompileJob,
    code: Seq<char>,
    stderr: Seq<u8>,
)
    requires
        is_job_for(lang, job, code),
    ensures
        exists|i: int|
            #![trigger arg_views(job.args@)[i]]
            0 <= i && i + 1 < job.args@.len() && arg_views(job.args@)[i] == "-o"@ && compile_result(
                lang,
                job,
                true,
                stderr,
            ) == Ok::<Seq<char>, Seq<char>>(arg_views(job.args@)[i + 1]),
        arg_views(job.args@).contains(job.source_path@),
{
    match lang {
        LangType::Cpp => {
            assert(arg_views(job.args@).len() == job.args@.len());
            assert(arg_views(job.args@)[2] == "-o"@);
            assert(arg_views(job.args@)[3] == job.artifact@);
            assert(arg_views(job.args@)[1] == job.source_path@);
        },
    }
}

} // verus!
