use nix::libc::rlim_t;
use vstd::prelude::*;

verus! {

/// The limits under which a submission runs.
///
/// Each method has a spec counterpart, so that callers can state which value went where.
pub trait ResourceLimit {
    /// The value `max_cpu_time` returns.
    spec fn spec_max_cpu_time(&self) -> rlim_t;

    /// The value `max_real_time` returns.
    spec fn spec_max_real_time(&self) -> rlim_t;

    /// The value `max_memory` returns.
    spec fn spec_max_memory(&self) -> rlim_t;

    /// The value `max_stack` returns.
    spec fn spec_max_stack(&self) -> rlim_t;

    /// The value `max_process` returns.
    spec fn spec_max_process(&self) -> rlim_t;

    /// The value `max_output` returns.
    spec fn spec_max_output(&self) -> rlim_t;

    /// max time cpu being used in seconds
    fn max_cpu_time(&self) -> (r: rlim_t)
        ensures
            r == self.spec_max_cpu_time(),
    ;

    /// max time process running in seconds
    fn max_real_time(&self) -> (r: rlim_t)
        ensures
            r == self.spec_max_real_time(),
    ;

    /// max virtual memory in bytes
    fn max_memory(&self) -> (r: rlim_t)
        ensures
            r == self.spec_max_memory(),
    ;

    /// max stack size in bytes
    fn max_stack(&self) -> (r: rlim_t)
        ensures
            r == self.spec_max_stack(),
    ;

    /// max process number
    fn max_process(&self) -> (r: rlim_t)
        ensures
            r == self.spec_max_process(),
    ;

    /// max output(stdout stderr) size in bytes
    fn max_output(&self) -> (r: rlim_t)
        ensures
            r == self.spec_max_output(),
    ;
}

/// The limits a submission gets unless it asks for others.
pub struct DefaultResLimit {}

impl ResourceLimit for DefaultResLimit {
    open spec fn spec_max_cpu_time(&self) -> rlim_t {
        50
    }

    open spec fn spec_max_real_time(&self) -> rlim_t {
        50
    }

    open spec fn spec_max_memory(&self) -> rlim_t {
        0x8000000
    }

    open spec fn spec_max_stack(&self) -> rlim_t {
        0x8000000
    }

    open spec fn spec_max_process(&self) -> rlim_t {
        10
    }

    open spec fn spec_max_output(&self) -> rlim_t {
        0x8000000
    }

    fn max_cpu_time(&self) -> (r: rlim_t) {
        50
    }

    fn max_real_time(&self) -> (r: rlim_t) {
        50
    }

    fn max_memory(&self) -> (r: rlim_t) {
        0x8000000
    }

    fn max_stack(&self) -> (r: rlim_t) {
        0x8000000
    }

    fn max_process(&self) -> (r: rlim_t) {
        10
    }

    fn max_output(&self) -> (r: rlim_t) {
        0x8000000
    }
}

/// Limits chosen by the caller, one value per resource.
pub struct CustomResLimit {
    max_cpu_time: rlim_t,
    max_real_time: rlim_t,
    max_memory: rlim_t,
    max_stack: rlim_t,
    max_process: rlim_t,
    max_output: rlim_t,
}

impl CustomResLimit {
    pub fn new(
        max_cpu_time: rlim_t,
        max_real_time: rlim_t,
        max_memory: rlim_t,
        max_stack: rlim_t,
        max_process: rlim_t,
        max_output: rlim_t,
    ) -> (res: CustomResLimit)
        ensures
            res.spec_max_cpu_time() == max_cpu_time,
            res.spec_max_real_time() == max_real_time,
            res.spec_max_memory() == max_memory,
            res.spec_max_stack() == max_stack,
            res.spec_max_process() == max_process,
            res.spec_max_output() == max_output,
    {
        CustomResLimit { max_cpu_time, max_real_time, max_memory, max_stack, max_process, max_output }
    }
}

impl ResourceLimit for CustomResLimit {
    closed spec fn spec_max_cpu_time(&self) -> rlim_t {
        self.max_cpu_time
    }

    closed spec fn spec_max_real_time(&self) -> rlim_t {
        self.max_real_time
    }

    closed spec fn spec_max_memory(&self) -> rlim_t {
        self.max_memory
    }

    closed spec fn spec_max_stack(&self) -> rlim_t {
        self.max_stack
    }

    closed spec fn spec_max_process(&self) -> rlim_t {
        self.max_process
    }

    closed spec fn spec_max_output(&self) -> rlim_t {
        self.max_output
    }

    fn max_cpu_time(&self) -> (r: rlim_t) {
        self.max_cpu_time
    }

    fn max_real_time(&self) -> (r: rlim_t) {
        self.max_real_time
    }

    fn max_memory(&self) -> (r: rlim_t) {
        self.max_memory
    }

    fn max_stack(&self) -> (r: rlim_t) {
        self.max_stack
    }

    fn max_process(&self) -> (r: rlim_t) {
        self.max_process
    }

    fn max_output(&self) -> (r: rlim_t) {
        self.max_output
    }
}

} // verus!
